//! Port scanning: listening ports joined with their processes, Docker
//! containers and frameworks, sorted by port.
use vstd::prelude::*;

use crate::docker::{DockerClient, entry_for, spec_image_framework};
use crate::error::{PortlyError, Result};
use crate::framework::{
    FileProbe, FrameworkDetector, detect_probes, detect_step, is_directory_framework, opt_str_view, spec_command_framework,
};
use crate::platform::{Platform, PlatformCall, node_views, process_views};
use crate::process::{
    PortInfo, PortInfoView, ProcessInfo, ProcessInfoView, ProcessNode, ProcessNodeView, RawPortInfo,
    opt_view,
};
use crate::text::{
    chars_of, extend_chars, file_name, has_substring, join_space, owned, spec_file_name,
    spec_join_space, spec_lowercase, spec_words, split_whitespace, string_of, to_lowercase, views,
    contains_str,
};

verus! {

/// The names (lower-cased) that mark a process as part of the system or as
/// a desktop application, by substring.
pub open spec fn spec_is_system_process(name: Seq<char>) -> bool {
    let n = spec_lowercase(name);
    ||| has_substring(n, "svchost"@)
    ||| has_substring(n, "csrss"@)
    ||| has_substring(n, "lsass"@)
    ||| has_substring(n, "services"@)
    ||| has_substring(n, "explorer"@)
    ||| has_substring(n, "dwm"@)
    ||| has_substring(n, "searchindexer"@)
    ||| has_substring(n, "taskhostw"@)
    ||| has_substring(n, "runtimebroker"@)
    ||| has_substring(n, "system"@)
    ||| has_substring(n, "registry"@)
    ||| has_substring(n, "smss"@)
    ||| has_substring(n, "wininit"@)
    ||| has_substring(n, "winlogon"@)
    ||| has_substring(n, "spotify"@)
    ||| has_substring(n, "chrome"@)
    ||| has_substring(n, "firefox"@)
    ||| has_substring(n, "slack"@)
    ||| has_substring(n, "discord"@)
    ||| has_substring(n, "code"@)
    ||| has_substring(n, "teams"@)
    ||| has_substring(n, "zoom"@)
    ||| has_substring(n, "skype"@)
    ||| has_substring(n, "msedge"@)
    ||| has_substring(n, "brave"@)
}

/// Check if a process is a system process that should be filtered.
pub fn is_system_process(name: &str) -> (r: bool)
    ensures
        r == spec_is_system_process(name@),
{
    let lower = to_lowercase(name);
    let n = chars_of(lower.as_str());
    contains_str(&n, "svchost") || contains_str(&n, "csrss") || contains_str(&n, "lsass")
        || contains_str(&n, "services") || contains_str(&n, "explorer") || contains_str(
        &n,
        "dwm",
    ) || contains_str(&n, "searchindexer") || contains_str(&n, "taskhostw") || contains_str(
        &n,
        "runtimebroker",
    ) || contains_str(&n, "system") || contains_str(&n, "registry") || contains_str(&n, "smss")
        || contains_str(&n, "wininit") || contains_str(&n, "winlogon") || contains_str(
        &n,
        "spotify",
    ) || contains_str(&n, "chrome") || contains_str(&n, "firefox") || contains_str(&n, "slack")
        || contains_str(&n, "discord") || contains_str(&n, "code") || contains_str(&n, "teams")
        || contains_str(&n, "zoom") || contains_str(&n, "skype") || contains_str(&n, "msedge")
        || contains_str(&n, "brave")
}

/// A word that is a command-line flag.
pub open spec fn is_flag(w: Seq<char>) -> bool {
    w.len() > 0 && w[0] == '-'
}

/// The index of the first word at or after `i` that is not a flag.
pub open spec fn first_non_flag(words: Seq<Seq<char>>, i: int) -> int
    decreases words.len() - i,
{
    if 0 <= i < words.len() && is_flag(words[i]) {
        first_non_flag(words, i + 1)
    } else {
        i
    }
}

/// The short description of a command line: the script and arguments of a
/// Node.js command, the arguments of a Python script, a Cargo command in
/// full, the first two words of Go and .NET commands, "docker" for Docker,
/// and the process name otherwise.
pub open spec fn spec_command_description(cmd: Seq<char>, process_name: Seq<char>) -> Seq<char> {
    let parts = spec_words(cmd);
    let n = parts.len() as int;
    if cmd.len() == 0 || n == 0 {
        process_name
    } else {
        let first = spec_lowercase(parts[0]);
        let s = first_non_flag(parts, 1);
        if has_substring(first, "node"@) && n > 1 && s < n {
            let arg = parts[s];
            let name = match spec_file_name(arg) {
                Some(f) => f,
                None => arg,
            };
            if n - s > 1 {
                name + seq![' '] + spec_join_space(parts.subrange(s + 1, n))
            } else {
                name
            }
        } else if has_substring(first, "python"@) && n > 2 {
            spec_join_space(parts.subrange(2, n))
        } else if has_substring(first, "cargo"@) {
            spec_join_space(parts)
        } else if has_substring(first, "go"@) && n > 1 {
            spec_join_space(parts.subrange(0, 2))
        } else if has_substring(first, "dotnet"@) && n > 1 {
            spec_join_space(parts.subrange(0, 2))
        } else if has_substring(first, "docker"@) {
            "docker"@
        } else {
            process_name
        }
    }
}

/// Extract a meaningful command description from a full command line.
pub fn extract_command_description(cmd_line: &str, process_name: &str) -> (r: String)
    ensures
        r@ == spec_command_description(cmd_line@, process_name@),
{
    let cmd = chars_of(cmd_line);
    if cmd.len() == 0 {
        return owned(process_name);
    }
    let parts = split_whitespace(&cmd);
    let n = parts.len();
    if n == 0 {
        return owned(process_name);
    }
    let ghost ps = spec_words(cmd_line@);
    assert(ps[0] == parts@[0]@);
    assert(views(parts@).subrange(0, n as int) =~= ps);
    let first_text = string_of(&parts[0]);
    let lower = to_lowercase(first_text.as_str());
    let first = chars_of(lower.as_str());
    if contains_str(&first, "node") && n > 1 {
        let mut s: usize = 1;
        while s < n && parts[s].len() > 0 && parts[s][0] == '-'
            invariant
                1 <= s <= n,
                n == parts@.len(),
                ps == views(parts@),
                first_non_flag(ps, 1) == first_non_flag(ps, s as int),
            decreases n - s,
        {
            assert(ps[s as int] == parts@[s as int]@);
            s = s + 1;
        }
        proof {
            if s < n {
                assert(ps[s as int] == parts@[s as int]@);
            }
        }
        if s < n {
            let arg = &parts[s];
            let mut name = match file_name(arg) {
                Some(f) => f,
                None => arg.clone(),
            };
            if n - s > 1 {
                name.push(' ');
                let rest = join_space(&parts, s + 1, n);
                extend_chars(&mut name, &rest);
            }
            return string_of(&name);
        }
    }
    if contains_str(&first, "python") && n > 2 {
        return string_of(&join_space(&parts, 2, n));
    }
    if contains_str(&first, "cargo") {
        return string_of(&join_space(&parts, 0, n));
    }
    if contains_str(&first, "go") && n > 1 {
        return string_of(&join_space(&parts, 0, 2));
    }
    if contains_str(&first, "dotnet") && n > 1 {
        return string_of(&join_space(&parts, 0, 2));
    }
    if contains_str(&first, "docker") {
        return owned("docker");
    }
    owned(process_name)
}

/// The project a working directory names: its final component.
pub open spec fn spec_project_name(working_dir: Option<Seq<char>>) -> Option<Seq<char>> {
    match working_dir {
        Some(d) => spec_file_name(d),
        None => None,
    }
}

/// The project name of a working directory.
pub fn project_name_of(working_dir: &Option<String>) -> (r: Option<String>)
    ensures
        opt_view(r) == spec_project_name(opt_view(*working_dir)),
{
    match working_dir {
        Some(d) => {
            let v = chars_of(d.as_str());
            match file_name(&v) {
                Some(f) => Some(string_of(&f)),
                None => None,
            }
        },
        None => None,
    }
}

/// `p` is the entry that a scan makes for a listening port and the
/// process behind it: system processes are left out unless `show_all`, the
/// name is the command's description, and a port that a Docker container
/// publishes is shown by the container's name and image.
pub open spec fn describes(
    p: PortInfoView,
    raw: RawPortInfo,
    info: ProcessInfoView,
    show_all: bool,
    docker: Map<u16, (Seq<char>, Seq<char>)>,
) -> bool {
    &&& show_all || !spec_is_system_process(info.name)
    &&& p.port == raw.port
    &&& p.pid == raw.pid
    &&& p.process_name == spec_command_description(info.command, info.name)
    &&& p.status == info.status
    &&& match entry_for(docker, raw.port) {
        Some((name, image)) => p.framework == Some(spec_image_framework(image)) && p.project_name
            == Some(name),
        None => {
            &&& p.project_name == spec_project_name(info.working_dir)
            &&& spec_command_framework(info.command) is Some ==> p.framework
                == spec_command_framework(info.command)
            &&& spec_command_framework(info.command) is None && info.working_dir is None
                ==> p.framework is None
            &&& p.framework matches Some(f) ==> spec_command_framework(info.command) == Some(f)
                || is_directory_framework(f)
        },
    }
}

/// The view of what the platform said of a process, if anything.
pub open spec fn info_view(info: Option<ProcessInfo>) -> Option<ProcessInfoView> {
    match info {
        Some(i) => Some(i@),
        None => None,
    }
}

/// The views of what the platform said of each port's process.
pub open spec fn info_views(s: Seq<Option<ProcessInfo>>) -> Seq<Option<ProcessInfoView>> {
    s.map_values(|i: Option<ProcessInfo>| info_view(i))
}

/// The listening ports whose process was read and is kept, each with its
/// process: all of them with `show_all`, else those whose process is not a
/// system process.
pub open spec fn kept_pairs(
    raw: Seq<RawPortInfo>,
    infos: Seq<Option<ProcessInfoView>>,
    show_all: bool,
) -> Seq<(RawPortInfo, ProcessInfoView)>
    decreases raw.len(),
{
    if raw.len() == 0 || infos.len() != raw.len() {
        seq![]
    } else {
        let rest = kept_pairs(raw.drop_last(), infos.drop_last(), show_all);
        match infos.last() {
            Some(info) => if show_all || !spec_is_system_process(info.name) {
                rest.push((raw.last(), info))
            } else {
                rest
            },
            None => rest,
        }
    }
}

/// `entries` are the entries a scan makes, one for each kept listening
/// port, in the order the platform listed the ports.
pub open spec fn is_scan_of(
    entries: Seq<PortInfoView>,
    raw: Seq<RawPortInfo>,
    infos: Seq<Option<ProcessInfoView>>,
    show_all: bool,
    docker: Map<u16, (Seq<char>, Seq<char>)>,
) -> bool {
    &&& raw.len() == infos.len()
    &&& entries.len() == kept_pairs(raw, infos, show_all).len()
    &&& forall|k: int|
        0 <= k < entries.len() ==> describes(
            #[trigger] entries[k],
            kept_pairs(raw, infos, show_all)[k].0,
            kept_pairs(raw, infos, show_all)[k].1,
            show_all,
            docker,
        )
}

/// The questions a scan puts to the platform, with its answers: the
/// listening ports, then the process of each port's PID, in order.
pub open spec fn scan_calls(raw: Seq<RawPortInfo>, infos: Seq<Option<ProcessInfoView>>) -> Seq<
    PlatformCall,
> {
    seq![PlatformCall::Listening(Ok(raw))] + Seq::new(
        raw.len(),
        |i: int| PlatformCall::Process(raw[i].pid, infos[i]),
    )
}

/// What a platform's listing of ports records.
pub open spec fn listing_answer(r: Result<Vec<RawPortInfo>>) -> core::result::Result<
    Seq<RawPortInfo>,
    PortlyError,
> {
    match r {
        Ok(v) => Ok(v@),
        Err(e) => Err(e),
    }
}

/// The platform could not list ports: the record grew by that failed
/// listing alone.
pub open spec fn listing_failed(before: Seq<PlatformCall>, after: Seq<PlatformCall>) -> bool {
    &&& after.len() == before.len() + 1
    &&& after.drop_last() == before
    &&& after.last() matches PlatformCall::Listening(Err(_))
}

/// What a platform's answer about a process records.
pub open spec fn info_answer(r: Result<ProcessInfo>) -> Option<ProcessInfoView> {
    match r {
        Ok(i) => Some(i@),
        Err(_) => None,
    }
}

/// What a platform's answer about a process tree records.
pub open spec fn tree_answer(r: Result<Vec<ProcessNode>>) -> Option<Seq<ProcessNodeView>> {
    match r {
        Ok(t) => Some(node_views(t@)),
        Err(_) => None,
    }
}

/// What a platform's answer listing all processes records.
pub open spec fn all_answer(r: Result<Vec<ProcessInfo>>) -> Option<Seq<ProcessInfoView>> {
    match r {
        Ok(v) => Some(process_views(v@)),
        Err(_) => None,
    }
}

/// `ports` is what a scan returns for these platform answers: sorted by
/// port, and a sort, stable within each port, of the entries made for the
/// kept ports in the order the platform listed them.
pub open spec fn is_scan_result_of(
    ports: Seq<PortInfoView>,
    raw: Seq<RawPortInfo>,
    infos: Seq<Option<ProcessInfoView>>,
    show_all: bool,
    docker: Map<u16, (Seq<char>, Seq<char>)>,
) -> bool {
    &&& sorted_by_port(ports)
    &&& exists|unsorted: Seq<PortInfoView>|
        is_scan_of(unsorted, raw, infos, show_all, docker) && forall|port: u16|
            with_port(ports, port) == with_port(unsorted, port)
}

/// A scan that went from the record `before` to `after` returned `ports`:
/// the platform listed ports and answered for each port's process, and
/// `ports` is the scan result for those answers.
#[verifier::opaque]
pub open spec fn scanned(
    before: Seq<PlatformCall>,
    after: Seq<PlatformCall>,
    ports: Seq<PortInfoView>,
    show_all: bool,
    docker: Map<u16, (Seq<char>, Seq<char>)>,
) -> bool {
    exists|raw: Seq<RawPortInfo>, infos: Seq<Option<ProcessInfoView>>|
        raw.len() == infos.len() && after == before + scan_calls(raw, infos) && is_scan_result_of(
            ports,
            raw,
            infos,
            show_all,
            docker,
        )
}

/// A lookup of `port` went from `before` to `after` and found `answer`:
/// either the platform could not list ports (and nothing was found), or a
/// scan with system processes was made and `answer` is its first entry for
/// `port`.
pub open spec fn port_lookup(
    before: Seq<PlatformCall>,
    after: Seq<PlatformCall>,
    port: u16,
    docker: Map<u16, (Seq<char>, Seq<char>)>,
    answer: Option<PortInfoView>,
) -> bool {
    ||| listing_failed(before, after) && answer is None
    ||| exists|ports: Seq<PortInfoView>|
        scanned(before, after, ports, true, docker) && first_for_port(ports, port) == answer
}

/// The first entry for `port`, if any.
pub open spec fn first_for_port(ports: Seq<PortInfoView>, port: u16) -> Option<PortInfoView> {
    if exists|i: int| 0 <= i < ports.len() && ports[i].port == port {
        let i = choose|i: int|
            0 <= i < ports.len() && ports[i].port == port && forall|j: int|
                0 <= j < i ==> ports[j].port != port;
        Some(ports[i])
    } else {
        None
    }
}

/// The views of a sequence of port entries.
pub open spec fn port_views(s: Seq<PortInfo>) -> Seq<PortInfoView> {
    s.map_values(|p: PortInfo| p@)
}

/// Entries are in ascending port order.
pub open spec fn sorted_by_port(s: Seq<PortInfoView>) -> bool {
    forall|i: int, j: int| 0 <= i < j < s.len() ==> s[i].port <= s[j].port
}

/// The entries for one port, in order.
pub open spec fn with_port(s: Seq<PortInfoView>, port: u16) -> Seq<PortInfoView> {
    s.filter(|p: PortInfoView| p.port == port)
}

proof fn lemma_with_port_push(s: Seq<PortInfoView>, x: PortInfoView, port: u16)
    ensures
        with_port(s.push(x), port) == if x.port == port {
            with_port(s, port).push(x)
        } else {
            with_port(s, port)
        },
{
    reveal(Seq::filter);
    assert(s.push(x).drop_last() =~= s);
}

proof fn lemma_with_port_insert(s: Seq<PortInfoView>, j: int, x: PortInfoView, port: u16)
    requires
        0 <= j <= s.len(),
        forall|k: int| j <= k < s.len() ==> s[k].port > x.port,
    ensures
        with_port(s.insert(j, x), port) == if x.port == port {
            with_port(s, port).push(x)
        } else {
            with_port(s, port)
        },
{
    let a = s.subrange(0, j);
    let b = s.subrange(j, s.len() as int);
    let pred = |p: PortInfoView| p.port == port;
    assert(s =~= a + b);
    Seq::filter_distributes_over_add(a, b, pred);
    Seq::filter_distributes_over_add(a.push(x), b, pred);
    lemma_with_port_push(a, x, port);
    if x.port == port {
        assert forall|k: int| 0 <= k < b.len() implies !pred(b[k]) by {}
        assert(b.filter(pred) =~= seq![]) by {
            reveal(Seq::filter);
            lemma_filter_none(b, pred);
        }
        assert(s.insert(j, x) =~= a.push(x) + b);
    } else {
        assert(s.insert(j, x) =~= a.push(x) + b);
    }
}

proof fn lemma_filter_none(s: Seq<PortInfoView>, pred: spec_fn(PortInfoView) -> bool)
    requires
        forall|k: int| 0 <= k < s.len() ==> !pred(s[k]),
    ensures
        s.filter(pred) == Seq::<PortInfoView>::empty(),
    decreases s.len(),
{
    reveal(Seq::filter);
    if s.len() > 0 {
        lemma_filter_none(s.drop_last(), pred);
    }
}

/// Two sequences with the same entries for every port hold the same
/// entries.
proof fn lemma_member_by_port(r: Seq<PortInfoView>, v: Seq<PortInfoView>, k: int)
    requires
        0 <= k < r.len(),
        forall|port: u16| with_port(r, port) == with_port(v, port),
    ensures
        v.contains(r[k]),
{
    let port = r[k].port;
    let pred = |p: PortInfoView| p.port == port;
    r.lemma_filter_contains(pred, k);
    assert(with_port(r, port) == with_port(v, port));
    v.lemma_filter_contains_rev(pred, r[k]);
}

/// Sorts entries by port, keeping the order of entries with equal ports.
pub fn sort_by_port(v: &Vec<PortInfo>) -> (r: Vec<PortInfo>)
    ensures
        sorted_by_port(port_views(r@)),
        forall|port: u16| with_port(port_views(r@), port) == with_port(port_views(v@), port),
        r@.len() == v@.len(),
        forall|k: int| 0 <= k < r@.len() ==> port_views(v@).contains(#[trigger] port_views(r@)[k]),
{
    let mut r: Vec<PortInfo> = Vec::new();
    for i in 0..v.len()
        invariant
            r@.len() == i,
            sorted_by_port(port_views(r@)),
            forall|port: u16|
                with_port(port_views(r@), port) == with_port(port_views(v@).take(i as int), port),
    {
        let x = v[i].copy();
        let mut j = r.len();
        while j > 0 && r[j - 1].port > x.port
            invariant
                j <= r@.len(),
                forall|k: int| j <= k < r@.len() ==> r@[k].port > x.port,
            decreases j,
        {
            j = j - 1;
        }
        let ghost before = port_views(r@);
        proof {
            assert forall|k: int| j <= k < before.len() implies before[k].port > x@.port by {}
            assert forall|k: int| 0 <= k < j implies before[k].port <= x@.port by {
                if j > 0 {
                    assert(before[j - 1].port <= x@.port);
                }
            }
            assert forall|port: u16|
                with_port(before.insert(j as int, x@), port) == with_port(
                    port_views(v@).take(i + 1),
                    port,
                ) by {
                lemma_with_port_insert(before, j as int, x@, port);
                assert(port_views(v@).take(i + 1) =~= port_views(v@).take(i as int).push(x@));
                lemma_with_port_push(port_views(v@).take(i as int), x@, port);
            }
        }
        r.insert(j, x);
        assert(port_views(r@) =~= before.insert(j as int, x@));
    }
    assert(port_views(v@).take(v.len() as int) =~= port_views(v@));
    proof {
        assert forall|k: int| 0 <= k < r@.len() implies port_views(v@).contains(
            #[trigger] port_views(r@)[k],
        ) by {
            lemma_member_by_port(port_views(r@), port_views(v@), k);
        }
    }
    r
}

/// Port scanner: joins the platform's listening ports with their
/// processes, Docker containers and detected frameworks.
pub struct Scanner<P: Platform> {
    platform: P,
    pub framework_detector: FrameworkDetector,
    docker_client: DockerClient,
    calls: Ghost<Seq<PlatformCall>>,
}

impl<P: Platform> Scanner<P> {
    /// The containers the scanner knows of, by host port.
    pub closed spec fn containers(&self) -> Map<u16, (Seq<char>, Seq<char>)> {
        self.docker_client@
    }

    /// The answers the scanner's framework detector has cached.
    pub closed spec fn detector(&self) -> Seq<(Seq<char>, Option<Seq<char>>)> {
        self.framework_detector@
    }

    /// The platform the scanner works on.
    pub closed spec fn platform_spec(&self) -> P {
        self.platform
    }

    /// The questions about files the scanner's detector has put to the
    /// platform, with the answers, in order.
    pub closed spec fn probes(&self) -> Seq<FileProbe> {
        self.framework_detector.probes()
    }

    /// The questions the scanner has put to its platform, with the answers,
    /// in order.
    pub closed spec fn calls(&self) -> Seq<PlatformCall> {
        self.calls@
    }

    /// A scanner over `platform` that knows of no Docker container.
    pub fn new(platform: P) -> (s: Self)
        ensures
            s.containers() == Map::<u16, (Seq<char>, Seq<char>)>::empty(),
            s.detector().len() == 0,
            s.platform_spec() == platform,
            s.calls().len() == 0,
    {
        Scanner {
            platform,
            framework_detector: FrameworkDetector::new(),
            docker_client: DockerClient::empty(),
            calls: Ghost(Seq::empty()),
        }
    }

    /// A scanner over `platform` with the containers Docker listed.
    pub fn with_docker_client(platform: P, docker_client: DockerClient) -> (s: Self)
        ensures
            s.containers() == docker_client@,
            s.detector().len() == 0,
            s.platform_spec() == platform,
            s.calls().len() == 0,
    {
        Scanner {
            platform,
            framework_detector: FrameworkDetector::new(),
            docker_client,
            calls: Ghost(Seq::empty()),
        }
    }

    /// The platform the scanner works on.
    pub fn platform(&self) -> (r: &P)
        ensures
            *r == self.platform_spec(),
    {
        &self.platform
    }

    /// The entry for one listening port, or `None` when its process is a
    /// system process that is left out.
    fn port_entry(&mut self, raw: RawPortInfo, info: &ProcessInfo, show_all: bool) -> (r: Option<
        PortInfo,
    >)
        ensures
            final(self).containers() == old(self).containers(),
            final(self).calls() == old(self).calls(),
            final(self).platform_spec() == old(self).platform_spec(),
            r is None ==> !show_all && spec_is_system_process(info.name@),
            r matches Some(p) ==> describes(p@, raw, info@, show_all, old(self).containers()),
    {
        if !show_all && is_system_process(info.name.as_str()) {
            return None;
        }
        let process_name = extract_command_description(info.command.as_str(), info.name.as_str());
        let (framework, project_name) = match self.docker_client.get_container_info(raw.port) {
            Some(container) => {
                let framework = DockerClient::detect_framework_from_image(container.image.as_str());
                (framework, Some(container.name.clone()))
            },
            None => {
                let wd = match &info.working_dir {
                    Some(d) => Some(d.as_str()),
                    None => None,
                };
                let framework = self.framework_detector.detect(
                    &self.platform,
                    info.command.as_str(),
                    wd,
                );
                proof {
                    let c = spec_command_framework(info.command@);
                    if c is None && wd is Some {
                        assert(opt_str_view(wd) == opt_view(info.working_dir));
                    }
                }
                (framework, project_name_of(&info.working_dir))
            },
        };
        Some(
            PortInfo {
                port: raw.port,
                pid: raw.pid,
                process_name,
                status: info.status,
                framework,
                project_name,
            },
        )
    }

    /// The entries for listening ports, given what the platform said of
    /// each port's process (`None` where it could not be read): one entry,
    /// in order, for each port whose process was read and is kept (all of
    /// them with `show_all`, else those that are not system processes).
    pub fn scan_from(
        &mut self,
        raw_ports: &Vec<RawPortInfo>,
        infos: &Vec<Option<ProcessInfo>>,
        show_all: bool,
    ) -> (r: Vec<PortInfo>)
        requires
            raw_ports@.len() == infos@.len(),
        ensures
            final(self).containers() == old(self).containers(),
            final(self).calls() == old(self).calls(),
            final(self).platform_spec() == old(self).platform_spec(),
            r@.len() == kept_pairs(raw_ports@, info_views(infos@), show_all).len(),
            forall|k: int|
                0 <= k < r@.len() ==> {
                    let pair = kept_pairs(raw_ports@, info_views(infos@), show_all)[k];
                    describes(
                        #[trigger] port_views(r@)[k],
                        pair.0,
                        pair.1,
                        show_all,
                        old(self).containers(),
                    )
                },
    {
        let ghost containers = self.containers();
        let ghost calls = self.calls();
        let mut ports: Vec<PortInfo> = Vec::new();
        let mut i: usize = 0;
        while i < raw_ports.len()
            invariant
                i <= raw_ports@.len(),
                raw_ports@.len() == infos@.len(),
                self.containers() == containers,
                self.calls() == calls,
                self.platform_spec() == old(self).platform_spec(),
                ports@.len() == kept_pairs(
                    raw_ports@.take(i as int),
                    info_views(infos@).take(i as int),
                    show_all,
                ).len(),
                forall|k: int|
                    0 <= k < ports@.len() ==> {
                        let pair = kept_pairs(
                            raw_ports@.take(i as int),
                            info_views(infos@).take(i as int),
                            show_all,
                        )[k];
                        describes(#[trigger] port_views(ports@)[k], pair.0, pair.1, show_all, containers)
                    },
            decreases raw_ports@.len() - i,
        {
            let raw = raw_ports[i];
            let ghost rp = raw_ports@.take(i as int);
            let ghost ip = info_views(infos@).take(i as int);
            let ghost before = ports@;
            let ghost kept_before = kept_pairs(rp, ip, show_all);
            proof {
                assert(raw_ports@.take(i + 1).drop_last() =~= rp);
                assert(info_views(infos@).take(i + 1).drop_last() =~= ip);
                assert(raw_ports@.take(i + 1).last() == raw);
                assert(info_views(infos@).take(i + 1).last() == info_view(infos@[i as int]));
            }
            match &infos[i] {
                Some(info) => {
                    match self.port_entry(raw, info, show_all) {
                        Some(p) => {
                            ports.push(p);
                            assert(port_views(ports@) =~= port_views(before).push(p@));
                        },
                        None => {},
                    }
                },
                None => {},
            }
            i = i + 1;
        }
        assert(raw_ports@.take(i as int) =~= raw_ports@);
        assert(info_views(infos@).take(i as int) =~= info_views(infos@));
        ports
    }

    /// Scan for all listening ports, sorted by port (entries of one port
    /// keep their order); system processes are left out unless `show_all`,
    /// and ports whose process cannot be read are skipped. The scan asks the
    /// platform for the listening ports, then for the process of each
    /// port's PID; it fails only when the ports cannot be listed.
    pub fn scan(&mut self, show_all: bool) -> (r: Result<Vec<PortInfo>>)
        ensures
            final(self).containers() == old(self).containers(),
            final(self).platform_spec() == old(self).platform_spec(),
            match r {
                Ok(ports) => scanned(
                    old(self).calls(),
                    final(self).calls(),
                    port_views(ports@),
                    show_all,
                    old(self).containers(),
                ),
                Err(e) => final(self).calls() == old(self).calls().push(
                    PlatformCall::Listening(Err(e)),
                ),
            },
    {
        let ghost before = self.calls();
        let raw_ports = self.listening_ports()?;
        let mut infos: Vec<Option<ProcessInfo>> = Vec::new();
        let mut i: usize = 0;
        while i < raw_ports.len()
            invariant
                i <= raw_ports@.len(),
                infos@.len() == i,
                self.containers() == old(self).containers(),
                self.platform_spec() == old(self).platform_spec(),
                self.calls() == before.push(PlatformCall::Listening(Ok(raw_ports@))) + Seq::new(
                    i as nat,
                    |j: int| PlatformCall::Process(raw_ports@[j].pid, info_views(infos@)[j]),
                ),
            decreases raw_ports@.len() - i,
        {
            let info = match self.get_process_info_by_pid(raw_ports[i].pid) {
                Ok(info) => Some(info),
                Err(_) => None,
            };
            infos.push(info);
            i = i + 1;
            assert(self.calls() =~= before.push(PlatformCall::Listening(Ok(raw_ports@))) + Seq::new(
                i as nat,
                |j: int| PlatformCall::Process(raw_ports@[j].pid, info_views(infos@)[j]),
            ));
        }
        assert(scan_calls(raw_ports@, info_views(infos@)) =~= seq![
            PlatformCall::Listening(Ok(raw_ports@)),
        ] + Seq::new(
            i as nat,
            |j: int| PlatformCall::Process(raw_ports@[j].pid, info_views(infos@)[j]),
        ));
        assert(self.calls() =~= before + scan_calls(raw_ports@, info_views(infos@)));
        let ports = self.scan_from(&raw_ports, &infos, show_all);
        let sorted = sort_by_port(&ports);
        assert(is_scan_of(
            port_views(ports@),
            raw_ports@,
            info_views(infos@),
            show_all,
            old(self).containers(),
        ));
        assert(is_scan_result_of(
            port_views(sorted@),
            raw_ports@,
            info_views(infos@),
            show_all,
            old(self).containers(),
        ));
        proof {
            reveal(scanned);
        }
        Ok(sorted)
    }

    /// The listening ports, as the platform lists them.
    fn listening_ports(&mut self) -> (r: Result<Vec<RawPortInfo>>)
        ensures
            final(self).containers() == old(self).containers(),
            final(self).platform_spec() == old(self).platform_spec(),
            final(self).calls() == old(self).calls().push(PlatformCall::Listening(listing_answer(r))),
    {
        let r = self.platform.get_listening_ports();
        let ghost answer = listing_answer(r);
        self.calls = Ghost(self.calls@.push(PlatformCall::Listening(answer)));
        r
    }

    /// Get detailed information for a specific port: the first entry for
    /// it in a scan that includes system processes, or `PortNotFound` when
    /// the scan has none (the platform's error when it cannot list ports).
    pub fn get_port_details(&mut self, port: u16) -> (r: Result<PortInfo>)
        ensures
            final(self).containers() == old(self).containers(),
            final(self).platform_spec() == old(self).platform_spec(),
            port_lookup(
                old(self).calls(),
                final(self).calls(),
                port,
                old(self).containers(),
                match r {
                    Ok(p) => Some(p@),
                    Err(_) => None,
                },
            ),
            r matches Err(e) ==> final(self).calls() == old(self).calls().push(
                PlatformCall::Listening(Err(e)),
            ) || (e matches PortlyError::PortNotFound { port: q, suggestion } && q == port
                && opt_view(suggestion) == Some(port_not_found_suggestion())),
    {
        let ports = match self.scan(true) {
            Ok(ports) => ports,
            Err(e) => {
                assert(self.calls().drop_last() =~= old(self).calls());
                assert(listing_failed(old(self).calls(), self.calls()));
                return Err(e);
            },
        };
        let r = find_port(&ports, port);
        proof {
            let v = port_views(ports@);
            if r is Ok {
                let i = choose|i: int|
                    0 <= i < ports@.len() && r->Ok_0@ == ports@[i]@ && ports@[i].port == port
                        && forall|j: int| 0 <= j < i ==> ports@[j].port != port;
                assert(v[i] == ports@[i]@);
                assert(v[i].port == port);
                let k = choose|k: int|
                    0 <= k < v.len() && v[k].port == port && forall|j: int|
                        0 <= j < k ==> v[j].port != port;
                if k < i {
                    assert(ports@[k]@ == v[k]);
                } else if i < k {
                    assert(v[i].port == port);
                }
                assert(k == i);
                assert(first_for_port(v, port) == Some(r->Ok_0@));
            } else {
                assert forall|i: int| 0 <= i < v.len() implies v[i].port != port by {
                    assert(v[i] == ports@[i]@);
                }
                assert(first_for_port(v, port) is None);
            }
        }
        r
    }

    /// Get process information by PID.
    pub fn get_process_info_by_pid(&mut self, pid: u32) -> (r: Result<ProcessInfo>)
        ensures
            final(self).containers() == old(self).containers(),
            final(self).detector() == old(self).detector(),
            final(self).platform_spec() == old(self).platform_spec(),
            final(self).calls() == old(self).calls().push(
                PlatformCall::Process(pid, info_answer(r)),
            ),
    {
        let r = self.platform.get_process_info(pid);
        let ghost answer = info_answer(r);
        self.calls = Ghost(self.calls@.push(PlatformCall::Process(pid, answer)));
        r
    }

    /// Get the process tree (ancestors) of a PID.
    pub fn get_process_tree(&mut self, pid: u32) -> (r: Result<Vec<ProcessNode>>)
        ensures
            final(self).containers() == old(self).containers(),
            final(self).detector() == old(self).detector(),
            final(self).platform_spec() == old(self).platform_spec(),
            final(self).calls() == old(self).calls().push(
                PlatformCall::Tree(pid, tree_answer(r)),
            ),
    {
        let r = self.platform.get_process_tree(pid);
        let ghost answer = tree_answer(r);
        self.calls = Ghost(self.calls@.push(PlatformCall::Tree(pid, answer)));
        r
    }

    /// Kill a process by PID, forcefully when `force`.
    pub fn kill_process(&mut self, pid: u32, force: bool) -> (r: Result<()>)
        ensures
            final(self).containers() == old(self).containers(),
            final(self).detector() == old(self).detector(),
            final(self).calls() == old(self).calls().push(PlatformCall::Kill(pid, force, r is Ok)),
    {
        let r = self.platform.kill_process(pid, force);
        self.calls = Ghost(self.calls@.push(PlatformCall::Kill(pid, force, r is Ok)));
        r
    }

    /// All running processes.
    pub fn get_all_processes(&mut self) -> (r: Result<Vec<ProcessInfo>>)
        ensures
            final(self).containers() == old(self).containers(),
            final(self).detector() == old(self).detector(),
            final(self).platform_spec() == old(self).platform_spec(),
            final(self).calls() == old(self).calls().push(
                PlatformCall::AllProcesses(all_answer(r)),
            ),
    {
        let r = self.platform.get_all_processes();
        let ghost answer = all_answer(r);
        self.calls = Ghost(self.calls@.push(PlatformCall::AllProcesses(answer)));
        r
    }

    /// Detect the framework of a process through the scanner's detector.
    pub fn detect_framework(&mut self, command: &str, working_dir: Option<&str>) -> (r: Option<
        String,
    >)
        ensures
            final(self).containers() == old(self).containers(),
            final(self).calls() == old(self).calls(),
            detect_step(
                old(self).detector(),
                final(self).detector(),
                command@,
                opt_str_view(working_dir),
                opt_view(r),
            ),
            detect_probes(
                old(self).detector(),
                old(self).probes(),
                final(self).probes(),
                command@,
                opt_str_view(working_dir),
                opt_view(r),
            ),
            opt_view(r) matches Some(f) ==> spec_command_framework(command@) == Some(f)
                || is_directory_framework(f),
    {
        self.framework_detector.detect(&self.platform, command, working_dir)
    }
}

/// The first entry for `port`, or `PortNotFound` with its suggestion when
/// there is none.
pub fn find_port(ports: &Vec<PortInfo>, port: u16) -> (r: Result<PortInfo>)
    ensures
        match r {
            Ok(p) => exists|i: int|
                0 <= i < ports@.len() && p@ == ports@[i]@ && ports@[i].port == port && forall|j: int|
                    0 <= j < i ==> ports@[j].port != port,
            Err(e) => (forall|i: int| 0 <= i < ports@.len() ==> ports@[i].port != port) && (e matches PortlyError::PortNotFound {
                port: q,
                suggestion,
            } && q == port && opt_view(suggestion) == Some(port_not_found_suggestion())),
        },
{
    for i in 0..ports.len()
        invariant
            forall|j: int| 0 <= j < i ==> ports@[j].port != port,
    {
        if ports[i].port == port {
            return Ok(ports[i].copy());
        }
    }
    Err(
        PortlyError::PortNotFound {
            port,
            suggestion: Some(
                owned(
                    "• Run 'portly list' to see all listening ports\n• Check if the process is still running\n• Try 'portly ps' to see all dev processes",
                ),
            ),
        },
    )
}

/// The suggestion given when no process listens on a port.
pub open spec fn port_not_found_suggestion() -> Seq<char> {
    "• Run 'portly list' to see all listening ports\n• Check if the process is still running\n• Try 'portly ps' to see all dev processes"@
}

} // verus!

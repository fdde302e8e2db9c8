//! Properties of the library as a whole, proved from the specifications
//! that the functions' contracts use.
use vstd::prelude::*;

use crate::commands::watch::difference;
use crate::display::spec_truncation_length;
use crate::docker::spec_image_framework;
use crate::details::{field_line, spec_details_lines};
use crate::framework::{
    FileProbe, cache_lookup, command_rules, detect_probes, detect_step, is_directory_framework, is_marker_framework, spec_command_framework,
    spec_docker_framework, spec_package_text_framework,
};
use crate::platform::{node_views, recorded_process, recorded_tree};
use crate::process::{PortInfoView, ProcessInfo, ProcessInfoView, ProcessNode, ProcessNodeView};
use crate::scanner::{first_non_flag, spec_command_description, spec_is_system_process};
use crate::text::{
    ascii_lower, has_substring, is_ascii, spec_file_name, spec_join_space, spec_lowercase, spec_words,
};
use crate::typo::{command_name, is_suggested, lemma_lev_identity};

verus! {

// ---------------------------------------------------------------------------
// Framework detection
// ---------------------------------------------------------------------------

/// Detection without a working directory depends on the command alone: two
/// detectors, whatever each has cached, give the same answer for the same
/// command, and neither changes its cache.
pub proof fn lemma_detection_is_consistent(
    before1: Seq<(Seq<char>, Option<Seq<char>>)>,
    after1: Seq<(Seq<char>, Option<Seq<char>>)>,
    before2: Seq<(Seq<char>, Option<Seq<char>>)>,
    after2: Seq<(Seq<char>, Option<Seq<char>>)>,
    command: Seq<char>,
    r1: Option<Seq<char>>,
    r2: Option<Seq<char>>,
)
    requires
        detect_step(before1, after1, command, None, r1),
        detect_step(before2, after2, command, None, r2),
    ensures
        r1 == r2,
        r1 == spec_command_framework(command),
        after1 == before1,
        after2 == before2,
{
}

/// Matching ignores case, for command lines in ASCII (where lower-casing
/// is ASCII lower-casing): the lower-cased command is ASCII too, and the
/// framework rules give it the same answer as the command itself.
pub proof fn lemma_detection_ignores_case(command: Seq<char>)
    requires
        is_ascii(command),
    ensures
        is_ascii(ascii_lower(command)),
        command_rules(ascii_lower(ascii_lower(command))) == command_rules(ascii_lower(command)),
{
    let l = ascii_lower(command);
    assert forall|i: int| 0 <= i < l.len() implies (#[trigger] l[i]) < '\u{80}' by {
        assert(command[i] < '\u{80}');
    }
    assert(ascii_lower(l) =~= l);
}

/// Asking a detector twice about the same command and working directory
/// gives the same answer, and the second question changes nothing and asks
/// the platform nothing: a directory's files are read at most once.
pub proof fn lemma_cache_is_consistent(
    s0: Seq<(Seq<char>, Option<Seq<char>>)>,
    s1: Seq<(Seq<char>, Option<Seq<char>>)>,
    s2: Seq<(Seq<char>, Option<Seq<char>>)>,
    p1: Seq<FileProbe>,
    p2: Seq<FileProbe>,
    command: Seq<char>,
    working_dir: Option<Seq<char>>,
    r1: Option<Seq<char>>,
    r2: Option<Seq<char>>,
)
    requires
        detect_step(s0, s1, command, working_dir, r1),
        detect_step(s1, s2, command, working_dir, r2),
        detect_probes(s1, p1, p2, command, working_dir, r2),
    ensures
        r1 == r2,
        s2 == s1,
        p2 == p1,
{
    if spec_command_framework(command) is None {
        if let Some(d) = working_dir {
            if cache_lookup(s0, d) is None {
                assert(s1 == s0.push((d, r1)));
                assert(s1.last() == (d, r1));
                assert(cache_lookup(s1, d) == Some(r1));
            }
        }
    }
}

/// Every framework a command line names has a non-empty name.
pub proof fn lemma_command_framework_nonempty(command: Seq<char>)
    ensures
        spec_command_framework(command) matches Some(f) ==> f.len() > 0,
        spec_docker_framework(command).len() > 0,
{
    reveal_strlit("Next.js");
    reveal_strlit("Vite");
    reveal_strlit("Webpack");
    reveal_strlit("Parcel");
    reveal_strlit("Nuxt");
    reveal_strlit("Gatsby");
    reveal_strlit("Django");
    reveal_strlit("Flask");
    reveal_strlit("FastAPI");
    reveal_strlit("Rust");
    reveal_strlit("Trunk");
    reveal_strlit("Go");
    reveal_strlit("Rails");
    reveal_strlit("Ruby");
    reveal_strlit("Laravel");
    reveal_strlit("Symfony");
    reveal_strlit(".NET");
    reveal_strlit("Spring");
    reveal_strlit("PostgreSQL");
    reveal_strlit("Redis");
    reveal_strlit("nginx");
    reveal_strlit("MongoDB");
    reveal_strlit("MySQL");
    reveal_strlit("RabbitMQ");
    reveal_strlit("Docker");
}

/// Every framework that detection from a project directory reports has a
/// non-empty name.
pub proof fn lemma_directory_framework_nonempty(f: Seq<char>)
    requires
        is_directory_framework(f),
    ensures
        f.len() > 0,
{
    reveal_strlit("Rust");
    reveal_strlit("Go");
    reveal_strlit("Django");
    reveal_strlit("Python");
    reveal_strlit("Ruby");
    reveal_strlit("PHP");
    reveal_strlit("Next.js");
    reveal_strlit("Vite");
    reveal_strlit("Angular");
    reveal_strlit("Vue");
    reveal_strlit("React");
    reveal_strlit("Express");
    reveal_strlit("Nuxt");
    reveal_strlit("Gatsby");
    reveal_strlit("Node.js");
    if !is_marker_framework(f) {
        let content = choose|content: Seq<char>| spec_package_text_framework(content) == Some(f);
        assert(spec_package_text_framework(content) == Some(f));
    }
}

/// The framework of a Docker image always has a non-empty name.
pub proof fn lemma_image_framework_nonempty(image: Seq<char>)
    ensures
        spec_image_framework(image).len() > 0,
{
    reveal_strlit("PostgreSQL");
    reveal_strlit("Redis");
    reveal_strlit("nginx");
    reveal_strlit("MongoDB");
    reveal_strlit("MySQL");
    reveal_strlit("RabbitMQ");
    reveal_strlit("LocalStack");
    reveal_strlit("Elasticsearch");
    reveal_strlit("Docker");
}

// ---------------------------------------------------------------------------
// Command descriptions
// ---------------------------------------------------------------------------

proof fn lemma_words_are_nonempty(s: Seq<char>)
    ensures
        forall|i: int| 0 <= i < spec_words(s).len() ==> (#[trigger] spec_words(s)[i]).len() > 0,
    decreases s.len(),
{
    if s.len() > 0 {
        lemma_words_are_nonempty(s.drop_last());
        let w = spec_words(s.drop_last());
        let ws = spec_words(s);
        assert forall|i: int| 0 <= i < ws.len() implies (#[trigger] ws[i]).len() > 0 by {
            if i < w.len() - 1 || (i == w.len() - 1 && ws.len() > w.len()) {
                assert(ws[i] == w[i]);
            } else if i == w.len() - 1 {
                assert(w[i].len() > 0);
            }
        }
    }
}

proof fn lemma_join_nonempty(ws: Seq<Seq<char>>)
    requires
        ws.len() > 0,
        ws.last().len() > 0,
    ensures
        spec_join_space(ws).len() > 0,
{
}

/// A command is always described by a non-empty text when the process
/// has a non-empty name.
pub proof fn lemma_command_description_nonempty(cmd: Seq<char>, process_name: Seq<char>)
    requires
        process_name.len() > 0,
    ensures
        spec_command_description(cmd, process_name).len() > 0,
{
    reveal_strlit("docker");
    let parts = spec_words(cmd);
    let n = parts.len() as int;
    lemma_words_are_nonempty(cmd);
    if cmd.len() > 0 && n > 0 {
        let s = first_non_flag(parts, 1);
        if s < n && s >= 0 {
            assert(parts[s].len() > 0);
            match spec_file_name(parts[s]) {
                Some(f) => {},
                None => {},
            }
        }
        if n > 2 {
            assert(parts.subrange(2, n).last() == parts[n - 1]);
            lemma_join_nonempty(parts.subrange(2, n));
        }
        assert(parts.last() == parts[n - 1]);
        lemma_join_nonempty(parts);
        if n > 1 {
            assert(parts.subrange(0, 2).last() == parts[1]);
            lemma_join_nonempty(parts.subrange(0, 2));
        }
    }
}

// ---------------------------------------------------------------------------
// Typo suggestions
// ---------------------------------------------------------------------------

/// A command typed exactly is never suggested for itself.
pub proof fn lemma_exact_command_not_suggested(k: int)
    ensures
        !is_suggested(command_name(k), k),
{
    lemma_lev_identity(command_name(k));
}

// ---------------------------------------------------------------------------
// The in-memory platform
// ---------------------------------------------------------------------------

/// The process information recorded for a PID is what the platform gives
/// back for it.
pub proof fn lemma_recorded_process_read_back(
    entries: Seq<(u32, ProcessInfo)>,
    pid: u32,
    info: ProcessInfo,
)
    ensures
        recorded_process(entries.push((pid, info)), pid) == Some(info@),
{
    assert(entries.push((pid, info)).last() == (pid, info));
}

/// Recording a process for one PID leaves the other PIDs as they were.
pub proof fn lemma_recorded_process_independent(
    entries: Seq<(u32, ProcessInfo)>,
    pid: u32,
    info: ProcessInfo,
    other: u32,
)
    requires
        other != pid,
    ensures
        recorded_process(entries.push((pid, info)), other) == recorded_process(entries, other),
{
    assert(entries.push((pid, info)).drop_last() =~= entries);
    let i = crate::platform::last_index(entries, other);
    if i >= 0 {
        crate::platform::lemma_last_index_bounds(entries, other);
        assert(entries.push((pid, info))[i] == entries[i]);
    }
}

/// A process tree recorded for a PID is the one the platform gives back
/// for it.
pub proof fn lemma_recorded_tree_read_back(
    entries: Seq<(u32, Vec<ProcessNode>)>,
    pid: u32,
    tree: Vec<ProcessNode>,
)
    ensures
        recorded_tree(entries.push((pid, tree)), pid) == Some(node_views(tree@)),
{
    assert(entries.push((pid, tree)).last() == (pid, tree));
}

/// Recording a tree for one PID leaves the trees of the other PIDs as
/// they were.
pub proof fn lemma_recorded_tree_independent(
    entries: Seq<(u32, Vec<ProcessNode>)>,
    pid: u32,
    tree: Vec<ProcessNode>,
    other: u32,
)
    requires
        other != pid,
    ensures
        recorded_tree(entries.push((pid, tree)), other) == recorded_tree(entries, other),
{
    assert(entries.push((pid, tree)).drop_last() =~= entries);
    let i = crate::platform::last_index(entries, other);
    if i >= 0 {
        crate::platform::lemma_last_index_bounds(entries, other);
        assert(entries.push((pid, tree))[i] == entries[i]);
    }
}

// ---------------------------------------------------------------------------
// Watch mode and display
// ---------------------------------------------------------------------------

/// Between two scans, a port is new exactly when the second scan has it
/// and the first did not, and closed exactly when the first had it and the
/// second does not; no port is both.
pub proof fn lemma_watch_changes_partition(previous: Seq<u16>, current: Seq<u16>, port: u16)
    ensures
        difference(current, previous).contains(port) <==> current.contains(port)
            && !previous.contains(port),
        difference(previous, current).contains(port) <==> previous.contains(port)
            && !current.contains(port),
        !(difference(current, previous).contains(port) && difference(previous, current).contains(
            port,
        )),
{
    let p1 = |x: u16| !previous.contains(x);
    let p2 = |x: u16| !current.contains(x);
    if difference(current, previous).contains(port) {
        current.lemma_filter_contains_rev(p1, port);
        let k = choose|k: int| 0 <= k < current.filter(p1).len() && current.filter(p1)[k] == port;
        current.lemma_filter_pred(p1, k);
    }
    if current.contains(port) && !previous.contains(port) {
        let k = choose|k: int| 0 <= k < current.len() && current[k] == port;
        current.lemma_filter_contains(p1, k);
    }
    if difference(previous, current).contains(port) {
        previous.lemma_filter_contains_rev(p2, port);
        let k = choose|k: int| 0 <= k < previous.filter(p2).len() && previous.filter(p2)[k] == port;
        previous.lemma_filter_pred(p2, k);
    }
    if previous.contains(port) && !current.contains(port) {
        let k = choose|k: int| 0 <= k < previous.len() && previous[k] == port;
        previous.lemma_filter_contains(p2, k);
    }
}

/// Command descriptions get between 15 and 60 columns, and a wider
/// terminal never gets fewer.
pub proof fn lemma_truncation_length_scales(narrow: int, wide: int)
    requires
        narrow <= wide,
    ensures
        15 <= spec_truncation_length(narrow) <= 60,
        spec_truncation_length(narrow) <= spec_truncation_length(wide),
{
}

// ---------------------------------------------------------------------------
// What each detection rule recognises
// ---------------------------------------------------------------------------

/// A command line that runs uvicorn is a FastAPI server, unless a rule
/// that comes first (Next.js, Vite, Webpack, Parcel, Nuxt, Gatsby, Django,
/// Flask) matches its lower-cased text.
pub proof fn lemma_uvicorn_is_fastapi(command: Seq<char>)
    requires
        has_substring(spec_lowercase(command), "uvicorn"@),
        !has_substring(spec_lowercase(command), "next"@),
        !has_substring(spec_lowercase(command), "vite"@),
        !has_substring(spec_lowercase(command), "webpack"@),
        !has_substring(spec_lowercase(command), "parcel"@),
        !has_substring(spec_lowercase(command), "nuxt"@),
        !has_substring(spec_lowercase(command), "gatsby"@),
        !has_substring(spec_lowercase(command), "django"@),
        !has_substring(spec_lowercase(command), "manage.py"@),
        !has_substring(spec_lowercase(command), "flask"@),
    ensures
        spec_command_framework(command) == Some("FastAPI"@),
{
}

/// An image whose lower-cased name mentions MySQL runs MySQL, unless it
/// names an image the earlier rules recognise (PostgreSQL, Redis, nginx,
/// MongoDB).
pub proof fn lemma_mysql_image(image: Seq<char>)
    requires
        has_substring(spec_lowercase(image), "mysql"@),
        !has_substring(spec_lowercase(image), "postgres"@),
        !has_substring(spec_lowercase(image), "redis"@),
        !has_substring(spec_lowercase(image), "nginx"@),
        !has_substring(spec_lowercase(image), "mongo"@),
    ensures
        spec_image_framework(image) == "MySQL"@,
{
}

/// The words that mark a process as part of the system or as a desktop
/// application when its lower-cased name contains one of them.
pub open spec fn filtered_process_words() -> Seq<Seq<char>> {
    seq![
        "svchost"@, "csrss"@, "lsass"@, "services"@, "explorer"@, "dwm"@, "searchindexer"@,
        "taskhostw"@, "runtimebroker"@, "system"@, "registry"@, "smss"@, "wininit"@,
        "winlogon"@, "spotify"@, "chrome"@, "firefox"@, "slack"@, "discord"@, "code"@,
        "teams"@, "zoom"@, "skype"@, "msedge"@, "brave"@,
    ]
}

/// Every process whose lower-cased name contains one of the filtered words
/// is a system process (left out of listings unless all are asked for).
pub proof fn lemma_filtered_words_are_system(name: Seq<char>, i: int)
    requires
        0 <= i < filtered_process_words().len(),
        has_substring(spec_lowercase(name), filtered_process_words()[i]),
    ensures
        spec_is_system_process(name),
{
    let w = filtered_process_words();
    assert(w.len() == 25);
    if i == 0 { assert(w[0] == "svchost"@); }
    else if i == 1 { assert(w[1] == "csrss"@); }
    else if i == 2 { assert(w[2] == "lsass"@); }
    else if i == 3 { assert(w[3] == "services"@); }
    else if i == 4 { assert(w[4] == "explorer"@); }
    else if i == 5 { assert(w[5] == "dwm"@); }
    else if i == 6 { assert(w[6] == "searchindexer"@); }
    else if i == 7 { assert(w[7] == "taskhostw"@); }
    else if i == 8 { assert(w[8] == "runtimebroker"@); }
    else if i == 9 { assert(w[9] == "system"@); }
    else if i == 10 { assert(w[10] == "registry"@); }
    else if i == 11 { assert(w[11] == "smss"@); }
    else if i == 12 { assert(w[12] == "wininit"@); }
    else if i == 13 { assert(w[13] == "winlogon"@); }
    else if i == 14 { assert(w[14] == "spotify"@); }
    else if i == 15 { assert(w[15] == "chrome"@); }
    else if i == 16 { assert(w[16] == "firefox"@); }
    else if i == 17 { assert(w[17] == "slack"@); }
    else if i == 18 { assert(w[18] == "discord"@); }
    else if i == 19 { assert(w[19] == "code"@); }
    else if i == 20 { assert(w[20] == "teams"@); }
    else if i == 21 { assert(w[21] == "zoom"@); }
    else if i == 22 { assert(w[22] == "skype"@); }
    else if i == 23 { assert(w[23] == "msedge"@); }
    else { assert(w[24] == "brave"@); }
}

/// A port entry with a project name shows it in the details view, on a
/// "Project" line, whether or not the process's directory is known.
pub proof fn lemma_details_show_the_project(
    p: PortInfoView,
    info: ProcessInfoView,
    status_text: Seq<char>,
    framework_text: Option<Seq<char>>,
    now_secs: u64,
    now_nanos: u32,
    branch: Option<Seq<char>>,
    tree: Option<Seq<ProcessNodeView>>,
    project: Seq<char>,
)
    requires
        p.project_name == Some(project),
    ensures
        spec_details_lines(p, info, status_text, framework_text, now_secs, now_nanos, branch, tree).contains(
            field_line("Project"@, project),
        ),
{
    let lines = spec_details_lines(
        p,
        info,
        status_text,
        framework_text,
        now_secs,
        now_nanos,
        branch,
        tree,
    );
    let location = crate::details::location_lines(p, info, branch);
    let before = crate::details::header_lines(p.port) + crate::details::process_lines(
        info,
        status_text,
        framework_text,
        now_secs,
        now_nanos,
    );
    let dir_part: Seq<Seq<char>> = match info.working_dir {
        Some(d) => seq![field_line("Directory"@, d)] + match branch {
            Some(b) => seq![field_line("Branch"@, b)],
            None => seq![],
        },
        None => seq![],
    };
    let k: int = 3 + dir_part.len() as int;
    assert(location[k] == field_line("Project"@, project));
    assert(lines[before.len() + k] == location[k]);
    assert(lines.contains(field_line("Project"@, project)));
}

/// A Python command of more than two words is described by every word
/// after the second (the script's arguments), joined by single spaces.
pub proof fn lemma_python_description(cmd: Seq<char>, process_name: Seq<char>)
    requires
        spec_words(cmd).len() > 2,
        has_substring(spec_lowercase(spec_words(cmd)[0]), "python"@),
        !has_substring(spec_lowercase(spec_words(cmd)[0]), "node"@),
    ensures
        spec_command_description(cmd, process_name) == spec_join_space(spec_words(cmd).skip(2)),
{
    assert(spec_words(cmd).skip(2) =~= spec_words(cmd).subrange(2, spec_words(cmd).len() as int));
}

/// Only the filtered words make a system process: a system process's
/// lower-cased name contains one of them.
pub proof fn lemma_system_process_has_a_filtered_word(name: Seq<char>)
    requires
        spec_is_system_process(name),
    ensures
        exists|i: int|
            0 <= i < filtered_process_words().len() && has_substring(
                spec_lowercase(name),
                #[trigger] filtered_process_words()[i],
            ),
{
    assert(filtered_process_words()[0] == "svchost"@);
    assert(filtered_process_words()[1] == "csrss"@);
    assert(filtered_process_words()[2] == "lsass"@);
    assert(filtered_process_words()[3] == "services"@);
    assert(filtered_process_words()[4] == "explorer"@);
    assert(filtered_process_words()[5] == "dwm"@);
    assert(filtered_process_words()[6] == "searchindexer"@);
    assert(filtered_process_words()[7] == "taskhostw"@);
    assert(filtered_process_words()[8] == "runtimebroker"@);
    assert(filtered_process_words()[9] == "system"@);
    assert(filtered_process_words()[10] == "registry"@);
    assert(filtered_process_words()[11] == "smss"@);
    assert(filtered_process_words()[12] == "wininit"@);
    assert(filtered_process_words()[13] == "winlogon"@);
    assert(filtered_process_words()[14] == "spotify"@);
    assert(filtered_process_words()[15] == "chrome"@);
    assert(filtered_process_words()[16] == "firefox"@);
    assert(filtered_process_words()[17] == "slack"@);
    assert(filtered_process_words()[18] == "discord"@);
    assert(filtered_process_words()[19] == "code"@);
    assert(filtered_process_words()[20] == "teams"@);
    assert(filtered_process_words()[21] == "zoom"@);
    assert(filtered_process_words()[22] == "skype"@);
    assert(filtered_process_words()[23] == "msedge"@);
    assert(filtered_process_words()[24] == "brave"@);
}

/// The description of a command line whose first word is a Cargo command
/// (and not Node.js or Python) is the whole line, its words joined by
/// single spaces.
pub proof fn lemma_cargo_description(cmd: Seq<char>, process_name: Seq<char>)
    requires
        spec_words(cmd).len() > 0,
        has_substring(spec_lowercase(spec_words(cmd)[0]), "cargo"@),
        !has_substring(spec_lowercase(spec_words(cmd)[0]), "node"@),
        !has_substring(spec_lowercase(spec_words(cmd)[0]), "python"@),
    ensures
        spec_command_description(cmd, process_name) == spec_join_space(spec_words(cmd)),
{
}

/// The description of a Go command line (first word with "go", not Node.js,
/// Python or Cargo) of two words or more is its first two words.
pub proof fn lemma_go_description(cmd: Seq<char>, process_name: Seq<char>)
    requires
        spec_words(cmd).len() > 1,
        has_substring(spec_lowercase(spec_words(cmd)[0]), "go"@),
        !has_substring(spec_lowercase(spec_words(cmd)[0]), "node"@),
        !has_substring(spec_lowercase(spec_words(cmd)[0]), "python"@),
        !has_substring(spec_lowercase(spec_words(cmd)[0]), "cargo"@),
    ensures
        spec_command_description(cmd, process_name) == spec_join_space(
            seq![spec_words(cmd)[0], spec_words(cmd)[1]],
        ),
{
    assert(spec_words(cmd).subrange(0, 2) =~= seq![spec_words(cmd)[0], spec_words(cmd)[1]]);
}

/// The description of a .NET command line (first word with "dotnet", not
/// Node.js, Python, Cargo or Go) of two words or more is its first two
/// words.
pub proof fn lemma_dotnet_description(cmd: Seq<char>, process_name: Seq<char>)
    requires
        spec_words(cmd).len() > 1,
        has_substring(spec_lowercase(spec_words(cmd)[0]), "dotnet"@),
        !has_substring(spec_lowercase(spec_words(cmd)[0]), "node"@),
        !has_substring(spec_lowercase(spec_words(cmd)[0]), "python"@),
        !has_substring(spec_lowercase(spec_words(cmd)[0]), "cargo"@),
        !has_substring(spec_lowercase(spec_words(cmd)[0]), "go"@),
    ensures
        spec_command_description(cmd, process_name) == spec_join_space(
            seq![spec_words(cmd)[0], spec_words(cmd)[1]],
        ),
{
    assert(spec_words(cmd).subrange(0, 2) =~= seq![spec_words(cmd)[0], spec_words(cmd)[1]]);
}

/// A Docker command line (first word with "docker", and none of the other
/// runtimes) is described as "docker".
pub proof fn lemma_docker_description(cmd: Seq<char>, process_name: Seq<char>)
    requires
        spec_words(cmd).len() > 0,
        has_substring(spec_lowercase(spec_words(cmd)[0]), "docker"@),
        !has_substring(spec_lowercase(spec_words(cmd)[0]), "node"@),
        !has_substring(spec_lowercase(spec_words(cmd)[0]), "python"@),
        !has_substring(spec_lowercase(spec_words(cmd)[0]), "cargo"@),
        !has_substring(spec_lowercase(spec_words(cmd)[0]), "go"@),
        !has_substring(spec_lowercase(spec_words(cmd)[0]), "dotnet"@),
    ensures
        spec_command_description(cmd, process_name) == "docker"@,
{
}

/// A command line with no words is described by the process name.
pub proof fn lemma_empty_command_description(cmd: Seq<char>, process_name: Seq<char>)
    requires
        spec_words(cmd).len() == 0,
    ensures
        spec_command_description(cmd, process_name) == process_name,
{
}

/// A Node.js command line is described by its script's file name (the
/// first word after `node` that is not a flag) followed by every word after
/// the script, joined by single spaces.
pub proof fn lemma_node_description(cmd: Seq<char>, process_name: Seq<char>, s: int)
    requires
        spec_words(cmd).len() > 1,
        has_substring(spec_lowercase(spec_words(cmd)[0]), "node"@),
        s == first_non_flag(spec_words(cmd), 1),
        s < spec_words(cmd).len(),
    ensures
        spec_command_description(cmd, process_name) == {
            let script = spec_words(cmd)[s];
            let name = match spec_file_name(script) {
                Some(f) => f,
                None => script,
            };
            if s + 1 < spec_words(cmd).len() {
                name + seq![' '] + spec_join_space(spec_words(cmd).skip(s + 1))
            } else {
                name
            }
        },
{
    assert(spec_words(cmd).skip(s + 1) =~= spec_words(cmd).subrange(s + 1, spec_words(cmd).len() as int));
}

/// The details view shows the process's directory on a "Directory" line
/// whenever it is known.
pub proof fn lemma_details_show_the_directory(
    p: PortInfoView,
    info: ProcessInfoView,
    status_text: Seq<char>,
    framework_text: Option<Seq<char>>,
    now_secs: u64,
    now_nanos: u32,
    branch: Option<Seq<char>>,
    tree: Option<Seq<ProcessNodeView>>,
    dir: Seq<char>,
)
    requires
        info.working_dir == Some(dir),
    ensures
        spec_details_lines(p, info, status_text, framework_text, now_secs, now_nanos, branch, tree).contains(
            field_line("Directory"@, dir),
        ),
{
    let lines = spec_details_lines(p, info, status_text, framework_text, now_secs, now_nanos, branch, tree);
    let location = crate::details::location_lines(p, info, branch);
    let before = crate::details::header_lines(p.port) + crate::details::process_lines(
        info,
        status_text,
        framework_text,
        now_secs,
        now_nanos,
    );
    assert(location[3] == field_line("Directory"@, dir));
    assert(lines[before.len() + 3int] == location[3]);
    assert(lines.contains(field_line("Directory"@, dir)));
}

/// The details view shows a known command line in full, on a line of its
/// own.
pub proof fn lemma_details_show_the_command(
    p: PortInfoView,
    info: ProcessInfoView,
    status_text: Seq<char>,
    framework_text: Option<Seq<char>>,
    now_secs: u64,
    now_nanos: u32,
    branch: Option<Seq<char>>,
    tree: Option<Seq<ProcessNodeView>>,
)
    requires
        info.command.len() > 0,
    ensures
        spec_details_lines(p, info, status_text, framework_text, now_secs, now_nanos, branch, tree).contains(
            info.command,
        ),
{
    let lines = spec_details_lines(p, info, status_text, framework_text, now_secs, now_nanos, branch, tree);
    let before = crate::details::header_lines(p.port) + crate::details::process_lines(
        info,
        status_text,
        framework_text,
        now_secs,
        now_nanos,
    ) + crate::details::location_lines(p, info, branch);
    let cl = crate::details::command_lines(info.command);
    assert(cl[3] == info.command);
    assert(lines[before.len() + 3int] == cl[3]);
    assert(lines.contains(info.command));
}

// ---------------------------------------------------------------------------
// Detection rules, in the order they are tried
// ---------------------------------------------------------------------------

/// The words a command line is matched against, in the order they are tried.
pub open spec fn command_rule_words() -> Seq<Seq<char>> {
    seq![
        "next"@,
        "vite"@,
        "webpack"@,
        "parcel"@,
        "nuxt"@,
        "gatsby"@,
        "django"@,
        "manage.py"@,
        "flask"@,
        "fastapi"@,
        "uvicorn"@,
        "cargo run"@,
        "cargo-watch"@,
        "trunk"@,
        "go run"@,
        "air"@,
        "rails"@,
        "puma"@,
        "unicorn"@,
        "laravel"@,
        "artisan"@,
        "symfony"@,
        "dotnet"@,
        "spring"@,
    ]
}

/// What each of `command_rule_words` names.
pub open spec fn command_rule_names() -> Seq<Seq<char>> {
    seq![
        "Next.js"@,
        "Vite"@,
        "Webpack"@,
        "Parcel"@,
        "Nuxt"@,
        "Gatsby"@,
        "Django"@,
        "Django"@,
        "Flask"@,
        "FastAPI"@,
        "FastAPI"@,
        "Rust"@,
        "Rust"@,
        "Trunk"@,
        "Go"@,
        "Go"@,
        "Rails"@,
        "Ruby"@,
        "Ruby"@,
        "Laravel"@,
        "Laravel"@,
        "Symfony"@,
        ".NET"@,
        "Spring"@,
    ]
}

/// A command line names the framework of the first rule word its lower-cased
/// text contains: with the `i`-th word and none before it, the `i`-th
/// framework.
pub proof fn lemma_command_rule_order(command: Seq<char>, i: int)
    requires
        0 <= i < command_rule_words().len(),
        has_substring(spec_lowercase(command), command_rule_words()[i]),
        forall|j: int|
            0 <= j < i ==> !has_substring(spec_lowercase(command), #[trigger] command_rule_words()[j]),
    ensures
        spec_command_framework(command) == Some(command_rule_names()[i]),
{
    assert(command_rule_words()[0] == "next"@ && command_rule_names()[0] == "Next.js"@);
    assert(command_rule_words()[1] == "vite"@ && command_rule_names()[1] == "Vite"@);
    assert(command_rule_words()[2] == "webpack"@ && command_rule_names()[2] == "Webpack"@);
    assert(command_rule_words()[3] == "parcel"@ && command_rule_names()[3] == "Parcel"@);
    assert(command_rule_words()[4] == "nuxt"@ && command_rule_names()[4] == "Nuxt"@);
    assert(command_rule_words()[5] == "gatsby"@ && command_rule_names()[5] == "Gatsby"@);
    assert(command_rule_words()[6] == "django"@ && command_rule_names()[6] == "Django"@);
    assert(command_rule_words()[7] == "manage.py"@ && command_rule_names()[7] == "Django"@);
    assert(command_rule_words()[8] == "flask"@ && command_rule_names()[8] == "Flask"@);
    assert(command_rule_words()[9] == "fastapi"@ && command_rule_names()[9] == "FastAPI"@);
    assert(command_rule_words()[10] == "uvicorn"@ && command_rule_names()[10] == "FastAPI"@);
    assert(command_rule_words()[11] == "cargo run"@ && command_rule_names()[11] == "Rust"@);
    assert(command_rule_words()[12] == "cargo-watch"@ && command_rule_names()[12] == "Rust"@);
    assert(command_rule_words()[13] == "trunk"@ && command_rule_names()[13] == "Trunk"@);
    assert(command_rule_words()[14] == "go run"@ && command_rule_names()[14] == "Go"@);
    assert(command_rule_words()[15] == "air"@ && command_rule_names()[15] == "Go"@);
    assert(command_rule_words()[16] == "rails"@ && command_rule_names()[16] == "Rails"@);
    assert(command_rule_words()[17] == "puma"@ && command_rule_names()[17] == "Ruby"@);
    assert(command_rule_words()[18] == "unicorn"@ && command_rule_names()[18] == "Ruby"@);
    assert(command_rule_words()[19] == "laravel"@ && command_rule_names()[19] == "Laravel"@);
    assert(command_rule_words()[20] == "artisan"@ && command_rule_names()[20] == "Laravel"@);
    assert(command_rule_words()[21] == "symfony"@ && command_rule_names()[21] == "Symfony"@);
    assert(command_rule_words()[22] == "dotnet"@ && command_rule_names()[22] == ".NET"@);
    assert(command_rule_words()[23] == "spring"@ && command_rule_names()[23] == "Spring"@);
    if i == 0 {
    } else if i == 1 {
    } else if i == 2 {
    } else if i == 3 {
    } else if i == 4 {
    } else if i == 5 {
    } else if i == 6 {
    } else if i == 7 {
    } else if i == 8 {
    } else if i == 9 {
    } else if i == 10 {
    } else if i == 11 {
    } else if i == 12 {
    } else if i == 13 {
    } else if i == 14 {
    } else if i == 15 {
    } else if i == 16 {
    } else if i == 17 {
    } else if i == 18 {
    } else if i == 19 {
    } else if i == 20 {
    } else if i == 21 {
    } else if i == 22 {
    } else {
    }
}

/// A command line that contains no rule word and not "docker" names no
/// framework.
pub proof fn lemma_command_rule_none(command: Seq<char>)
    requires
        forall|j: int|
            0 <= j < command_rule_words().len() ==> !has_substring(spec_lowercase(command), #[trigger] command_rule_words()[j]),
        !has_substring(spec_lowercase(command), "docker"@),
    ensures
        spec_command_framework(command) is None,
{
    assert(command_rule_words()[0] == "next"@ && command_rule_names()[0] == "Next.js"@);
    assert(command_rule_words()[1] == "vite"@ && command_rule_names()[1] == "Vite"@);
    assert(command_rule_words()[2] == "webpack"@ && command_rule_names()[2] == "Webpack"@);
    assert(command_rule_words()[3] == "parcel"@ && command_rule_names()[3] == "Parcel"@);
    assert(command_rule_words()[4] == "nuxt"@ && command_rule_names()[4] == "Nuxt"@);
    assert(command_rule_words()[5] == "gatsby"@ && command_rule_names()[5] == "Gatsby"@);
    assert(command_rule_words()[6] == "django"@ && command_rule_names()[6] == "Django"@);
    assert(command_rule_words()[7] == "manage.py"@ && command_rule_names()[7] == "Django"@);
    assert(command_rule_words()[8] == "flask"@ && command_rule_names()[8] == "Flask"@);
    assert(command_rule_words()[9] == "fastapi"@ && command_rule_names()[9] == "FastAPI"@);
    assert(command_rule_words()[10] == "uvicorn"@ && command_rule_names()[10] == "FastAPI"@);
    assert(command_rule_words()[11] == "cargo run"@ && command_rule_names()[11] == "Rust"@);
    assert(command_rule_words()[12] == "cargo-watch"@ && command_rule_names()[12] == "Rust"@);
    assert(command_rule_words()[13] == "trunk"@ && command_rule_names()[13] == "Trunk"@);
    assert(command_rule_words()[14] == "go run"@ && command_rule_names()[14] == "Go"@);
    assert(command_rule_words()[15] == "air"@ && command_rule_names()[15] == "Go"@);
    assert(command_rule_words()[16] == "rails"@ && command_rule_names()[16] == "Rails"@);
    assert(command_rule_words()[17] == "puma"@ && command_rule_names()[17] == "Ruby"@);
    assert(command_rule_words()[18] == "unicorn"@ && command_rule_names()[18] == "Ruby"@);
    assert(command_rule_words()[19] == "laravel"@ && command_rule_names()[19] == "Laravel"@);
    assert(command_rule_words()[20] == "artisan"@ && command_rule_names()[20] == "Laravel"@);
    assert(command_rule_words()[21] == "symfony"@ && command_rule_names()[21] == "Symfony"@);
    assert(command_rule_words()[22] == "dotnet"@ && command_rule_names()[22] == ".NET"@);
    assert(command_rule_words()[23] == "spring"@ && command_rule_names()[23] == "Spring"@);
}

/// The words a Docker image name is matched against, in the order they are tried.
pub open spec fn image_rule_words() -> Seq<Seq<char>> {
    seq![
        "postgres"@,
        "redis"@,
        "nginx"@,
        "mongo"@,
        "mysql"@,
        "mariadb"@,
        "rabbitmq"@,
        "localstack"@,
        "elasticsearch"@,
    ]
}

/// What each of `image_rule_words` names.
pub open spec fn image_rule_names() -> Seq<Seq<char>> {
    seq![
        "PostgreSQL"@,
        "Redis"@,
        "nginx"@,
        "MongoDB"@,
        "MySQL"@,
        "MySQL"@,
        "RabbitMQ"@,
        "LocalStack"@,
        "Elasticsearch"@,
    ]
}

/// An image shows the service of the first rule word its lower-cased name
/// contains: with the `i`-th word and none before it, the `i`-th service.
pub proof fn lemma_image_rule_order(image: Seq<char>, i: int)
    requires
        0 <= i < image_rule_words().len(),
        has_substring(spec_lowercase(image), image_rule_words()[i]),
        forall|j: int|
            0 <= j < i ==> !has_substring(spec_lowercase(image), #[trigger] image_rule_words()[j]),
    ensures
        spec_image_framework(image) == image_rule_names()[i],
{
    assert(image_rule_words()[0] == "postgres"@ && image_rule_names()[0] == "PostgreSQL"@);
    assert(image_rule_words()[1] == "redis"@ && image_rule_names()[1] == "Redis"@);
    assert(image_rule_words()[2] == "nginx"@ && image_rule_names()[2] == "nginx"@);
    assert(image_rule_words()[3] == "mongo"@ && image_rule_names()[3] == "MongoDB"@);
    assert(image_rule_words()[4] == "mysql"@ && image_rule_names()[4] == "MySQL"@);
    assert(image_rule_words()[5] == "mariadb"@ && image_rule_names()[5] == "MySQL"@);
    assert(image_rule_words()[6] == "rabbitmq"@ && image_rule_names()[6] == "RabbitMQ"@);
    assert(image_rule_words()[7] == "localstack"@ && image_rule_names()[7] == "LocalStack"@);
    assert(image_rule_words()[8] == "elasticsearch"@ && image_rule_names()[8] == "Elasticsearch"@);
    if i == 0 {
    } else if i == 1 {
    } else if i == 2 {
    } else if i == 3 {
    } else if i == 4 {
    } else if i == 5 {
    } else if i == 6 {
    } else if i == 7 {
    } else {
    }
}

/// An image whose name contains no rule word is shown as plain Docker.
pub proof fn lemma_image_rule_none(image: Seq<char>)
    requires
        forall|j: int|
            0 <= j < image_rule_words().len() ==> !has_substring(spec_lowercase(image), #[trigger] image_rule_words()[j]),
    ensures
        spec_image_framework(image) == "Docker"@,
{
    assert(image_rule_words()[0] == "postgres"@ && image_rule_names()[0] == "PostgreSQL"@);
    assert(image_rule_words()[1] == "redis"@ && image_rule_names()[1] == "Redis"@);
    assert(image_rule_words()[2] == "nginx"@ && image_rule_names()[2] == "nginx"@);
    assert(image_rule_words()[3] == "mongo"@ && image_rule_names()[3] == "MongoDB"@);
    assert(image_rule_words()[4] == "mysql"@ && image_rule_names()[4] == "MySQL"@);
    assert(image_rule_words()[5] == "mariadb"@ && image_rule_names()[5] == "MySQL"@);
    assert(image_rule_words()[6] == "rabbitmq"@ && image_rule_names()[6] == "RabbitMQ"@);
    assert(image_rule_words()[7] == "localstack"@ && image_rule_names()[7] == "LocalStack"@);
    assert(image_rule_words()[8] == "elasticsearch"@ && image_rule_names()[8] == "Elasticsearch"@);
}

/// The words a Docker command line is matched against, in the order they are tried.
pub open spec fn docker_rule_words() -> Seq<Seq<char>> {
    seq![
        "postgres"@,
        "redis"@,
        "nginx"@,
        "mongo"@,
        "mysql"@,
        "rabbitmq"@,
    ]
}

/// What each of `docker_rule_words` names.
pub open spec fn docker_rule_names() -> Seq<Seq<char>> {
    seq![
        "PostgreSQL"@,
        "Redis"@,
        "nginx"@,
        "MongoDB"@,
        "MySQL"@,
        "RabbitMQ"@,
    ]
}

/// A Docker command line runs the service of the first rule word its
/// lower-cased text contains: with the `i`-th word and none before it, the
/// `i`-th service.
pub proof fn lemma_docker_rule_order(command: Seq<char>, i: int)
    requires
        0 <= i < docker_rule_words().len(),
        has_substring(spec_lowercase(command), docker_rule_words()[i]),
        forall|j: int|
            0 <= j < i ==> !has_substring(spec_lowercase(command), #[trigger] docker_rule_words()[j]),
    ensures
        spec_docker_framework(command) == docker_rule_names()[i],
{
    assert(docker_rule_words()[0] == "postgres"@ && docker_rule_names()[0] == "PostgreSQL"@);
    assert(docker_rule_words()[1] == "redis"@ && docker_rule_names()[1] == "Redis"@);
    assert(docker_rule_words()[2] == "nginx"@ && docker_rule_names()[2] == "nginx"@);
    assert(docker_rule_words()[3] == "mongo"@ && docker_rule_names()[3] == "MongoDB"@);
    assert(docker_rule_words()[4] == "mysql"@ && docker_rule_names()[4] == "MySQL"@);
    assert(docker_rule_words()[5] == "rabbitmq"@ && docker_rule_names()[5] == "RabbitMQ"@);
    if i == 0 {
    } else if i == 1 {
    } else if i == 2 {
    } else if i == 3 {
    } else if i == 4 {
    } else {
    }
}

/// A Docker command line that contains no rule word runs plain Docker.
pub proof fn lemma_docker_rule_none(command: Seq<char>)
    requires
        forall|j: int|
            0 <= j < docker_rule_words().len() ==> !has_substring(spec_lowercase(command), #[trigger] docker_rule_words()[j]),
    ensures
        spec_docker_framework(command) == "Docker"@,
{
    assert(docker_rule_words()[0] == "postgres"@ && docker_rule_names()[0] == "PostgreSQL"@);
    assert(docker_rule_words()[1] == "redis"@ && docker_rule_names()[1] == "Redis"@);
    assert(docker_rule_words()[2] == "nginx"@ && docker_rule_names()[2] == "nginx"@);
    assert(docker_rule_words()[3] == "mongo"@ && docker_rule_names()[3] == "MongoDB"@);
    assert(docker_rule_words()[4] == "mysql"@ && docker_rule_names()[4] == "MySQL"@);
    assert(docker_rule_words()[5] == "rabbitmq"@ && docker_rule_names()[5] == "RabbitMQ"@);
}

} // verus!

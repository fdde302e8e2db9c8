//! The detailed view of one port: its process, location, command line and
//! process tree, and the answer to the kill prompt.
use vstd::prelude::*;

use crate::colors::{FrameworkColor, paint, render_status, shown, status_shown};
use crate::config::string_views;
use crate::platform::{Platform, PlatformCall, node_views};
use crate::process::{PortInfo, PortInfoView, ProcessInfo, ProcessInfoView, ProcessNode, ProcessNodeView};
use crate::scanner::{Scanner, tree_answer};
use crate::text::{
    chars_of, concat2, decimal_chars, decimal_string, digit_char, extend_chars, extend_str, owned,
    spec_decimal, spec_lowercase, spec_trim, str_eq, string_of, to_lowercase, trim,
};

verus! {

// ---------------------------------------------------------------------------
// Memory
// ---------------------------------------------------------------------------

/// `n / d` rounded to the nearest integer, ties to the even neighbour.
pub open spec fn round_half_even_div(n: nat, d: nat) -> nat
    recommends
        d > 0,
{
    let q = n / d;
    let r = n % d;
    if 2 * r > d {
        q + 1
    } else if 2 * r < d {
        q
    } else if q % 2 == 0 {
        q
    } else {
        q + 1
    }
}

/// A count of tenths written with one decimal.
pub open spec fn tenths_text(t: nat) -> Seq<char> {
    spec_decimal(t / 10) + seq!['.', digit_char(t % 10)]
}

/// Memory in MB below 1024 MB and in GB from there on, with one decimal
/// (the exact quotient rounded to the nearest tenth, ties to even).
pub open spec fn spec_format_memory(kb: nat) -> Seq<char> {
    if kb >= 1048576 {
        tenths_text(round_half_even_div(kb * 10, 1048576)) + " GB"@
    } else {
        tenths_text(round_half_even_div(kb * 10, 1024)) + " MB"@
    }
}

fn rounded_tenths(kb: u64, unit: u64) -> (t: u64)
    requires
        unit == 1024 || unit == 1048576,
    ensures
        t == round_half_even_div(kb as nat * 10, unit as nat),
{
    let n: u128 = kb as u128 * 10;
    let q: u128;
    let r: u128;
    if unit == 1024 {
        q = n / 1024;
        r = n % 1024;
    } else {
        q = n / 1048576;
        r = n % 1048576;
    }
    let u = unit as u128;
    let t = if 2 * r > u {
        q + 1
    } else if 2 * r < u {
        q
    } else if q % 2 == 0 {
        q
    } else {
        q + 1
    };
    t as u64
}

/// Format memory in MB or GB.
pub fn format_memory(memory_kb: u64) -> (r: String)
    ensures
        r@ == spec_format_memory(memory_kb as nat),
{
    let big = memory_kb >= 1048576;
    let t = if big {
        rounded_tenths(memory_kb, 1048576)
    } else {
        rounded_tenths(memory_kb, 1024)
    };
    let mut v = decimal_chars(t / 10);
    v.push('.');
    let last = decimal_chars(t % 10);
    assert(last@ == seq![digit_char((t % 10) as nat)]);
    extend_chars(&mut v, &last);
    if big {
        extend_str(&mut v, " GB");
    } else {
        extend_str(&mut v, " MB");
    }
    assert(v@ =~= spec_format_memory(memory_kb as nat));
    string_of(&v)
}

// ---------------------------------------------------------------------------
// Status, framework and uptime
// ---------------------------------------------------------------------------

/// Format process status with colors.
pub fn format_status(status: crate::process::ProcessStatus, use_colors: bool) -> (r: String)
    ensures
        status_shown(r@, "●"@, status, use_colors),
{
    render_status("●", status, use_colors)
}

/// The colors of the detailed view, by exact framework name.
pub open spec fn spec_details_color(name: Seq<char>) -> FrameworkColor {
    if name == "Next.js"@ || name == "Nuxt"@ || name == "Gatsby"@ {
        FrameworkColor::Cyan
    } else if name == "Vite"@ || name == "Webpack"@ || name == "Parcel"@ {
        FrameworkColor::BrightMagenta
    } else if name == "React"@ || name == "Vue"@ || name == "Angular"@ {
        FrameworkColor::Blue
    } else if name == "Node.js"@ || name == "Express"@ {
        FrameworkColor::Green
    } else if name == "Django"@ || name == "Flask"@ || name == "FastAPI"@ {
        FrameworkColor::Yellow
    } else if name == "Rails"@ || name == "Ruby"@ {
        FrameworkColor::Red
    } else if name == "Rust"@ || name == "Trunk"@ {
        FrameworkColor::BrightRed
    } else if name == "Go"@ {
        FrameworkColor::Cyan
    } else if name == "PostgreSQL"@ || name == "MySQL"@ {
        FrameworkColor::Blue
    } else if name == "Redis"@ || name == "MongoDB"@ {
        FrameworkColor::Green
    } else if name == "Docker"@ {
        FrameworkColor::BrightBlue
    } else {
        FrameworkColor::Normal
    }
}

fn details_color(f: &str) -> (c: FrameworkColor)
    ensures
        c == spec_details_color(f@),
{
    if str_eq(f, "Next.js") || str_eq(f, "Nuxt") || str_eq(f, "Gatsby") {
        FrameworkColor::Cyan
    } else if str_eq(f, "Vite") || str_eq(f, "Webpack") || str_eq(f, "Parcel") {
        FrameworkColor::BrightMagenta
    } else if str_eq(f, "React") || str_eq(f, "Vue") || str_eq(f, "Angular") {
        FrameworkColor::Blue
    } else if str_eq(f, "Node.js") || str_eq(f, "Express") {
        FrameworkColor::Green
    } else if str_eq(f, "Django") || str_eq(f, "Flask") || str_eq(f, "FastAPI") {
        FrameworkColor::Yellow
    } else if str_eq(f, "Rails") || str_eq(f, "Ruby") {
        FrameworkColor::Red
    } else if str_eq(f, "Rust") || str_eq(f, "Trunk") {
        FrameworkColor::BrightRed
    } else if str_eq(f, "Go") {
        FrameworkColor::Cyan
    } else if str_eq(f, "PostgreSQL") || str_eq(f, "MySQL") {
        FrameworkColor::Blue
    } else if str_eq(f, "Redis") || str_eq(f, "MongoDB") {
        FrameworkColor::Green
    } else if str_eq(f, "Docker") {
        FrameworkColor::BrightBlue
    } else {
        FrameworkColor::Normal
    }
}

/// Format framework with colors.
pub fn format_framework(framework: &str, use_colors: bool) -> (r: String)
    ensures
        shown(use_colors, r@, framework@, spec_details_color(framework@)),
{
    if !use_colors {
        return owned(framework);
    }
    paint(framework, details_color(framework))
}

/// How `humantime` writes a duration of `secs` seconds and `nanos`
/// nanoseconds.
pub uninterp spec fn spec_humantime(secs: u64, nanos: u32) -> Seq<char>;

/// `humantime::format_duration`, rendered with `to_string`. Its text is a
/// function of the duration alone; the contract names it and states that
/// the empty duration is written "0s".
#[verifier::external_body]
fn humanize_duration(secs: u64, nanos: u32) -> (r: String)
    requires
        nanos < 1_000_000_000,
    ensures
        r@ == spec_humantime(secs, nanos),
        secs == 0 && nanos == 0 ==> r@ == "0s"@,
{
    humantime::format_duration(std::time::Duration::new(secs, nanos)).to_string()
}

/// The uptime of a process that started at `start` (seconds since the
/// epoch) when the clock reads `now_secs` seconds and `now_nanos`
/// nanoseconds: "unknown" when the start lies in the future.
pub open spec fn spec_uptime_since(start: u64, now_secs: u64, now_nanos: u32) -> Seq<char> {
    if now_secs < start {
        "unknown"@
    } else {
        spec_humantime((now_secs - start) as u64, now_nanos)
    }
}

/// Format uptime as a human-readable duration.
pub fn format_uptime(start_time: u64, now_secs: u64, now_nanos: u32) -> (r: String)
    requires
        now_nanos < 1_000_000_000,
    ensures
        r@ == spec_uptime_since(start_time, now_secs, now_nanos),
{
    if now_secs < start_time {
        owned("unknown")
    } else {
        humanize_duration(now_secs - start_time, now_nanos)
    }
}

// ---------------------------------------------------------------------------
// Git branch
// ---------------------------------------------------------------------------

/// The branch that `git rev-parse --abbrev-ref HEAD` printed: its trimmed
/// output when the command succeeded, unless empty or a detached "HEAD".
pub open spec fn spec_branch(success: bool, stdout: Seq<char>) -> Option<Seq<char>> {
    let b = spec_trim(stdout);
    if success && b.len() > 0 && b != "HEAD"@ {
        Some(b)
    } else {
        None
    }
}

/// The branch named by the output of `git rev-parse --abbrev-ref HEAD`.
pub fn branch_from_git_output(success: bool, stdout: &str) -> (r: Option<String>)
    ensures
        crate::process::opt_view(r) == spec_branch(success, stdout@),
{
    if !success {
        return None;
    }
    let chars = chars_of(stdout);
    let b = trim(&chars);
    let head = chars_of("HEAD");
    if b.len() > 0 && !crate::text::chars_eq(&b, &head) {
        Some(string_of(&b))
    } else {
        None
    }
}

// ---------------------------------------------------------------------------
// Process tree
// ---------------------------------------------------------------------------

/// `n` copies of `s`, one after the other.
pub open spec fn spec_repeat(s: Seq<char>, n: nat) -> Seq<char>
    decreases n,
{
    if n == 0 {
        seq![]
    } else {
        spec_repeat(s, (n - 1) as nat) + s
    }
}

/// The line of the process tree at depth `i` (0 is the root): the
/// indentation, a connector, the name and the PID.
pub open spec fn tree_line(i: nat, node: ProcessNodeView) -> Seq<char> {
    spec_repeat("│  "@, i) + (if i == 0 {
        "├─"@
    } else {
        "└─"@
    }) + " "@ + node.name + " ("@ + spec_decimal(node.pid as nat) + ")"@
}

/// The tree (given from the child up to its ancestors) drawn from the
/// topmost ancestor down to the child.
pub open spec fn spec_tree_lines(tree: Seq<ProcessNodeView>) -> Seq<Seq<char>> {
    Seq::new(tree.len(), |i: int| tree_line(i as nat, tree[tree.len() - 1 - i]))
}

/// The lines that draw a process tree with box-drawing characters.
pub fn process_tree_lines(tree: &Vec<ProcessNode>) -> (r: Vec<String>)
    ensures
        string_views(r@) == spec_tree_lines(node_views(tree@)),
{
    let n = tree.len();
    let mut lines: Vec<String> = Vec::new();
    let mut indent: Vec<char> = Vec::new();
    let mut i: usize = 0;
    while i < n
        invariant
            n == tree@.len(),
            i <= n,
            indent@ == spec_repeat("│  "@, i as nat),
            string_views(lines@) == spec_tree_lines(node_views(tree@)).take(i as int),
        decreases n - i,
    {
        let node = &tree[n - 1 - i];
        let mut line = indent.clone();
        if i == 0 {
            extend_str(&mut line, "├─");
        } else {
            extend_str(&mut line, "└─");
        }
        extend_str(&mut line, " ");
        extend_str(&mut line, node.name.as_str());
        extend_str(&mut line, " (");
        let pid = decimal_chars(node.pid as u64);
        extend_chars(&mut line, &pid);
        extend_str(&mut line, ")");
        let ghost before = lines@;
        assert(line@ =~= tree_line(i as nat, node_views(tree@)[n - 1 - i]));
        lines.push(string_of(&line));
        assert(string_views(lines@) =~= string_views(before).push(line@));
        assert(spec_tree_lines(node_views(tree@)).take(i + 1) =~= spec_tree_lines(
            node_views(tree@),
        ).take(i as int).push(line@));
        extend_str(&mut indent, "│  ");
        i = i + 1;
    }
    assert(spec_tree_lines(node_views(tree@)).take(n as int) =~= spec_tree_lines(node_views(tree@)));
    lines
}

// ---------------------------------------------------------------------------
// The detailed view
// ---------------------------------------------------------------------------

/// `s` padded with spaces on the right to `w` characters.
pub open spec fn pad_right(s: Seq<char>, w: nat) -> Seq<char> {
    if s.len() >= w {
        s
    } else {
        s + Seq::new((w - s.len()) as nat, |i: int| ' ')
    }
}

/// A labelled line: the label in a column of sixteen, then the value.
pub open spec fn field_line(label: Seq<char>, value: Seq<char>) -> Seq<char> {
    pad_right(label, 16) + value
}

/// The rule under each section title.
pub open spec fn rule_line() -> Seq<char> {
    "──────────────────────"@
}

/// The title of the view.
pub open spec fn header_lines(port: u16) -> Seq<Seq<char>> {
    seq![seq![], "Port :"@ + spec_decimal(port as nat), rule_line(), seq![]]
}

/// The process section, given the rendered status and framework texts.
pub open spec fn process_lines(
    info: ProcessInfoView,
    status_text: Seq<char>,
    framework_text: Option<Seq<char>>,
    now_secs: u64,
    now_nanos: u32,
) -> Seq<Seq<char>> {
    seq![
        field_line("Process"@, info.name),
        field_line("PID"@, spec_decimal(info.pid as nat)),
        field_line("Status"@, status_text),
    ] + match framework_text {
        Some(f) => seq![field_line("Framework"@, f)],
        None => seq![],
    } + seq![field_line("Memory"@, spec_format_memory(info.memory_kb as nat))] + match info.start_time {
        Some(s) => seq![field_line("Uptime"@, spec_uptime_since(s, now_secs, now_nanos))],
        None => seq![],
    } + seq![seq![]]
}

/// The location section: directory, branch and project, when known.
pub open spec fn location_lines(
    p: PortInfoView,
    info: ProcessInfoView,
    branch: Option<Seq<char>>,
) -> Seq<Seq<char>> {
    if info.working_dir is None && p.project_name is None {
        seq![]
    } else {
        seq!["Location"@, rule_line(), seq![]] + match info.working_dir {
            Some(d) => seq![field_line("Directory"@, d)] + match branch {
                Some(b) => seq![field_line("Branch"@, b)],
                None => seq![],
            },
            None => seq![],
        } + match p.project_name {
            Some(n) => seq![field_line("Project"@, n)],
            None => seq![],
        } + seq![seq![]]
    }
}

/// The command-line section, when the command is known.
pub open spec fn command_lines(command: Seq<char>) -> Seq<Seq<char>> {
    if command.len() == 0 {
        seq![]
    } else {
        seq!["Command Line"@, rule_line(), seq![], command, seq![]]
    }
}

/// The process-tree section, when the tree could be read and is not empty.
pub open spec fn tree_section(tree: Option<Seq<ProcessNodeView>>) -> Seq<Seq<char>> {
    match tree {
        Some(t) => if t.len() > 0 {
            seq!["Process Tree"@, rule_line(), seq![]] + spec_tree_lines(t) + seq![seq![]]
        } else {
            seq![]
        },
        None => seq![],
    }
}

/// All lines of the detailed view.
pub open spec fn spec_details_lines(
    p: PortInfoView,
    info: ProcessInfoView,
    status_text: Seq<char>,
    framework_text: Option<Seq<char>>,
    now_secs: u64,
    now_nanos: u32,
    branch: Option<Seq<char>>,
    tree: Option<Seq<ProcessNodeView>>,
) -> Seq<Seq<char>> {
    header_lines(p.port) + process_lines(info, status_text, framework_text, now_secs, now_nanos)
        + location_lines(p, info, branch) + command_lines(info.command) + tree_section(tree)
}

/// The rendered texts of the status and framework lines are what
/// [`format_status`] and [`format_framework`] may give.
pub open spec fn details_texts_ok(
    p: PortInfoView,
    info: ProcessInfoView,
    use_colors: bool,
    status_text: Seq<char>,
    framework_text: Option<Seq<char>>,
) -> bool {
    &&& status_shown(status_text, "●"@, info.status, use_colors)
    &&& match p.framework {
        Some(f) => framework_text matches Some(t) && shown(use_colors, t, f, spec_details_color(f)),
        None => framework_text is None,
    }
}

fn field(label: &str, value: &str) -> (r: String)
    ensures
        r@ == field_line(label@, value@),
{
    let mut v = chars_of(label);
    while v.len() < 16
        invariant
            label@.len() <= v@.len(),
            label@.len() < 16 ==> v@.len() <= 16,
            label@.len() >= 16 ==> v@.len() == label@.len(),
            v@ == label@ + Seq::new((v@.len() - label@.len()) as nat, |i: int| ' '),
        decreases 16 - v@.len(),
    {
        v.push(' ');
        assert(v@ =~= label@ + Seq::new((v@.len() - label@.len()) as nat, |i: int| ' '));
    }
    proof {
        let l = label@;
        if l.len() >= 16 {
            assert(v@.len() == l.len());
            assert(v@ =~= l);
        } else {
            assert(v@.len() == 16);
            assert forall|k: int| 0 <= k < 16 implies v@[k] == pad_right(l, 16)[k] by {
                if k >= l.len() {
                    assert(v@[k] == ' ');
                }
            }
            assert(v@ =~= pad_right(l, 16));
        }
    }
    extend_str(&mut v, value);
    string_of(&v)
}

fn push_line(lines: &mut Vec<String>, line: String)
    ensures
        string_views(final(lines)@) == string_views(old(lines)@).push(line@),
{
    lines.push(line);
    assert(string_views(lines@) =~= string_views(old(lines)@).push(line@));
}

fn blank() -> (r: String)
    ensures
        r@ == Seq::<char>::empty(),
{
    String::new()
}

fn rule() -> (r: String)
    ensures
        r@ == rule_line(),
{
    owned("──────────────────────")
}

fn append_lines(lines: &mut Vec<String>, more: Vec<String>)
    ensures
        string_views(final(lines)@) == string_views(old(lines)@) + string_views(more@),
{
    let ghost start = string_views(lines@);
    let mut k: usize = 0;
    while k < more.len()
        invariant
            k <= more@.len(),
            string_views(lines@) == start + string_views(more@).take(k as int),
        decreases more@.len() - k,
    {
        let line = more[k].clone();
        push_line(lines, line);
        assert(string_views(more@).take(k + 1) =~= string_views(more@).take(k as int).push(
            more@[k as int]@,
        ));
        k = k + 1;
    }
    assert(string_views(more@).take(more@.len() as int) =~= string_views(more@));
}

fn header_section(port: u16) -> (r: Vec<String>)
    ensures
        string_views(r@) == header_lines(port),
{
    let mut lines: Vec<String> = Vec::new();
    push_line(&mut lines, blank());
    let port_text = decimal_string(port as u64);
    push_line(&mut lines, concat2("Port :", port_text.as_str()));
    push_line(&mut lines, rule());
    push_line(&mut lines, blank());
    assert(string_views(lines@) =~= header_lines(port));
    lines
}

fn process_section(
    port_info: &PortInfo,
    process_info: &ProcessInfo,
    use_colors: bool,
    now_secs: u64,
    now_nanos: u32,
) -> (r: (Vec<String>, Ghost<Seq<char>>, Ghost<Option<Seq<char>>>))
    requires
        now_nanos < 1_000_000_000,
    ensures
        details_texts_ok(port_info@, process_info@, use_colors, r.1@, r.2@),
        string_views(r.0@) == process_lines(process_info@, r.1@, r.2@, now_secs, now_nanos),
{
    let mut lines: Vec<String> = Vec::new();
    let status_text = format_status(process_info.status, use_colors);
    push_line(&mut lines, field("Process", process_info.name.as_str()));
    let pid_text = decimal_string(process_info.pid as u64);
    push_line(&mut lines, field("PID", pid_text.as_str()));
    push_line(&mut lines, field("Status", status_text.as_str()));
    let framework_text = match &port_info.framework {
        Some(f) => {
            let t = format_framework(f.as_str(), use_colors);
            push_line(&mut lines, field("Framework", t.as_str()));
            Some(t)
        },
        None => None,
    };
    let ghost ft = crate::process::opt_view(framework_text);
    let memory_text = format_memory(process_info.memory_kb);
    push_line(&mut lines, field("Memory", memory_text.as_str()));
    match process_info.start_time {
        Some(s) => {
            let up = format_uptime(s, now_secs, now_nanos);
            push_line(&mut lines, field("Uptime", up.as_str()));
        },
        None => {},
    }
    push_line(&mut lines, blank());
    assert(string_views(lines@) =~= process_lines(
        process_info@,
        status_text@,
        ft,
        now_secs,
        now_nanos,
    ));
    (lines, Ghost(status_text@), Ghost(ft))
}

fn location_section(port_info: &PortInfo, process_info: &ProcessInfo, branch: &Option<String>) -> (r:
    Vec<String>)
    ensures
        string_views(r@) == location_lines(
            port_info@,
            process_info@,
            crate::process::opt_view(*branch),
        ),
{
    let mut lines: Vec<String> = Vec::new();
    if process_info.working_dir.is_some() || port_info.project_name.is_some() {
        push_line(&mut lines, owned("Location"));
        push_line(&mut lines, rule());
        push_line(&mut lines, blank());
        match &process_info.working_dir {
            Some(dir) => {
                push_line(&mut lines, field("Directory", dir.as_str()));
                match branch {
                    Some(b) => {
                        push_line(&mut lines, field("Branch", b.as_str()));
                    },
                    None => {},
                }
            },
            None => {},
        }
        match &port_info.project_name {
            Some(project) => {
                push_line(&mut lines, field("Project", project.as_str()));
            },
            None => {},
        }
        push_line(&mut lines, blank());
    }
    assert(string_views(lines@) =~= location_lines(
        port_info@,
        process_info@,
        crate::process::opt_view(*branch),
    ));
    lines
}

fn command_section(command: &String) -> (r: Vec<String>)
    ensures
        string_views(r@) == command_lines(command@),
{
    let mut lines: Vec<String> = Vec::new();
    if !command.as_str().is_empty() {
        push_line(&mut lines, owned("Command Line"));
        push_line(&mut lines, rule());
        push_line(&mut lines, blank());
        push_line(&mut lines, command.clone());
        push_line(&mut lines, blank());
    }
    assert(string_views(lines@) =~= command_lines(command@));
    lines
}

fn tree_section_of(tree: &Option<Vec<ProcessNode>>) -> (r: Vec<String>)
    ensures
        string_views(r@) == tree_section(
            match tree {
                Some(t) => Some(node_views(t@)),
                None => None,
            },
        ),
{
    let mut lines: Vec<String> = Vec::new();
    match tree {
        Some(t) => {
            if t.len() > 0 {
                push_line(&mut lines, owned("Process Tree"));
                push_line(&mut lines, rule());
                push_line(&mut lines, blank());
                let drawn = process_tree_lines(t);
                append_lines(&mut lines, drawn);
                push_line(&mut lines, blank());
            }
        },
        None => {},
    }
    let ghost tv = match tree {
        Some(t) => Some(node_views(t@)),
        None => None,
    };
    assert(string_views(lines@) =~= tree_section(tv));
    lines
}

/// The lines of the detailed view of a port, given what the platform
/// returned for its process tree.
pub fn details_lines(
    port_info: &PortInfo,
    process_info: &ProcessInfo,
    use_colors: bool,
    now_secs: u64,
    now_nanos: u32,
    branch: &Option<String>,
    tree: &Option<Vec<ProcessNode>>,
) -> (r: Vec<String>)
    requires
        now_nanos < 1_000_000_000,
    ensures
        exists|status_text: Seq<char>, framework_text: Option<Seq<char>>|
            details_texts_ok(port_info@, process_info@, use_colors, status_text, framework_text)
                && string_views(r@) == spec_details_lines(
                port_info@,
                process_info@,
                status_text,
                framework_text,
                now_secs,
                now_nanos,
                crate::process::opt_view(*branch),
                match tree {
                    Some(t) => Some(node_views(t@)),
                    None => None,
                },
            ),
{
    let mut lines = header_section(port_info.port);
    let (section, Ghost(st), Ghost(ft)) = process_section(
        port_info,
        process_info,
        use_colors,
        now_secs,
        now_nanos,
    );
    append_lines(&mut lines, section);
    append_lines(&mut lines, location_section(port_info, process_info, branch));
    append_lines(&mut lines, command_section(&process_info.command));
    append_lines(&mut lines, tree_section_of(tree));
    let ghost tv = match tree {
        Some(t) => Some(node_views(t@)),
        None => None,
    };
    assert(details_texts_ok(port_info@, process_info@, use_colors, st, ft));
    assert(string_views(lines@) =~= spec_details_lines(
        port_info@,
        process_info@,
        st,
        ft,
        now_secs,
        now_nanos,
        crate::process::opt_view(*branch),
        tv,
    ));
    lines
}

/// The detailed view of a port: its lines, with the process tree that the
/// scanner's platform reports for the process's PID (left out when it
/// cannot be read). The tree is the only question put to the platform.
pub fn port_details_lines<P: Platform>(
    scanner: &mut Scanner<P>,
    port_info: &PortInfo,
    process_info: &ProcessInfo,
    use_colors: bool,
    now_secs: u64,
    now_nanos: u32,
    branch: &Option<String>,
) -> (r: Vec<String>)
    requires
        now_nanos < 1_000_000_000,
    ensures
        final(scanner).containers() == old(scanner).containers(),
        final(scanner).detector() == old(scanner).detector(),
        exists|
            status_text: Seq<char>,
            framework_text: Option<Seq<char>>,
            tree: Option<Seq<ProcessNodeView>>,
        |
            final(scanner).calls() == old(scanner).calls().push(
                PlatformCall::Tree(process_info.pid, tree),
            ) && details_texts_ok(port_info@, process_info@, use_colors, status_text, framework_text)
                && string_views(r@) == spec_details_lines(
                port_info@,
                process_info@,
                status_text,
                framework_text,
                now_secs,
                now_nanos,
                crate::process::opt_view(*branch),
                tree,
            ),
{
    let answer = scanner.get_process_tree(process_info.pid);
    let ghost recorded = tree_answer(answer);
    let tree = match answer {
        Ok(t) => Some(t),
        Err(_) => None,
    };
    assert(recorded == match tree {
        Some(t) => Some(node_views(t@)),
        None => None,
    });
    details_lines(port_info, process_info, use_colors, now_secs, now_nanos, branch, &tree)
}

/// The answer to a yes/no prompt accepts: "y" or "yes", ignoring case and
/// surrounding white space.
pub open spec fn spec_is_affirmative(answer: Seq<char>) -> bool {
    let a = spec_lowercase(spec_trim(answer));
    a == "y"@ || a == "yes"@
}

/// Whether an answer to a yes/no prompt accepts.
pub fn is_affirmative(answer: &str) -> (r: bool)
    ensures
        r == spec_is_affirmative(answer@),
{
    let chars = chars_of(answer);
    let t = string_of(&trim(&chars));
    let lower = to_lowercase(t.as_str());
    str_eq(lower.as_str(), "y") || str_eq(lower.as_str(), "yes")
}

} // verus!

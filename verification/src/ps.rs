//! The `ps` listing: development processes, with Docker's processes
//! grouped into one entry, and what each process is doing.
use vstd::prelude::*;

use crate::display::{Display, dash, spec_format_command, spec_short_uptime, spec_truncation_length};
use crate::framework::{detect_step, is_directory_framework, opt_str_view, spec_command_framework};
use crate::platform::{Platform, process_views};
use crate::process::{ProcessInfo, ProcessInfoView, opt_view};
use crate::scanner::{Scanner, is_system_process, project_name_of, spec_is_system_process, spec_project_name};
use crate::text::{
    chars_of, decimal_chars, extend_str, has_prefix, has_substring, spec_decimal, spec_lowercase,
    starts_with_str, string_of, to_lowercase, contains_str,
};

verus! {

broadcast use vstd::seq_lib::group_seq_properties;

/// Process information for the ps command. `cpu_percent_bits` is the bit
/// pattern of the `f32` CPU share, carried along unchanged.
#[derive(Debug, Clone)]
pub struct PsProcess {
    pub pid: u32,
    pub name: String,
    pub cpu_percent_bits: u32,
    pub memory_kb: u64,
    pub project_name: Option<String>,
    pub framework: Option<String>,
    pub uptime: String,
    pub what: String,
}

/// A process belongs to Docker: its lower-cased name contains "docker" or
/// starts with "com.docker".
pub open spec fn spec_is_docker(name: Seq<char>) -> bool {
    let n = spec_lowercase(name);
    has_substring(n, "docker"@) || has_prefix(n, "com.docker"@)
}

/// Whether a process belongs to Docker.
pub fn is_docker_process(name: &str) -> (r: bool)
    ensures
        r == spec_is_docker(name@),
{
    let lower = to_lowercase(name);
    let n = chars_of(lower.as_str());
    contains_str(&n, "docker") || starts_with_str(&n, "com.docker")
}

/// The Docker processes of a list, in order.
pub open spec fn docker_part(s: Seq<ProcessInfoView>) -> Seq<ProcessInfoView> {
    s.filter(|p: ProcessInfoView| spec_is_docker(p.name))
}

/// The other processes of a list, in order.
pub open spec fn other_part(s: Seq<ProcessInfoView>) -> Seq<ProcessInfoView> {
    s.filter(|p: ProcessInfoView| !spec_is_docker(p.name))
}

/// The total memory of a list of processes.
pub open spec fn memory_total(s: Seq<ProcessInfoView>) -> nat
    decreases s.len(),
{
    if s.len() == 0 {
        0
    } else {
        memory_total(s.drop_last()) + s.last().memory_kb as nat
    }
}

/// The first process with the lowest PID (the Docker daemon).
pub open spec fn first_lowest(s: Seq<ProcessInfoView>) -> ProcessInfoView
    decreases s.len(),
{
    if s.len() <= 1 {
        s[0]
    } else {
        let m = first_lowest(s.drop_last());
        if s.last().pid < m.pid {
            s.last()
        } else {
            m
        }
    }
}

/// The entry that stands for all Docker processes: the daemon's PID,
/// status, start time and directory, the name "Docker", the total memory,
/// the given CPU share, and the number of containers as the command.
pub open spec fn docker_entry(d: Seq<ProcessInfoView>, cpu_bits: u32) -> ProcessInfoView {
    let daemon = first_lowest(d);
    ProcessInfoView {
        pid: daemon.pid,
        name: "Docker"@,
        command: spec_decimal(d.len()) + " containers"@,
        status: daemon.status,
        memory_kb: memory_total(d) as u64,
        cpu_percent_bits: cpu_bits,
        start_time: daemon.start_time,
        working_dir: daemon.working_dir,
    }
}

/// The processes with Docker's grouped into one entry at the end.
pub open spec fn spec_grouped(s: Seq<ProcessInfoView>, cpu_bits: u32) -> Seq<ProcessInfoView> {
    if docker_part(s).len() == 0 {
        s
    } else {
        other_part(s).push(docker_entry(docker_part(s), cpu_bits))
    }
}

proof fn lemma_parts_push(s: Seq<ProcessInfoView>, x: ProcessInfoView)
    ensures
        docker_part(s.push(x)) == if spec_is_docker(x.name) {
            docker_part(s).push(x)
        } else {
            docker_part(s)
        },
        other_part(s.push(x)) == if spec_is_docker(x.name) {
            other_part(s)
        } else {
            other_part(s).push(x)
        },
{
    reveal(Seq::filter);
    assert(s.push(x).drop_last() =~= s);
}

/// Group the Docker processes of a list into one entry whose CPU share is
/// `docker_cpu_bits` (the sum of their shares, which the caller adds up in
/// floating point); the other processes keep their order.
pub fn group_docker_processes(processes: Vec<ProcessInfo>, docker_cpu_bits: u32) -> (r: Vec<
    ProcessInfo,
>)
    requires
        memory_total(docker_part(process_views(processes@))) <= u64::MAX,
    ensures
        process_views(r@) == spec_grouped(process_views(processes@), docker_cpu_bits),
{
    let ghost v = process_views(processes@);
    let mut others: Vec<ProcessInfo> = Vec::new();
    let mut count: u64 = 0;
    let mut total: u64 = 0;
    let mut daemon: Option<ProcessInfo> = None;
    let mut i: usize = 0;
    while i < processes.len()
        invariant
            i <= processes@.len(),
            v == process_views(processes@),
            memory_total(docker_part(v)) <= u64::MAX,
            process_views(others@) == other_part(v.take(i as int)),
            count == docker_part(v.take(i as int)).len(),
            total == memory_total(docker_part(v.take(i as int))),
            match daemon {
                Some(d) => docker_part(v.take(i as int)).len() > 0 && d@ == first_lowest(
                    docker_part(v.take(i as int)),
                ),
                None => docker_part(v.take(i as int)).len() == 0,
            },
        decreases processes@.len() - i,
    {
        let p = &processes[i];
        let ghost pre = v.take(i as int);
        assert(v.take(i + 1) =~= pre.push(p@));
        proof {
            lemma_parts_push(pre, p@);
            lemma_docker_memory_prefix(v, i + 1);
        }
        if is_docker_process(p.name.as_str()) {
            assert(docker_part(v.take(i + 1)).drop_last() =~= docker_part(pre));
            count = count + 1;
            total = total + p.memory_kb;
            let keep = match &daemon {
                Some(d) => d.pid <= p.pid,
                None => false,
            };
            if !keep {
                daemon = Some(p.copy());
            }
        } else {
            let ghost before = others@;
            others.push(p.copy());
            assert(process_views(others@) =~= process_views(before).push(p@));
        }
        i = i + 1;
    }
    assert(v.take(i as int) =~= v);
    match daemon {
        None => processes,
        Some(d) => {
            let mut command = decimal_chars(count);
            extend_str(&mut command, " containers");
            let grouped = ProcessInfo {
                pid: d.pid,
                name: String::from_str("Docker"),
                command: string_of(&command),
                status: d.status,
                memory_kb: total,
                cpu_percent_bits: docker_cpu_bits,
                start_time: d.start_time,
                working_dir: d.working_dir,
            };
            let ghost before = others@;
            others.push(grouped);
            assert(process_views(others@) =~= process_views(before).push(grouped@));
            assert(grouped@ == docker_entry(docker_part(v), docker_cpu_bits));
            others
        },
    }
}

/// The Docker memory of a prefix is at most that of the whole list.
proof fn lemma_docker_memory_prefix(v: Seq<ProcessInfoView>, k: int)
    requires
        0 <= k <= v.len(),
    ensures
        memory_total(docker_part(v.take(k))) <= memory_total(docker_part(v)),
    decreases v.len() - k,
{
    if k == v.len() {
        assert(v.take(k) =~= v);
    } else {
        lemma_docker_memory_prefix(v, k + 1);
        assert(v.take(k + 1) =~= v.take(k).push(v[k]));
        lemma_parts_push(v.take(k), v[k]);
        if spec_is_docker(v[k].name) {
            assert(docker_part(v.take(k + 1)).drop_last() =~= docker_part(v.take(k)));
        }
    }
}

/// The processes that the ps listing considers: all of them with
/// `show_all`, and otherwise those that are not system processes.
pub open spec fn spec_selected(s: Seq<ProcessInfoView>, show_all: bool) -> Seq<ProcessInfoView> {
    if show_all {
        s
    } else {
        s.filter(|p: ProcessInfoView| !spec_is_system_process(p.name))
    }
}

/// Keep the development processes of a list (all of them with
/// `show_all`), in order.
pub fn select_processes(processes: Vec<ProcessInfo>, show_all: bool) -> (r: Vec<ProcessInfo>)
    ensures
        process_views(r@) == spec_selected(process_views(processes@), show_all),
{
    if show_all {
        return processes;
    }
    let ghost v = process_views(processes@);
    let mut kept: Vec<ProcessInfo> = Vec::new();
    let mut i: usize = 0;
    while i < processes.len()
        invariant
            i <= processes@.len(),
            v == process_views(processes@),
            process_views(kept@) == v.take(i as int).filter(
                |p: ProcessInfoView| !spec_is_system_process(p.name),
            ),
        decreases processes@.len() - i,
    {
        let p = &processes[i];
        let ghost pre = v.take(i as int);
        assert(v.take(i + 1) =~= pre.push(p@));
        proof {
            reveal(Seq::filter);
            assert(pre.push(p@).drop_last() =~= pre);
        }
        if !is_system_process(p.name.as_str()) {
            let ghost before = kept@;
            kept.push(p.copy());
            assert(process_views(kept@) =~= process_views(before).push(p@));
        }
        i = i + 1;
    }
    assert(v.take(i as int) =~= v);
    kept
}

/// `e` is the ps entry of process `p`: same PID, name, CPU share and
/// memory; the uptime and command description as `display` writes them at
/// time `now`; the project named by the working directory; and a
/// framework that the command or the working directory indicates.
pub open spec fn ps_describes(
    e: PsProcess,
    p: ProcessInfoView,
    terminal_width: usize,
    now: u64,
) -> bool {
    &&& e.pid == p.pid
    &&& e.name@ == p.name
    &&& e.cpu_percent_bits == p.cpu_percent_bits
    &&& e.memory_kb == p.memory_kb
    &&& e.uptime@ == match p.start_time {
        None => dash(),
        Some(s) => if now < s {
            dash()
        } else {
            spec_short_uptime((now - s) as nat)
        },
    }
    &&& e.what@ == spec_format_command(
        p.command,
        p.name,
        spec_truncation_length(terminal_width as int),
    )
    &&& opt_view(e.project_name) == spec_project_name(p.working_dir)
    &&& spec_command_framework(p.command) is Some ==> opt_view(e.framework)
        == spec_command_framework(p.command)
    &&& spec_command_framework(p.command) is None && p.working_dir is None ==> e.framework is None
    &&& opt_view(e.framework) matches Some(f) ==> spec_command_framework(p.command) == Some(f)
        || is_directory_framework(f)
}

/// The ps entry of one process, detecting its framework through the
/// scanner's detector.
pub fn ps_entry<P: Platform>(scanner: &mut Scanner<P>, display: &Display, p: &ProcessInfo, now: u64) -> (e: PsProcess)
    ensures
        ps_describes(e, p@, display.terminal_width, now),
        final(scanner).containers() == old(scanner).containers(),
        detect_step(
            old(scanner).detector(),
            final(scanner).detector(),
            p.command@,
            opt_view(p.working_dir),
            opt_view(e.framework),
        ),
{
    let uptime = display.format_uptime(p.start_time, now);
    let what = display.format_command(p.command.as_str(), p.name.as_str());
    let project_name = project_name_of(&p.working_dir);
    let wd = match &p.working_dir {
        Some(d) => Some(d.as_str()),
        None => None,
    };
    let framework = scanner.detect_framework(p.command.as_str(), wd);
    assert(opt_str_view(wd) == opt_view(p.working_dir));
    PsProcess {
        pid: p.pid,
        name: p.name.clone(),
        cpu_percent_bits: p.cpu_percent_bits,
        memory_kb: p.memory_kb,
        project_name,
        framework,
        uptime,
        what,
    }
}

/// The ps entries of a list of processes, in order.
pub fn ps_entries<P: Platform>(
    scanner: &mut Scanner<P>,
    display: &Display,
    processes: &Vec<ProcessInfo>,
    now: u64,
) -> (r: Vec<PsProcess>)
    ensures
        r@.len() == processes@.len(),
        forall|i: int|
            0 <= i < r@.len() ==> ps_describes(
                #[trigger] r@[i],
                processes@[i]@,
                display.terminal_width,
                now,
            ),
        final(scanner).containers() == old(scanner).containers(),
{
    let mut r: Vec<PsProcess> = Vec::new();
    for i in 0..processes.len()
        invariant
            r@.len() == i,
            forall|k: int|
                0 <= k < i ==> ps_describes(
                    #[trigger] r@[k],
                    processes@[k]@,
                    display.terminal_width,
                    now,
                ),
            scanner.containers() == old(scanner).containers(),
    {
        let e = ps_entry(scanner, display, &processes[i], now);
        r.push(e);
    }
    r
}

} // verus!

//! What the operating-system platform computes from the raw tables the
//! system reports: listening ports, process records, statuses and the
//! ancestry of a process.
use vstd::prelude::*;

use crate::error::{PortlyError, Result};
use crate::platform::{process_gone_suggestion, process_gone_text, process_views};
use crate::process::{
    ProcessInfo, ProcessInfoView, ProcessNode, ProcessNodeView, ProcessStatus, RawPortInfo, opt_view,
};
use crate::text::{extend_str, string_of};

verus! {

/// A socket as the system lists it.
#[derive(Debug, Clone, Copy, PartialEq, Eq, Structural)]
pub struct SocketEntry {
    /// A TCP socket in the listening state.
    pub tcp_listening: bool,
    pub local_port: u16,
    /// The first process associated with the socket, if any.
    pub first_pid: Option<u32>,
}

/// The listening ports of a socket table: each listening TCP socket with
/// an associated process, in order.
pub open spec fn spec_listening_ports(s: Seq<SocketEntry>) -> Seq<RawPortInfo>
    decreases s.len(),
{
    if s.len() == 0 {
        seq![]
    } else {
        let rest = spec_listening_ports(s.drop_last());
        let e = s.last();
        if e.tcp_listening && e.first_pid is Some {
            rest.push(RawPortInfo { port: e.local_port, pid: e.first_pid->Some_0 })
        } else {
            rest
        }
    }
}

/// The listening ports of a socket table.
pub fn listening_ports(sockets: &Vec<SocketEntry>) -> (r: Vec<RawPortInfo>)
    ensures
        r@ == spec_listening_ports(sockets@),
{
    let mut r: Vec<RawPortInfo> = Vec::new();
    for i in 0..sockets.len()
        invariant
            r@ == spec_listening_ports(sockets@.take(i as int)),
    {
        let e = sockets[i];
        assert(sockets@.take(i + 1).drop_last() =~= sockets@.take(i as int));
        if e.tcp_listening {
            match e.first_pid {
                Some(pid) => r.push(RawPortInfo { port: e.local_port, pid }),
                None => {},
            }
        }
    }
    assert(sockets@.take(sockets@.len() as int) =~= sockets@);
    r
}

/// A process as the system lists it.
#[derive(Debug, Clone)]
pub struct ProcessRecord {
    pub pid: u32,
    pub parent: Option<u32>,
    pub name: String,
    pub args: Vec<String>,
    pub memory_bytes: u64,
    /// Bit pattern of the `f32` CPU share.
    pub cpu_percent_bits: u32,
    /// Start time, in seconds since the epoch.
    pub start_time: u64,
    pub cwd: Option<String>,
}

/// The status of a process: a zombie when it holds no memory, orphaned
/// when it has no parent and its PID is above 1000, healthy otherwise.
pub open spec fn spec_status(memory_bytes: u64, has_parent: bool, pid: u32) -> ProcessStatus {
    if memory_bytes == 0 {
        ProcessStatus::Zombie
    } else if !has_parent && pid > 1000 {
        ProcessStatus::Orphaned
    } else {
        ProcessStatus::Healthy
    }
}

/// Determine process status.
pub fn classify_status(memory_bytes: u64, has_parent: bool, pid: u32) -> (r: ProcessStatus)
    ensures
        r == spec_status(memory_bytes, has_parent, pid),
{
    if memory_bytes == 0 {
        ProcessStatus::Zombie
    } else if !has_parent && pid > 1000 {
        ProcessStatus::Orphaned
    } else {
        ProcessStatus::Healthy
    }
}

/// Words joined by single spaces.
pub open spec fn spec_join(words: Seq<Seq<char>>) -> Seq<char>
    decreases words.len(),
{
    if words.len() == 0 {
        seq![]
    } else if words.len() == 1 {
        words[0]
    } else {
        spec_join(words.drop_last()) + seq![' '] + words.last()
    }
}

/// The views of a sequence of strings.
pub open spec fn arg_views(v: Seq<String>) -> Seq<Seq<char>> {
    v.map_values(|s: String| s@)
}

/// The command line of a process: its arguments joined by spaces.
pub fn join_command(args: &Vec<String>) -> (r: String)
    ensures
        r@ == spec_join(arg_views(args@)),
{
    let mut v: Vec<char> = Vec::new();
    for i in 0..args.len()
        invariant
            v@ == spec_join(arg_views(args@).take(i as int)),
    {
        let ghost pre = arg_views(args@).take(i as int);
        assert(arg_views(args@).take(i + 1).drop_last() =~= pre);
        if i > 0 {
            v.push(' ');
        }
        extend_str(&mut v, args[i].as_str());
        proof {
            if i == 0 {
                assert(v@ =~= arg_views(args@).take(i + 1)[0]);
            }
        }
    }
    assert(arg_views(args@).take(args@.len() as int) =~= arg_views(args@));
    string_of(&v)
}

/// The process information a record gives.
pub open spec fn spec_process_info(r: ProcessRecord) -> ProcessInfoView {
    ProcessInfoView {
        pid: r.pid,
        name: r.name@,
        command: spec_join(arg_views(r.args@)),
        status: spec_status(r.memory_bytes, r.parent is Some, r.pid),
        memory_kb: r.memory_bytes / 1024,
        cpu_percent_bits: r.cpu_percent_bits,
        start_time: Some(r.start_time),
        working_dir: opt_view(r.cwd),
    }
}

/// The process information of a record: the command line joined from the
/// arguments, memory in KB, and the status.
pub fn process_info_from(r: &ProcessRecord) -> (info: ProcessInfo)
    ensures
        info@ == spec_process_info(*r),
{
    ProcessInfo {
        pid: r.pid,
        name: r.name.clone(),
        command: join_command(&r.args),
        status: classify_status(r.memory_bytes, r.parent.is_some(), r.pid),
        memory_kb: r.memory_bytes / 1024,
        cpu_percent_bits: r.cpu_percent_bits,
        start_time: Some(r.start_time),
        working_dir: crate::process::copy_opt(&r.cwd),
    }
}

/// The index of the first record for `pid`, or -1.
pub open spec fn record_index(t: Seq<ProcessRecord>, pid: u32) -> int
    decreases t.len(),
{
    if t.len() == 0 {
        -1
    } else if t[0].pid == pid {
        0
    } else {
        let k = record_index(t.skip(1), pid);
        if k < 0 {
            -1
        } else {
            k + 1
        }
    }
}

proof fn lemma_record_index_bounds(t: Seq<ProcessRecord>, pid: u32)
    ensures
        -1 <= record_index(t, pid) < t.len(),
        record_index(t, pid) >= 0 ==> t[record_index(t, pid)].pid == pid,
    decreases t.len(),
{
    if t.len() > 0 && t[0].pid != pid {
        lemma_record_index_bounds(t.skip(1), pid);
    }
}

fn find_record(table: &Vec<ProcessRecord>, pid: u32) -> (r: Option<usize>)
    ensures
        match r {
            Some(i) => i as int == record_index(table@, pid) && i < table@.len(),
            None => record_index(table@, pid) == -1,
        },
{
    let mut i: usize = 0;
    assert(table@.skip(0) =~= table@);
    while i < table.len()
        invariant
            i <= table@.len(),
            record_index(table@, pid) == if record_index(table@.skip(i as int), pid) < 0 {
                -1
            } else {
                record_index(table@.skip(i as int), pid) + i
            },
        decreases table@.len() - i,
    {
        assert(table@.skip(i as int)[0] == table@[i as int]);
        assert(table@.skip(i as int).skip(1) =~= table@.skip(i + 1));
        if table[i].pid == pid {
            return Some(i);
        }
        i = i + 1;
    }
    None
}

/// The "process not found" error of the platform.
pub open spec fn is_not_found_error(e: PortlyError, pid: u32) -> bool {
    e matches PortlyError::ProcessNotFound { pid: p, suggestion } && p == pid && opt_view(suggestion)
        == Some(process_gone_suggestion())
}

/// The process information of `pid` in a process table, or the
/// "process not found" error when the table does not list it.
pub fn lookup_process(table: &Vec<ProcessRecord>, pid: u32) -> (r: Result<ProcessInfo>)
    ensures
        record_index(table@, pid) >= 0 ==> (r matches Ok(info) && info@ == spec_process_info(
            table@[record_index(table@, pid)],
        )),
        record_index(table@, pid) < 0 ==> (r matches Err(e) && is_not_found_error(e, pid)),
{
    match find_record(table, pid) {
        Some(i) => Ok(process_info_from(&table[i])),
        None => Err(PortlyError::ProcessNotFound { pid, suggestion: Some(process_gone_text()) }),
    }
}

/// The process information of every record, in order.
pub fn all_processes(table: &Vec<ProcessRecord>) -> (r: Vec<ProcessInfo>)
    ensures
        process_views(r@) == table@.map_values(|e: ProcessRecord| spec_process_info(e)),
{
    let mut r: Vec<ProcessInfo> = Vec::new();
    for i in 0..table.len()
        invariant
            process_views(r@) == table@.take(i as int).map_values(
                |e: ProcessRecord| spec_process_info(e),
            ),
    {
        let ghost before = r@;
        r.push(process_info_from(&table[i]));
        assert(process_views(r@) =~= process_views(before).push(spec_process_info(table@[i as int])));
        assert(table@.take(i + 1).map_values(|e: ProcessRecord| spec_process_info(e))
            =~= table@.take(i as int).map_values(|e: ProcessRecord| spec_process_info(e)).push(
            spec_process_info(table@[i as int]),
        ));
    }
    assert(table@.take(table@.len() as int) =~= table@);
    r
}

/// The ancestry of `pid`, at most `fuel` levels: the process, then its
/// parent, and so on, stopping at a process the table does not list, at a
/// process without a parent (parent 0), or at one that is its own parent.
pub open spec fn spec_ancestry(t: Seq<ProcessRecord>, pid: u32, fuel: nat) -> Seq<ProcessNodeView>
    decreases fuel,
{
    if fuel == 0 || record_index(t, pid) < 0 {
        seq![]
    } else {
        let e = t[record_index(t, pid)];
        let ppid = match e.parent {
            Some(p) => p,
            None => 0,
        };
        let node = ProcessNodeView { pid, ppid, name: e.name@ };
        if ppid == 0 || ppid == pid {
            seq![node]
        } else {
            seq![node] + spec_ancestry(t, ppid, (fuel - 1) as nat)
        }
    }
}

/// Get the process tree (ancestors, at most eight) of a PID.
pub fn process_tree_from(table: &Vec<ProcessRecord>, pid: u32) -> (r: Vec<ProcessNode>)
    ensures
        crate::platform::node_views(r@) == spec_ancestry(table@, pid, 8),
{
    let mut tree: Vec<ProcessNode> = Vec::new();
    let mut current = pid;
    let mut depth: usize = 0;
    while depth < 8
        invariant_except_break
            crate::platform::node_views(tree@) + spec_ancestry(table@, current, (8 - depth) as nat)
                == spec_ancestry(table@, pid, 8),
        invariant
            depth <= 8,
        ensures
            crate::platform::node_views(tree@) == spec_ancestry(table@, pid, 8),
        decreases 8 - depth,
    {
        let ghost fuel = (8 - depth) as nat;
        assert(fuel > 0);
        match find_record(table, current) {
            Some(i) => {
                let e = &table[i];
                let ppid = match e.parent {
                    Some(p) => p,
                    None => 0,
                };
                let ghost before = tree@;
                tree.push(ProcessNode { pid: current, ppid, name: e.name.clone() });
                assert(crate::platform::node_views(tree@) =~= crate::platform::node_views(before).push(
                    ProcessNodeView { pid: current, ppid, name: e.name@ },
                ));
                if ppid == 0 || ppid == current {
                    assert(spec_ancestry(table@, current, fuel) =~= seq![
                        ProcessNodeView { pid: current, ppid, name: e.name@ },
                    ]);
                    assert(crate::platform::node_views(tree@) =~= crate::platform::node_views(before)
                        + spec_ancestry(table@, current, fuel));
                    break;
                }
                assert(crate::platform::node_views(tree@) + spec_ancestry(table@, ppid, (fuel - 1) as nat)
                    =~= crate::platform::node_views(before) + spec_ancestry(table@, current, fuel));
                current = ppid;
                depth = depth + 1;
                proof {
                    if depth == 8 {
                        assert(crate::platform::node_views(tree@) + spec_ancestry(table@, current, 0)
                            =~= crate::platform::node_views(tree@));
                    }
                }
            },
            None => {
                assert(spec_ancestry(table@, current, fuel) =~= seq![]);
                assert(crate::platform::node_views(tree@) =~= crate::platform::node_views(tree@)
                    + spec_ancestry(table@, current, fuel));
                break;
            },
        }
    }
    tree
}

} // verus!

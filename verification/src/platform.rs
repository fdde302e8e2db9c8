//! The operating-system operations the scanner needs, and an in-memory
//! platform for exercising the scanner without an operating system.
use vstd::prelude::*;

use crate::error::{PortlyError, Result};
use crate::process::{ProcessInfo, ProcessInfoView, ProcessNode, ProcessNodeView, RawPortInfo};
use crate::text::{concat2, concat3, decimal_string, spec_decimal, str_eq};

verus! {

/// Platform abstraction for OS-specific operations.
///
/// Answers depend on the state of the machine at the moment of the call, so
/// the trait states nothing of them; each implementation may state more.
pub trait Platform {
    /// Get all listening ports with their PIDs.
    fn get_listening_ports(&self) -> Result<Vec<RawPortInfo>>;

    /// Get detailed process information by PID.
    fn get_process_info(&self, pid: u32) -> Result<ProcessInfo>;

    /// Get process tree (ancestors) for a given PID.
    fn get_process_tree(&self, pid: u32) -> Result<Vec<ProcessNode>>;

    /// Kill a process by PID; `force` asks for a forced kill rather than a
    /// graceful termination.
    fn kill_process(&mut self, pid: u32, force: bool) -> Result<()>;

    /// Get all running processes (for the ps command).
    fn get_all_processes(&self) -> Result<Vec<ProcessInfo>>;

    /// Whether a file or directory exists at `path`.
    fn path_exists(&self, path: &str) -> bool;

    /// The text of the file at `path`, if it can be read.
    fn read_to_string(&self, path: &str) -> Option<String>;
}

/// One question put to a platform, with the answer it gave (`None` where
/// the platform answered with an error; the listing keeps its error).
pub enum PlatformCall {
    /// The listening ports, or the error the platform gave.
    Listening(core::result::Result<Seq<RawPortInfo>, PortlyError>),
    /// The process with a PID.
    Process(u32, Option<ProcessInfoView>),
    /// The ancestry of a PID.
    Tree(u32, Option<Seq<ProcessNodeView>>),
    /// A kill of a PID, forced or not, and whether it succeeded.
    Kill(u32, bool, bool),
    /// All running processes.
    AllProcesses(Option<Seq<ProcessInfoView>>),
}

/// The suggestion given when a process cannot be found.
pub open spec fn process_gone_suggestion() -> Seq<char> {
    "• The process may have exited\n• Run 'portly list' to see current processes\n• Check if you have permission to access this process"@
}

/// The suggestion given when a process cannot be found.
pub fn process_gone_text() -> (s: String)
    ensures
        s@ == process_gone_suggestion(),
{
    String::from_str(
        "• The process may have exited\n• Run 'portly list' to see current processes\n• Check if you have permission to access this process",
    )
}

/// The index of the last entry with key `key`, or -1.
pub open spec fn last_index<T>(entries: Seq<(u32, T)>, key: u32) -> int
    decreases entries.len(),
{
    if entries.len() == 0 {
        -1
    } else if entries.last().0 == key {
        entries.len() - 1
    } else {
        last_index(entries.drop_last(), key)
    }
}

pub proof fn lemma_last_index_bounds<T>(entries: Seq<(u32, T)>, key: u32)
    ensures
        -1 <= last_index(entries, key) < entries.len(),
        last_index(entries, key) >= 0 ==> entries[last_index(entries, key)].0 == key,
        last_index(entries, key) == -1 ==> forall|i: int|
            0 <= i < entries.len() ==> entries[i].0 != key,
        forall|i: int| last_index(entries, key) < i < entries.len() ==> entries[i].0 != key,
    decreases entries.len(),
{
    if entries.len() > 0 && entries.last().0 != key {
        lemma_last_index_bounds(entries.drop_last(), key);
        assert forall|i: int| 0 <= i < entries.len() - 1 implies entries[i] == entries.drop_last()[i] by {}
    }
}

fn find_last<T>(entries: &Vec<(u32, T)>, key: u32) -> (r: Option<usize>)
    ensures
        match r {
            Some(i) => i as int == last_index(entries@, key) && i < entries@.len(),
            None => last_index(entries@, key) == -1,
        },
{
    proof {
        lemma_last_index_bounds(entries@, key);
    }
    let mut i = entries.len();
    assert(entries@.take(i as int) =~= entries@);
    while i > 0
        invariant
            i <= entries.len(),
            last_index(entries@, key) == last_index(entries@.take(i as int), key),
        decreases i,
    {
        assert(entries@.take(i as int).last() == entries@[i - 1]);
        if entries[i - 1].0 == key {
            return Some(i - 1);
        }
        assert(entries@.take(i as int).drop_last() =~= entries@.take(i - 1));
        i = i - 1;
    }
    None
}

/// The process recorded for `pid`: the one recorded last.
pub open spec fn recorded_process(entries: Seq<(u32, ProcessInfo)>, pid: u32) -> Option<
    ProcessInfoView,
> {
    let i = last_index(entries, pid);
    if i < 0 {
        None
    } else {
        Some(entries[i].1@)
    }
}

/// The views of a sequence of processes.
pub open spec fn process_views(s: Seq<ProcessInfo>) -> Seq<ProcessInfoView> {
    s.map_values(|p: ProcessInfo| p@)
}

/// The processes recorded in the first `n` entries that no later entry
/// replaces, in order: one per PID, the one recorded last.
pub open spec fn latest_entries(entries: Seq<(u32, ProcessInfo)>, n: int) -> Seq<ProcessInfoView>
    decreases n,
{
    if n <= 0 {
        seq![]
    } else {
        let prev = latest_entries(entries, n - 1);
        if last_index(entries, entries[n - 1].0) == n - 1 {
            prev.push(entries[n - 1].1@)
        } else {
            prev
        }
    }
}

/// The views of a sequence of process nodes.
pub open spec fn node_views(s: Seq<ProcessNode>) -> Seq<ProcessNodeView> {
    s.map_values(|n: ProcessNode| n@)
}

/// The tree recorded for `pid`: the one recorded last.
pub open spec fn recorded_tree(entries: Seq<(u32, Vec<ProcessNode>)>, pid: u32) -> Option<
    Seq<ProcessNodeView>,
> {
    let i = last_index(entries, pid);
    if i < 0 {
        None
    } else {
        Some(node_views(entries[i].1@))
    }
}

/// The message of a simulated failure for a PID.
pub open spec fn simulated_pid_message(pid: u32) -> Seq<char> {
    "Simulated error for PID "@ + spec_decimal(pid as nat)
}

/// The message of a simulated failure for a port.
pub open spec fn simulated_port_message(port: u16) -> Seq<char> {
    "Simulated error for port "@ + spec_decimal(port as nat)
}

/// The error a lookup of a missing PID gives.
pub open spec fn is_process_not_found(e: PortlyError, pid: u32) -> bool {
    e matches PortlyError::ProcessNotFound { pid: p, suggestion: Some(s) } && p == pid && s@
        == process_gone_suggestion()
}

/// The error of a simulated failure for a PID.
pub open spec fn is_simulated_pid_error(e: PortlyError, pid: u32) -> bool {
    e matches PortlyError::PlatformError(m) && m@ == simulated_pid_message(pid)
}

fn simulated_pid_error(pid: u32) -> (e: PortlyError)
    ensures
        is_simulated_pid_error(e, pid),
{
    let n = decimal_string(pid as u64);
    PortlyError::PlatformError(concat2("Simulated error for PID ", n.as_str()))
}

fn process_not_found(pid: u32) -> (e: PortlyError)
    ensures
        is_process_not_found(e, pid),
{
    PortlyError::ProcessNotFound { pid, suggestion: Some(process_gone_text()) }
}

/// Mock platform for tests: ports, processes, process trees and files held
/// in memory, with kill calls recorded instead of performed.
#[derive(Debug, Default)]
pub struct MockPlatform {
    /// Listening ports, in the order they were added.
    pub ports: Vec<RawPortInfo>,
    /// Process information by PID; a later entry for a PID replaces an
    /// earlier one.
    pub processes: Vec<(u32, ProcessInfo)>,
    /// Process trees by PID; a later entry for a PID replaces an earlier one.
    pub process_trees: Vec<(u32, Vec<ProcessNode>)>,
    /// Records of kill_process calls: (pid, force).
    pub kill_calls: Vec<(u32, bool)>,
    /// Files by path; a later entry for a path replaces an earlier one.
    pub files: Vec<(String, String)>,
    /// Port to simulate errors on.
    pub error_on_port: Option<u16>,
    /// PID to simulate errors on.
    pub error_on_pid: Option<u32>,
}

impl MockPlatform {
    /// Create a new empty MockPlatform.
    pub fn new() -> (m: Self)
        ensures
            m.ports@.len() == 0,
            m.processes@.len() == 0,
            m.process_trees@.len() == 0,
            m.kill_calls@.len() == 0,
            m.files@.len() == 0,
            m.error_on_port is None,
            m.error_on_pid is None,
    {
        MockPlatform {
            ports: Vec::new(),
            processes: Vec::new(),
            process_trees: Vec::new(),
            kill_calls: Vec::new(),
            files: Vec::new(),
            error_on_port: None,
            error_on_pid: None,
        }
    }

    /// Builder: adds a listening port.
    pub fn with_port(self, port: u16, pid: u32) -> (m: Self)
        ensures
            m.ports@ == self.ports@.push(RawPortInfo { port, pid }),
            m.processes == self.processes,
            m.process_trees == self.process_trees,
            m.kill_calls == self.kill_calls,
            m.files == self.files,
            m.error_on_port == self.error_on_port,
            m.error_on_pid == self.error_on_pid,
    {
        let mut m = self;
        m.ports.push(RawPortInfo { port, pid });
        m
    }

    /// Builder: records the process information for a PID.
    pub fn with_process(self, pid: u32, info: ProcessInfo) -> (m: Self)
        ensures
            m.processes@ == self.processes@.push((pid, info)),
            m.ports == self.ports,
            m.process_trees == self.process_trees,
            m.kill_calls == self.kill_calls,
            m.files == self.files,
            m.error_on_port == self.error_on_port,
            m.error_on_pid == self.error_on_pid,
    {
        let mut m = self;
        m.processes.push((pid, info));
        m
    }

    /// Builder: records the process tree for a PID.
    pub fn with_process_tree(self, pid: u32, tree: Vec<ProcessNode>) -> (m: Self)
        ensures
            m.process_trees@ == self.process_trees@.push((pid, tree)),
            m.ports == self.ports,
            m.processes == self.processes,
            m.kill_calls == self.kill_calls,
            m.files == self.files,
            m.error_on_port == self.error_on_port,
            m.error_on_pid == self.error_on_pid,
    {
        let mut m = self;
        m.process_trees.push((pid, tree));
        m
    }

    /// Builder: records a file and its text.
    pub fn with_file(self, path: &str, content: &str) -> (m: Self)
        ensures
            m.files@.len() == self.files@.len() + 1,
            m.files@.last().0@ == path@,
            m.files@.last().1@ == content@,
            m.files@.drop_last() == self.files@,
            m.ports == self.ports,
            m.processes == self.processes,
            m.process_trees == self.process_trees,
            m.kill_calls == self.kill_calls,
            m.error_on_port == self.error_on_port,
            m.error_on_pid == self.error_on_pid,
    {
        let mut m = self;
        let ghost before = m.files@;
        m.files.push((String::from_str(path), String::from_str(content)));
        assert(m.files@.drop_last() =~= before);
        m
    }

    /// Builder: listing the ports fails while this port is among them.
    pub fn with_error_on_port(self, port: u16) -> (m: Self)
        ensures
            m.error_on_port == Some(port),
            m.ports == self.ports,
            m.processes == self.processes,
            m.process_trees == self.process_trees,
            m.kill_calls == self.kill_calls,
            m.files == self.files,
            m.error_on_pid == self.error_on_pid,
    {
        let mut m = self;
        m.error_on_port = Some(port);
        m
    }

    /// Builder: every operation on this PID fails.
    pub fn with_error_on_pid(self, pid: u32) -> (m: Self)
        ensures
            m.error_on_pid == Some(pid),
            m.ports == self.ports,
            m.processes == self.processes,
            m.process_trees == self.process_trees,
            m.kill_calls == self.kill_calls,
            m.files == self.files,
            m.error_on_port == self.error_on_port,
    {
        let mut m = self;
        m.error_on_pid = Some(pid);
        m
    }

    /// Whether a kill of `pid` was recorded.
    pub fn assert_killed(&self, pid: u32) -> (r: bool)
        ensures
            r == exists|i: int| 0 <= i < self.kill_calls@.len() && self.kill_calls@[i].0 == pid,
    {
        for i in 0..self.kill_calls.len()
            invariant
                forall|k: int| 0 <= k < i ==> self.kill_calls@[k].0 != pid,
        {
            if self.kill_calls[i].0 == pid {
                return true;
            }
        }
        false
    }

    /// Whether no kill of `pid` was recorded.
    pub fn assert_not_killed(&self, pid: u32) -> (r: bool)
        ensures
            r == forall|i: int| 0 <= i < self.kill_calls@.len() ==> self.kill_calls@[i].0 != pid,
    {
        !self.assert_killed(pid)
    }

    /// Whether exactly `expected` kills were recorded.
    pub fn assert_kill_count(&self, expected: usize) -> (r: bool)
        ensures
            r == (self.kill_calls@.len() == expected),
    {
        self.kill_calls.len() == expected
    }

    /// All recorded kill calls, as (pid, force), in order.
    pub fn get_kill_calls(&self) -> (r: Vec<(u32, bool)>)
        ensures
            r@ == self.kill_calls@,
    {
        let mut r: Vec<(u32, bool)> = Vec::new();
        for i in 0..self.kill_calls.len()
            invariant
                r@ == self.kill_calls@.take(i as int),
        {
            r.push(self.kill_calls[i]);
            assert(self.kill_calls@.take(i + 1) =~= self.kill_calls@.take(i as int).push(
                self.kill_calls@[i as int],
            ));
        }
        assert(self.kill_calls@.take(self.kill_calls.len() as int) =~= self.kill_calls@);
        r
    }

    /// Builder: records a chain of `depth` processes for `root_pid`: node
    /// `i` has PID `root_pid + i` and the node before it as parent (the first
    /// has parent 0). A depth of 0 records nothing.
    pub fn with_process_chain(self, root_pid: u32, depth: usize) -> (m: Self)
        requires
            root_pid + depth <= u32::MAX,
        ensures
            depth == 0 ==> m.process_trees == self.process_trees,
            depth > 0 ==> m.process_trees@.drop_last() == self.process_trees@ && m.process_trees@.len()
                == self.process_trees@.len() + 1 && m.process_trees@.last().0 == root_pid
                && is_chain(m.process_trees@.last().1@, root_pid, depth as nat),
            m.ports == self.ports,
            m.processes == self.processes,
            m.kill_calls == self.kill_calls,
            m.files == self.files,
            m.error_on_port == self.error_on_port,
            m.error_on_pid == self.error_on_pid,
    {
        let mut m = self;
        if depth == 0 {
            return m;
        }
        let mut tree: Vec<ProcessNode> = Vec::new();
        let mut current_pid = root_pid;
        for i in 0..depth
            invariant
                root_pid + depth <= u32::MAX,
                current_pid == root_pid + i,
                tree@.len() == i,
                forall|k: int|
                    0 <= k < i ==> {
                        &&& (#[trigger] tree@[k]).pid == root_pid + k
                        &&& tree@[k].ppid == if k == 0 {
                            0
                        } else {
                            root_pid + k - 1
                        }
                        &&& tree@[k].name@ == process_label(root_pid + k)
                    },
        {
            let ppid = if i == 0 {
                0
            } else {
                current_pid - 1
            };
            let n = decimal_string(current_pid as u64);
            let name = concat3("process_", n.as_str(), ".exe");
            tree.push(ProcessNode { pid: current_pid, ppid, name });
            current_pid = current_pid + 1;
        }
        let ghost before = m.process_trees@;
        m.process_trees.push((root_pid, tree));
        assert(m.process_trees@.drop_last() =~= before);
        m
    }

    /// Builder: records a two-node tree for `root_pid` whose nodes name each
    /// other as parent.
    pub fn with_process_tree_cycle(self, root_pid: u32) -> (m: Self)
        requires
            root_pid < u32::MAX,
        ensures
            m.process_trees@.drop_last() == self.process_trees@,
            m.process_trees@.len() == self.process_trees@.len() + 1,
            m.process_trees@.last().0 == root_pid,
            m.process_trees@.last().1@.len() == 2,
            m.process_trees@.last().1@[0]@ == (ProcessNodeView {
                pid: root_pid,
                ppid: (root_pid + 1) as u32,
                name: process_label(root_pid as int),
            }),
            m.process_trees@.last().1@[1]@ == (ProcessNodeView {
                pid: (root_pid + 1) as u32,
                ppid: root_pid,
                name: process_label(root_pid + 1),
            }),
            m.ports == self.ports,
            m.processes == self.processes,
            m.kill_calls == self.kill_calls,
            m.files == self.files,
            m.error_on_port == self.error_on_port,
            m.error_on_pid == self.error_on_pid,
    {
        let mut m = self;
        let n0 = decimal_string(root_pid as u64);
        let n1 = decimal_string((root_pid + 1) as u64);
        let mut tree: Vec<ProcessNode> = Vec::new();
        tree.push(
            ProcessNode {
                pid: root_pid,
                ppid: root_pid + 1,
                name: concat3("process_", n0.as_str(), ".exe"),
            },
        );
        tree.push(
            ProcessNode {
                pid: root_pid + 1,
                ppid: root_pid,
                name: concat3("process_", n1.as_str(), ".exe"),
            },
        );
        let ghost before = m.process_trees@;
        m.process_trees.push((root_pid, tree));
        assert(m.process_trees@.drop_last() =~= before);
        m
    }
}

/// The name the mock gives the process with PID `pid`.
pub open spec fn process_label(pid: int) -> Seq<char> {
    "process_"@ + spec_decimal(pid as nat) + ".exe"@
}

/// `tree` is the chain of `depth` processes that starts at `root_pid`.
pub open spec fn is_chain(tree: Seq<ProcessNode>, root_pid: u32, depth: nat) -> bool {
    &&& tree.len() == depth
    &&& forall|k: int|
        0 <= k < depth ==> {
            &&& (#[trigger] tree[k]).pid == root_pid + k
            &&& tree[k].ppid == if k == 0 {
                0
            } else {
                root_pid + k - 1
            }
            &&& tree[k].name@ == process_label(root_pid + k)
        }
}

impl Platform for MockPlatform {
    fn get_listening_ports(&self) -> (r: Result<Vec<RawPortInfo>>)
        ensures
            match self.error_on_port {
                Some(p) if exists|i: int| 0 <= i < self.ports@.len() && self.ports@[i].port == p => r
                    matches Err(PortlyError::PlatformError(m)) && m@ == simulated_port_message(p),
                _ => r matches Ok(v) && v@ == self.ports@,
            },
    {
        if let Some(error_port) = self.error_on_port {
            for i in 0..self.ports.len()
                invariant
                    self.error_on_port == Some(error_port),
                    forall|k: int| 0 <= k < i ==> self.ports@[k].port != error_port,
            {
                if self.ports[i].port == error_port {
                    let n = decimal_string(error_port as u64);
                    return Err(
                        PortlyError::PlatformError(concat2("Simulated error for port ", n.as_str())),
                    );
                }
            }
        }
        let mut v: Vec<RawPortInfo> = Vec::new();
        for i in 0..self.ports.len()
            invariant
                v@ == self.ports@.take(i as int),
        {
            v.push(self.ports[i]);
            assert(self.ports@.take(i + 1) =~= self.ports@.take(i as int).push(self.ports@[i as int]));
        }
        assert(self.ports@.take(self.ports.len() as int) =~= self.ports@);
        Ok(v)
    }

    fn get_process_info(&self, pid: u32) -> (r: Result<ProcessInfo>)
        ensures
            self.error_on_pid == Some(pid) ==> (r matches Err(e) && is_simulated_pid_error(e, pid)),
            self.error_on_pid != Some(pid) ==> match recorded_process(self.processes@, pid) {
                Some(info) => r matches Ok(i) && i@ == info,
                None => r matches Err(e) && is_process_not_found(e, pid),
            },
    {
        if self.error_on_pid == Some(pid) {
            return Err(simulated_pid_error(pid));
        }
        match find_last(&self.processes, pid) {
            Some(i) => Ok(self.processes[i].1.copy()),
            None => Err(process_not_found(pid)),
        }
    }

    fn get_process_tree(&self, pid: u32) -> (r: Result<Vec<ProcessNode>>)
        ensures
            self.error_on_pid == Some(pid) ==> (r matches Err(e) && is_simulated_pid_error(e, pid)),
            self.error_on_pid != Some(pid) ==> match recorded_tree(self.process_trees@, pid) {
                Some(tree) => r matches Ok(t) && node_views(t@) == tree,
                None => r matches Err(e) && is_process_not_found(e, pid),
            },
    {
        if self.error_on_pid == Some(pid) {
            return Err(simulated_pid_error(pid));
        }
        match find_last(&self.process_trees, pid) {
            Some(i) => {
                let src = &self.process_trees[i].1;
                let mut t: Vec<ProcessNode> = Vec::new();
                for k in 0..src.len()
                    invariant
                        t@.len() == k,
                        node_views(t@) == node_views(src@.take(k as int)),
                {
                    let ghost before = t@;
                    let node = src[k].copy();
                    t.push(node);
                    assert(src@.take(k + 1) =~= src@.take(k as int).push(src@[k as int]));
                    assert(node_views(t@) =~= node_views(before).push(node@));
                    assert(node_views(src@.take(k + 1)) =~= node_views(src@.take(k as int)).push(src@[k as int]@));
                }
                assert(src@.take(src.len() as int) =~= src@);
                Ok(t)
            },
            None => Err(process_not_found(pid)),
        }
    }

    fn kill_process(&mut self, pid: u32, force: bool) -> (r: Result<()>)
        ensures
            old(self).error_on_pid == Some(pid) ==> (r matches Err(e) && is_simulated_pid_error(e, pid)),
            old(self).error_on_pid == Some(pid) ==> final(self).kill_calls == old(self).kill_calls,
            old(self).error_on_pid != Some(pid) && recorded_process(old(self).processes@, pid) is None
                ==> (r matches Err(e) && is_process_not_found(e, pid)),
            old(self).error_on_pid != Some(pid) && recorded_process(old(self).processes@, pid) is None
                ==> final(self).kill_calls == old(self).kill_calls,
            old(self).error_on_pid != Some(pid) && recorded_process(old(self).processes@, pid) is Some
                ==> r is Ok,
            old(self).error_on_pid != Some(pid) && recorded_process(old(self).processes@, pid) is Some
                ==> final(self).kill_calls@ == old(self).kill_calls@.push((pid, force)),
            final(self).ports == old(self).ports,
            final(self).processes == old(self).processes,
            final(self).process_trees == old(self).process_trees,
            final(self).files == old(self).files,
            final(self).error_on_port == old(self).error_on_port,
            final(self).error_on_pid == old(self).error_on_pid,
    {
        if self.error_on_pid == Some(pid) {
            return Err(simulated_pid_error(pid));
        }
        match find_last(&self.processes, pid) {
            Some(_) => {
                self.kill_calls.push((pid, force));
                Ok(())
            },
            None => Err(process_not_found(pid)),
        }
    }

    fn get_all_processes(&self) -> (r: Result<Vec<ProcessInfo>>)
        ensures
            r matches Ok(v) && process_views(v@) == latest_entries(
                self.processes@,
                self.processes@.len() as int,
            ),
    {
        let mut v: Vec<ProcessInfo> = Vec::new();
        for i in 0..self.processes.len()
            invariant
                process_views(v@) == latest_entries(self.processes@, i as int),
        {
            let pid = self.processes[i].0;
            let keep = match find_last(&self.processes, pid) {
                Some(j) => j == i,
                None => false,
            };
            proof {
                lemma_last_index_bounds(self.processes@, pid);
            }
            if keep {
                let ghost before = v@;
                let info = self.processes[i].1.copy();
                v.push(info);
                assert(v@ =~= before.push(info));
                assert(process_views(v@) =~= process_views(before).push(info@));
            }
        }
        Ok(v)
    }

    fn path_exists(&self, path: &str) -> (r: bool)
        ensures
            r == exists|i: int| 0 <= i < self.files@.len() && self.files@[i].0@ == path@,
    {
        for i in 0..self.files.len()
            invariant
                forall|k: int| 0 <= k < i ==> self.files@[k].0@ != path@,
        {
            if str_eq(self.files[i].0.as_str(), path) {
                return true;
            }
        }
        false
    }

    fn read_to_string(&self, path: &str) -> (r: Option<String>)
        ensures
            r matches Some(t) ==> exists|i: int|
                0 <= i < self.files@.len() && self.files@[i].0@ == path@ && self.files@[i].1@
                    == t@ && forall|j: int|
                    i < j < self.files@.len() ==> self.files@[j].0@ != path@,
            r is None ==> forall|i: int| 0 <= i < self.files@.len() ==> self.files@[i].0@ != path@,
    {
        let mut i = self.files.len();
        while i > 0
            invariant
                i <= self.files.len(),
                forall|j: int| i <= j < self.files@.len() ==> self.files@[j].0@ != path@,
            decreases i,
        {
            if str_eq(self.files[i - 1].0.as_str(), path) {
                return Some(self.files[i - 1].1.clone());
            }
            i = i - 1;
        }
        None
    }
}

} // verus!

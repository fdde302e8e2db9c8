//! The records that describe processes and the ports they listen on.
use vstd::prelude::*;

verus! {

/// Process status indicator.
#[derive(Debug, Clone, Copy, PartialEq, Eq, Structural)]
pub enum ProcessStatus {
    Healthy,
    Orphaned,
    Zombie,
}

/// Basic process information.
///
/// `cpu_percent_bits` holds the bit pattern of the `f32` CPU share that the
/// operating system reports (`f32::to_bits`); the library carries it along
/// and never computes with it. `start_time` counts seconds since the Unix
/// epoch.
#[derive(Debug, Clone, PartialEq)]
pub struct ProcessInfo {
    pub pid: u32,
    pub name: String,
    pub command: String,
    pub status: ProcessStatus,
    pub memory_kb: u64,
    pub cpu_percent_bits: u32,
    pub start_time: Option<u64>,
    pub working_dir: Option<String>,
}

/// The view of an optional string.
pub open spec fn opt_view(s: Option<String>) -> Option<Seq<char>> {
    match s {
        Some(v) => Some(v@),
        None => None,
    }
}

/// A copy of an optional string.
pub fn copy_opt(s: &Option<String>) -> (r: Option<String>)
    ensures
        opt_view(r) == opt_view(*s),
{
    match s {
        Some(v) => Some(v.clone()),
        None => None,
    }
}

/// The mathematical content of a [`ProcessInfo`].
pub struct ProcessInfoView {
    pub pid: u32,
    pub name: Seq<char>,
    pub command: Seq<char>,
    pub status: ProcessStatus,
    pub memory_kb: u64,
    pub cpu_percent_bits: u32,
    pub start_time: Option<u64>,
    pub working_dir: Option<Seq<char>>,
}

impl View for ProcessInfo {
    type V = ProcessInfoView;

    open spec fn view(&self) -> ProcessInfoView {
        ProcessInfoView {
            pid: self.pid,
            name: self.name@,
            command: self.command@,
            status: self.status,
            memory_kb: self.memory_kb,
            cpu_percent_bits: self.cpu_percent_bits,
            start_time: self.start_time,
            working_dir: opt_view(self.working_dir),
        }
    }
}

impl ProcessInfo {
    /// A field-by-field copy.
    pub fn copy(&self) -> (r: ProcessInfo)
        ensures
            r@ == self@,
    {
        ProcessInfo {
            pid: self.pid,
            name: self.name.clone(),
            command: self.command.clone(),
            status: self.status,
            memory_kb: self.memory_kb,
            cpu_percent_bits: self.cpu_percent_bits,
            start_time: self.start_time,
            working_dir: copy_opt(&self.working_dir),
        }
    }
}

/// Process tree node.
#[derive(Debug, Clone, PartialEq)]
pub struct ProcessNode {
    pub pid: u32,
    pub ppid: u32,
    pub name: String,
}

/// The mathematical content of a [`ProcessNode`].
pub struct ProcessNodeView {
    pub pid: u32,
    pub ppid: u32,
    pub name: Seq<char>,
}

impl View for ProcessNode {
    type V = ProcessNodeView;

    open spec fn view(&self) -> ProcessNodeView {
        ProcessNodeView { pid: self.pid, ppid: self.ppid, name: self.name@ }
    }
}

impl ProcessNode {
    /// A field-by-field copy.
    pub fn copy(&self) -> (r: ProcessNode)
        ensures
            r@ == self@,
    {
        ProcessNode { pid: self.pid, ppid: self.ppid, name: self.name.clone() }
    }
}

/// Raw port information from platform.
#[derive(Debug, Clone, Copy, PartialEq, Eq, Structural)]
pub struct RawPortInfo {
    pub port: u16,
    pub pid: u32,
}

/// Enriched port information with process details.
#[derive(Debug, Clone, PartialEq, Eq)]
pub struct PortInfo {
    pub port: u16,
    pub pid: u32,
    pub process_name: String,
    pub status: ProcessStatus,
    pub framework: Option<String>,
    pub project_name: Option<String>,
}

/// The mathematical content of a [`PortInfo`].
pub struct PortInfoView {
    pub port: u16,
    pub pid: u32,
    pub process_name: Seq<char>,
    pub status: ProcessStatus,
    pub framework: Option<Seq<char>>,
    pub project_name: Option<Seq<char>>,
}

impl View for PortInfo {
    type V = PortInfoView;

    open spec fn view(&self) -> PortInfoView {
        PortInfoView {
            port: self.port,
            pid: self.pid,
            process_name: self.process_name@,
            status: self.status,
            framework: opt_view(self.framework),
            project_name: opt_view(self.project_name),
        }
    }
}

impl PortInfo {
    /// A field-by-field copy.
    pub fn copy(&self) -> (r: PortInfo)
        ensures
            r@ == self@,
    {
        PortInfo {
            port: self.port,
            pid: self.pid,
            process_name: self.process_name.clone(),
            status: self.status,
            framework: copy_opt(&self.framework),
            project_name: copy_opt(&self.project_name),
        }
    }
}

} // verus!

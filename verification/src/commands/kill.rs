//! Killing processes by port or PID: resolving the targets, killing them,
//! and the lines that report it.
use vstd::prelude::*;

use crate::colors::{FrameworkColor, colorize_if, shown};
use crate::details::{is_affirmative, spec_is_affirmative};
use crate::platform::{Platform, PlatformCall};
use crate::process::{PortInfo, PortInfoView, ProcessInfo, ProcessInfoView, opt_view};
use crate::scanner::{Scanner, port_lookup};
use crate::text::{
    chars_of, concat2, decimal_chars, extend_chars, extend_str, parse_u32, spec_decimal,
    spec_parse_u32, string_of,
};

verus! {

/// What a target names: a port (with the PID listening on it) or a PID.
#[derive(Debug, Clone, Copy, PartialEq, Eq, Structural)]
pub enum KillTarget {
    Port(u16, u32),
    Pid(u32),
}

/// A target resolved to a process.
#[derive(Debug, Clone)]
pub struct ResolvedTarget {
    pub target: String,
    pub kill_target: KillTarget,
    pub process_name: String,
}

/// What a target resolved to.
#[derive(Debug, Clone)]
pub enum Resolution {
    Resolved(ResolvedTarget),
    NotFound(u32),
}

/// The outcome of killing one target.
#[derive(Debug, Clone)]
pub struct KillResult {
    pub target: String,
    pub pid: u32,
    pub success: bool,
    pub error: Option<String>,
}

/// The PID a kill target kills.
pub open spec fn target_pid(t: KillTarget) -> u32 {
    match t {
        KillTarget::Port(_, pid) => pid,
        KillTarget::Pid(pid) => pid,
    }
}

/// The message for a target that is not a number.
pub open spec fn invalid_target_message(target: Seq<char>) -> Seq<char> {
    "Invalid target: "@ + target
}

/// `r` is how the numeric target `target` (the number `n`) resolves, given
/// the entry a port lookup found for it (`port`, looked at only when `n` can
/// be a port) and what the platform said of `n` as a PID (`process`): the
/// port's entry when there is one, else the process when the platform knows
/// it, else not found.
pub open spec fn is_resolution(
    r: Resolution,
    target: Seq<char>,
    n: u32,
    port: Option<PortInfoView>,
    process: Option<ProcessInfoView>,
) -> bool {
    if n <= 65535 && port is Some {
        r matches Resolution::Resolved(t) && t.target@ == target && t.kill_target
            == KillTarget::Port(n as u16, port->Some_0.pid) && t.process_name@
            == port->Some_0.process_name
    } else if process is Some {
        r matches Resolution::Resolved(t) && t.target@ == target && t.kill_target == KillTarget::Pid(
            n,
        ) && t.process_name@ == process->Some_0.name
    } else {
        r == Resolution::NotFound(n)
    }
}

/// The view of a found port entry.
pub open spec fn port_answer(port: Option<PortInfo>) -> Option<PortInfoView> {
    match port {
        Some(p) => Some(p@),
        None => None,
    }
}

/// The view of a found process.
pub open spec fn process_answer(process: Option<ProcessInfo>) -> Option<ProcessInfoView> {
    match process {
        Some(i) => Some(i@),
        None => None,
    }
}

/// How the numeric target `target` (the number `n`) resolves, given the
/// entry a port lookup found for it and what the platform said of `n` as a
/// PID.
pub fn resolution_from(
    target: &str,
    n: u32,
    port: Option<PortInfo>,
    process: Option<ProcessInfo>,
) -> (r: Resolution)
    ensures
        is_resolution(
            r,
            target@,
            n,
            port_answer(port),
            process_answer(process),
        ),
{
    if n <= 65535 {
        if let Some(port_info) = port {
            return Resolution::Resolved(
                ResolvedTarget {
                    target: String::from_str(target),
                    kill_target: KillTarget::Port(n as u16, port_info.pid),
                    process_name: port_info.process_name,
                },
            );
        }
    }
    match process {
        Some(info) => Resolution::Resolved(
            ResolvedTarget {
                target: String::from_str(target),
                kill_target: KillTarget::Pid(n),
                process_name: info.name,
            },
        ),
        None => Resolution::NotFound(n),
    }
}

/// A resolution of `target` took the scanner's record from `before`
/// through `mid` to `after` and gave `res`: a number up to 65535 was looked
/// up as a port (finding `port`); when nothing was found the platform was
/// asked for the process with that PID (answering `process`); and `res` is
/// the resolution for those answers.
pub open spec fn resolved_via(
    before: Seq<PlatformCall>,
    mid: Seq<PlatformCall>,
    after: Seq<PlatformCall>,
    docker: Map<u16, (Seq<char>, Seq<char>)>,
    target: Seq<char>,
    port: Option<PortInfoView>,
    process: Option<ProcessInfoView>,
    res: Resolution,
) -> bool {
    let n = spec_parse_u32(target)->Some_0;
    &&& if n <= 65535 {
        port_lookup(before, mid, n as u16, docker, port)
    } else {
        mid == before && port is None
    }
    &&& if port is Some {
        after == mid && process is None
    } else {
        after == mid.push(PlatformCall::Process(n, process))
    }
    &&& is_resolution(res, target, n, port, process)
}

/// A resolution of `target` took the scanner's record from `before` to
/// `after` and gave `res` (see `resolved_via`).
pub open spec fn resolved_step(
    before: Seq<PlatformCall>,
    after: Seq<PlatformCall>,
    docker: Map<u16, (Seq<char>, Seq<char>)>,
    target: Seq<char>,
    res: Resolution,
) -> bool {
    exists|mid: Seq<PlatformCall>, port: Option<PortInfoView>, process: Option<ProcessInfoView>|
        #[trigger] resolved_via(before, mid, after, docker, target, port, process, res)
}

/// `records` are the scanner's records around resolving the first
/// `res.len()` targets in turn, and `res` what each resolved to.
pub open spec fn resolution_chain(
    records: Seq<Seq<PlatformCall>>,
    docker: Map<u16, (Seq<char>, Seq<char>)>,
    targets: Seq<Seq<char>>,
    res: Seq<Resolution>,
) -> bool {
    &&& records.len() == res.len() + 1
    &&& res.len() <= targets.len()
    &&& forall|i: int|
        0 <= i < res.len() ==> #[trigger] resolved_step(
            records[i],
            records[i + 1],
            docker,
            targets[i],
            res[i],
        )
}

/// The targets were resolved one after another, from the record `before`
/// to `after`, giving `res`.
pub open spec fn resolved_in_order(
    before: Seq<PlatformCall>,
    after: Seq<PlatformCall>,
    docker: Map<u16, (Seq<char>, Seq<char>)>,
    targets: Seq<Seq<char>>,
    res: Seq<Resolution>,
) -> bool {
    exists|records: Seq<Seq<PlatformCall>>|
        #[trigger] resolution_chain(records, docker, targets, res) && records[0] == before
            && records.last() == after
}

/// The views of a list of targets.
pub open spec fn target_views(targets: Seq<String>) -> Seq<Seq<char>> {
    targets.map_values(|t: String| t@)
}

/// The index of the first target that is not a number, if any.
pub open spec fn first_invalid(targets: Seq<Seq<char>>, k: int) -> bool {
    &&& 0 <= k < targets.len()
    &&& spec_parse_u32(targets[k]) is None
    &&& forall|j: int| 0 <= j < k ==> spec_parse_u32(#[trigger] targets[j]) is Some
}

/// Resolve one target of the kill command. A target that is not a decimal
/// `u32` is refused. A number up to 65535 is first looked up as a port (a
/// scan with system processes); when no entry has that port, or the number
/// is larger, the platform is asked for the process with that PID. The
/// answers decide as `resolution_from` states.
pub fn resolve_target<P: Platform>(scanner: &mut Scanner<P>, target: &str) -> (r: Result<
    Resolution,
    String,
>)
    ensures
        final(scanner).containers() == old(scanner).containers(),
        r is Err <==> spec_parse_u32(target@) is None,
        r matches Err(m) ==> m@ == invalid_target_message(target@) && final(scanner).calls()
            == old(scanner).calls(),
        r matches Ok(res) ==> resolved_step(
            old(scanner).calls(),
            final(scanner).calls(),
            old(scanner).containers(),
            target@,
            res,
        ),
{
    let chars = chars_of(target);
    let n = match parse_u32(&chars) {
        Some(n) => n,
        None => {
            return Err(concat2("Invalid target: ", target));
        },
    };
    let ghost before = scanner.calls();
    let mut port: Option<PortInfo> = None;
    if n <= 65535 {
        port = match scanner.get_port_details(n as u16) {
            Ok(port_info) => Some(port_info),
            Err(_) => None,
        };
    }
    let ghost mid = scanner.calls();
    let ghost found = port_answer(port);
    let process = if port.is_some() {
        None
    } else {
        match scanner.get_process_info_by_pid(n) {
            Ok(info) => Some(info),
            Err(_) => None,
        }
    };
        let res = resolution_from(target, n, port, process);
    assert(resolved_via(
        before,
        mid,
        scanner.calls(),
        old(scanner).containers(),
        target@,
        found,
        process_answer(process),
        res,
    ));
    Ok(res)
}

/// Resolve the targets of the kill command in order, before anything is
/// killed. The first target that is not a number stops the resolution
/// with its message (the targets before it have been looked up); otherwise
/// each target gets its resolution, in order.
pub fn resolve_targets<P: Platform>(scanner: &mut Scanner<P>, targets: &Vec<String>) -> (r: Result<
    Vec<Resolution>,
    String,
>)
    ensures
        final(scanner).containers() == old(scanner).containers(),
        r is Err <==> exists|k: int|
            0 <= k < targets@.len() && spec_parse_u32(#[trigger] target_views(targets@)[k]) is None,
        r matches Ok(v) ==> v@.len() == targets@.len() && resolved_in_order(
            old(scanner).calls(),
            final(scanner).calls(),
            old(scanner).containers(),
            target_views(targets@),
            v@,
        ),
        r matches Err(m) ==> exists|k: int, res: Seq<Resolution>|
            #[trigger] first_invalid(target_views(targets@), k) && m@ == invalid_target_message(
                target_views(targets@)[k],
            ) && res.len() == k && #[trigger] resolved_in_order(
                old(scanner).calls(),
                final(scanner).calls(),
                old(scanner).containers(),
                target_views(targets@),
                res,
            ),
{
    let ghost tv = target_views(targets@);
    let ghost docker = scanner.containers();
    let ghost mut records: Seq<Seq<PlatformCall>> = seq![scanner.calls()];
    let mut out: Vec<Resolution> = Vec::new();
    let mut i: usize = 0;
    while i < targets.len()
        invariant
            i <= targets@.len(),
            tv == target_views(targets@),
            docker == old(scanner).containers(),
            scanner.containers() == docker,
            out@.len() == i,
            resolution_chain(records, docker, tv, out@),
            records[0] == old(scanner).calls(),
            records.last() == scanner.calls(),
            forall|j: int| 0 <= j < i ==> spec_parse_u32(#[trigger] tv[j]) is Some,
        decreases targets@.len() - i,
    {
        let ghost before = scanner.calls();
        assert(tv[i as int] == targets@[i as int]@);
        match resolve_target(scanner, targets[i].as_str()) {
            Ok(res) => {
                let ghost prev = out@;
                out.push(res);
                proof {
                    let next = records.push(scanner.calls());
                    assert forall|j: int| 0 <= j < out@.len() implies #[trigger] resolved_step(
                        next[j],
                        next[j + 1],
                        docker,
                        tv[j],
                        out@[j],
                    ) by {
                        if j < i {
                            assert(out@[j] == prev[j]);
                            assert(resolved_step(records[j], records[j + 1], docker, tv[j], prev[j]));
                        }
                    }
                    records = next;
                }
                i = i + 1;
            },
            Err(m) => {
                proof {
                    assert(first_invalid(tv, i as int));
                    assert(resolved_in_order(old(scanner).calls(), scanner.calls(), docker, tv, out@));
                }
                return Err(m);
            },
        }
    }
    proof {
        assert forall|k: int| 0 <= k < targets@.len() implies spec_parse_u32(
            #[trigger] target_views(targets@)[k],
        ) is Some by {
            assert(tv[k] == target_views(targets@)[k]);
        }
    }
    Ok(out)
}

/// Kill each resolved target in order, forcefully when `force`: the PID
/// and outcome of each kill.
pub fn kill_resolved<P: Platform>(
    scanner: &mut Scanner<P>,
    resolved: &Vec<ResolvedTarget>,
    force: bool,
) -> (r: Vec<(u32, crate::error::Result<()>)>)
    ensures
        final(scanner).containers() == old(scanner).containers(),
        r@.len() == resolved@.len(),
        forall|i: int| 0 <= i < r@.len() ==> (#[trigger] r@[i]).0 == target_pid(resolved@[i].kill_target),
        final(scanner).calls() == old(scanner).calls() + Seq::new(
            resolved@.len(),
            |i: int| PlatformCall::Kill(target_pid(resolved@[i].kill_target), force, r@[i].1 is Ok),
        ),
{
    let mut out: Vec<(u32, crate::error::Result<()>)> = Vec::new();
    for i in 0..resolved.len()
        invariant
            scanner.containers() == old(scanner).containers(),
            out@.len() == i,
            forall|k: int| 0 <= k < i ==> (#[trigger] out@[k]).0 == target_pid(resolved@[k].kill_target),
            scanner.calls() == old(scanner).calls() + Seq::new(
                i as nat,
                |k: int| PlatformCall::Kill(target_pid(resolved@[k].kill_target), force, out@[k].1 is Ok),
            ),
    {
        let outcome = kill_target(scanner, &resolved[i], force);
        out.push(outcome);
        assert(scanner.calls() =~= old(scanner).calls() + Seq::new(
            (i + 1) as nat,
            |k: int| PlatformCall::Kill(target_pid(resolved@[k].kill_target), force, out@[k].1 is Ok),
        ));
    }
    out
}

/// Whether the kill command asks for confirmation before killing: unless
/// `--force` is given or the output is JSON.
pub fn kill_needs_confirmation(force: bool, json: bool) -> (r: bool)
    ensures
        r == (!force && !json),
{
    !force && !json
}

/// Whether the kill command goes on to kill the resolved targets: at once
/// with `--force` or JSON output, else when the user's `answer` to the
/// confirmation accepts.
pub fn kill_proceeds(force: bool, json: bool, answer: Option<&str>) -> (r: bool)
    ensures
        r == (force || json || (answer matches Some(t) && spec_is_affirmative(t@))),
{
    if force || json {
        return true;
    }
    match answer {
        Some(t) => is_affirmative(t),
        None => false,
    }
}

/// Kill the process of a resolved target, forcefully when `force`.
pub fn kill_target<P: Platform>(scanner: &mut Scanner<P>, t: &ResolvedTarget, force: bool) -> (r: (
    u32,
    crate::error::Result<()>,
))
    ensures
        r.0 == target_pid(t.kill_target),
        final(scanner).containers() == old(scanner).containers(),
        final(scanner).calls() == old(scanner).calls().push(
            PlatformCall::Kill(target_pid(t.kill_target), force, r.1 is Ok),
        ),
{
    let pid = match t.kill_target {
        KillTarget::Port(_, pid) => pid,
        KillTarget::Pid(pid) => pid,
    };
    let outcome = scanner.kill_process(pid, force);
    (pid, outcome)
}

/// The record of one kill for the JSON report.
pub fn kill_result(t: &ResolvedTarget, pid: u32, outcome: &crate::error::Result<()>) -> (r: KillResult)
    ensures
        r.target@ == t.target@,
        r.pid == pid,
        r.success == outcome is Ok,
        match outcome {
            Ok(_) => r.error is None,
            Err(e) => r.error matches Some(m) && e.is_message(m@),
        },
{
    match outcome {
        Ok(_) => KillResult { target: t.target.clone(), pid, success: true, error: None },
        Err(e) => KillResult {
            target: t.target.clone(),
            pid,
            success: false,
            error: Some(e.message()),
        },
    }
}

/// The record of a target that named no port and no process.
pub fn not_found_result(target: &str, n: u32) -> (r: KillResult)
    ensures
        r.target@ == target@,
        r.pid == n,
        !r.success,
        r.error matches Some(m) && m@ == not_found_message(n),
{
    KillResult { target: String::from_str(target), pid: n, success: false, error: Some(not_found_text(n)) }
}

/// "Port or PID N not found".
pub open spec fn not_found_message(n: u32) -> Seq<char> {
    "Port or PID "@ + spec_decimal(n as nat) + " not found"@
}

/// The message for a target that named no port and no process.
pub fn not_found_text(n: u32) -> (r: String)
    ensures
        r@ == not_found_message(n),
{
    let mut v = chars_of("Port or PID ");
    let d = decimal_chars(n as u64);
    extend_chars(&mut v, &d);
    extend_str(&mut v, " not found");
    string_of(&v)
}

/// The line that lists a target before confirmation.
pub open spec fn listing_line(kill_target: KillTarget, process_name: Seq<char>) -> Seq<char> {
    match kill_target {
        KillTarget::Port(port, pid) => "  • :"@ + spec_decimal(port as nat) + " — "@ + process_name
            + " (PID "@ + spec_decimal(pid as nat) + ")"@,
        KillTarget::Pid(pid) => "  • "@ + process_name + " (PID "@ + spec_decimal(pid as nat)
            + ")"@,
    }
}

/// The line that lists a target before confirmation.
pub fn target_listing_line(t: &ResolvedTarget) -> (r: String)
    ensures
        r@ == listing_line(t.kill_target, t.process_name@),
{
    let mut v: Vec<char>;
    match t.kill_target {
        KillTarget::Port(port, pid) => {
            v = chars_of("  • :");
            let d = decimal_chars(port as u64);
            extend_chars(&mut v, &d);
            extend_str(&mut v, " — ");
            extend_str(&mut v, t.process_name.as_str());
            extend_str(&mut v, " (PID ");
            let p = decimal_chars(pid as u64);
            extend_chars(&mut v, &p);
            extend_str(&mut v, ")");
        },
        KillTarget::Pid(pid) => {
            v = chars_of("  • ");
            extend_str(&mut v, t.process_name.as_str());
            extend_str(&mut v, " (PID ");
            let p = decimal_chars(pid as u64);
            extend_chars(&mut v, &p);
            extend_str(&mut v, ")");
        },
    }
    assert(v@ =~= listing_line(t.kill_target, t.process_name@));
    string_of(&v)
}

/// "✓ Killed NAME (PID N)".
pub open spec fn killed_text(process_name: Seq<char>, pid: u32) -> Seq<char> {
    "✓ Killed "@ + process_name + " (PID "@ + spec_decimal(pid as nat) + ")"@
}

/// "✗ Failed to kill NAME (PID N): ERROR".
pub open spec fn failed_text(process_name: Seq<char>, pid: u32, error: Seq<char>) -> Seq<char> {
    "✗ Failed to kill "@ + process_name + " (PID "@ + spec_decimal(pid as nat) + "): "@ + error
}

/// The report of a successful kill, green unless `no_color`.
pub fn killed_message(process_name: &str, pid: u32, no_color: bool) -> (r: String)
    ensures
        shown(!no_color, r@, killed_text(process_name@, pid), FrameworkColor::Green),
{
    let mut v = chars_of("✓ Killed ");
    extend_str(&mut v, process_name);
    extend_str(&mut v, " (PID ");
    let d = decimal_chars(pid as u64);
    extend_chars(&mut v, &d);
    extend_str(&mut v, ")");
    assert(v@ =~= killed_text(process_name@, pid));
    let text = string_of(&v);
    colorize_if(text.as_str(), FrameworkColor::Green, !no_color)
}

/// The report of a failed kill, red unless `no_color`.
pub fn failed_message(process_name: &str, pid: u32, error: &str, no_color: bool) -> (r: String)
    ensures
        shown(!no_color, r@, failed_text(process_name@, pid, error@), FrameworkColor::Red),
{
    let mut v = chars_of("✗ Failed to kill ");
    extend_str(&mut v, process_name);
    extend_str(&mut v, " (PID ");
    let d = decimal_chars(pid as u64);
    extend_chars(&mut v, &d);
    extend_str(&mut v, "): ");
    extend_str(&mut v, error);
    assert(v@ =~= failed_text(process_name@, pid, error@));
    let text = string_of(&v);
    colorize_if(text.as_str(), FrameworkColor::Red, !no_color)
}

/// The confirmation question for `count` processes.
pub fn kill_prompt(count: usize) -> (r: String)
    ensures
        r@ == "\nKill "@ + spec_decimal(count as nat) + " process(es)? [y/N] "@,
{
    let mut v = chars_of("\nKill ");
    let d = decimal_chars(count as u64);
    extend_chars(&mut v, &d);
    extend_str(&mut v, " process(es)? [y/N] ");
    string_of(&v)
}

} // verus!

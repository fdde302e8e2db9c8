//! Cleaning up: finding orphaned and zombie processes on ports and
//! killing them.
use vstd::prelude::*;

use crate::colors::{FrameworkColor, paint};
use crate::details::{is_affirmative, spec_is_affirmative};
use crate::error::Result;
use crate::platform::{Platform, PlatformCall};
use crate::process::{PortInfo, PortInfoView, ProcessStatus};
use crate::scanner::{Scanner, port_views, scanned};
use crate::text::{chars_of, decimal_chars, extend_chars, extend_str, owned, spec_decimal, string_of};

verus! {

/// A status that marks a process for cleaning.
pub open spec fn needs_cleaning(s: ProcessStatus) -> bool {
    s == ProcessStatus::Orphaned || s == ProcessStatus::Zombie
}

/// The entries of a scan whose process is orphaned or a zombie, in order.
pub open spec fn spec_orphaned(s: Seq<PortInfoView>) -> Seq<PortInfoView> {
    s.filter(|p: PortInfoView| needs_cleaning(p.status))
}

/// The orphaned and zombie entries of a scan, in order.
pub fn orphaned_entries(ports: &Vec<PortInfo>) -> (r: Vec<PortInfo>)
    ensures
        port_views(r@) == spec_orphaned(port_views(ports@)),
{
    let ghost v = port_views(ports@);
    let mut r: Vec<PortInfo> = Vec::new();
    for i in 0..ports.len()
        invariant
            v == port_views(ports@),
            port_views(r@) == spec_orphaned(v.take(i as int)),
    {
        let p = &ports[i];
        proof {
            reveal(Seq::filter);
            assert(v.take(i + 1).drop_last() =~= v.take(i as int));
            assert(v.take(i + 1).last() == p@);
        }
        let clean = match p.status {
            ProcessStatus::Orphaned | ProcessStatus::Zombie => true,
            ProcessStatus::Healthy => false,
        };
        if clean {
            let ghost before = r@;
            r.push(p.copy());
            assert(port_views(r@) =~= port_views(before).push(p@));
        }
    }
    assert(v.take(ports@.len() as int) =~= v);
    r
}

/// The entries that the clean command would kill: the orphaned and zombie
/// entries of a scan that includes system processes.
pub fn clean_candidates<P: Platform>(scanner: &mut Scanner<P>) -> (r: Result<Vec<PortInfo>>)
    ensures
        final(scanner).containers() == old(scanner).containers(),
        match r {
            Ok(v) => exists|ports: Seq<PortInfoView>|
                scanned(
                    old(scanner).calls(),
                    final(scanner).calls(),
                    ports,
                    true,
                    old(scanner).containers(),
                ) && port_views(v@) == spec_orphaned(ports),
            Err(e) => final(scanner).calls() == old(scanner).calls().push(
                PlatformCall::Listening(Err(e)),
            ),
        },
{
    let ports = scanner.scan(true)?;
    let r = orphaned_entries(&ports);
    Ok(r)
}

/// The kills that cleaning `orphaned` asks for: each entry's PID, not
/// forced, in order, with whether it succeeded.
pub open spec fn orphan_kills(orphaned: Seq<PortInfo>, outcomes: Seq<Result<()>>) -> Seq<
    PlatformCall,
> {
    Seq::new(
        orphaned.len(),
        |i: int| PlatformCall::Kill(orphaned[i].pid, false, outcomes[i] is Ok),
    )
}

/// Kill every listed process (gracefully), in order; the outcome of each
/// kill and the number that succeeded.
pub fn kill_orphans<P: Platform>(scanner: &mut Scanner<P>, orphaned: &Vec<PortInfo>) -> (r: (
    usize,
    Vec<Result<()>>,
))
    ensures
        r.1@.len() == orphaned@.len(),
        r.0 == r.1@.filter(|o: Result<()>| o is Ok).len(),
        final(scanner).containers() == old(scanner).containers(),
        final(scanner).calls() == old(scanner).calls() + orphan_kills(orphaned@, r.1@),
{
    let mut killed: usize = 0;
    let mut outcomes: Vec<Result<()>> = Vec::new();
    for i in 0..orphaned.len()
        invariant
            outcomes@.len() == i,
            killed == outcomes@.filter(|o: Result<()>| o is Ok).len(),
            killed <= i,
            scanner.containers() == old(scanner).containers(),
            scanner.calls() == old(scanner).calls() + Seq::new(
                i as nat,
                |j: int| PlatformCall::Kill(orphaned@[j].pid, false, outcomes@[j] is Ok),
            ),
    {
        let ghost prev = scanner.calls();
        let outcome = scanner.kill_process(orphaned[i].pid, false);
        let ok = outcome.is_ok();
        let ghost before = outcomes@;
        outcomes.push(outcome);
        proof {
            reveal(Seq::filter);
            assert(outcomes@.drop_last() =~= before);
            assert(scanner.calls() =~= old(scanner).calls() + Seq::new(
                (i + 1) as nat,
                |j: int| PlatformCall::Kill(orphaned@[j].pid, false, outcomes@[j] is Ok),
            ));
        }
        if ok {
            killed = killed + 1;
        }
    }
    assert(scanner.calls() =~= old(scanner).calls() + orphan_kills(orphaned@, outcomes@));
    (killed, outcomes)
}

/// What the clean command does once it has found orphaned processes.
#[derive(Debug, Clone, Copy, PartialEq, Eq, Structural)]
pub enum CleanAction {
    /// List them only: the default, without `--execute`.
    DryRun,
    /// Kill them.
    Kill,
    /// The user declined the confirmation.
    Cancel,
}

/// Whether the clean command asks for confirmation before killing: with
/// `--execute`, unless the output is JSON.
pub fn clean_needs_confirmation(execute: bool, json: bool) -> (r: bool)
    ensures
        r == (execute && !json),
{
    execute && !json
}

/// What the clean command does with the orphans it found: without
/// `--execute` it only lists them; with it, JSON output kills at once, and
/// otherwise the user's `answer` to the confirmation decides.
pub fn clean_action(execute: bool, json: bool, answer: Option<&str>) -> (a: CleanAction)
    ensures
        a == if !execute {
            CleanAction::DryRun
        } else if json {
            CleanAction::Kill
        } else if answer matches Some(t) && spec_is_affirmative(t@) {
            CleanAction::Kill
        } else {
            CleanAction::Cancel
        },
{
    if !execute {
        return CleanAction::DryRun;
    }
    if json {
        return CleanAction::Kill;
    }
    match answer {
        Some(t) => if is_affirmative(t) {
            CleanAction::Kill
        } else {
            CleanAction::Cancel
        },
        None => CleanAction::Cancel,
    }
}

/// The name `{:?}` gives a status.
pub open spec fn status_name(s: ProcessStatus) -> Seq<char> {
    match s {
        ProcessStatus::Healthy => "Healthy"@,
        ProcessStatus::Orphaned => "Orphaned"@,
        ProcessStatus::Zombie => "Zombie"@,
    }
}

/// The name of a status, as the JSON report and plain listings give it.
pub fn status_debug_name(s: ProcessStatus) -> (r: String)
    ensures
        r@ == status_name(s),
{
    match s {
        ProcessStatus::Healthy => owned("Healthy"),
        ProcessStatus::Orphaned => owned("Orphaned"),
        ProcessStatus::Zombie => owned("Zombie"),
    }
}

/// The status shown in a listing: its name without colors, and with colors
/// "orphaned" in yellow or "zombie" in red.
pub open spec fn status_shown_in_listing(r: Seq<char>, s: ProcessStatus, no_color: bool) -> bool {
    if no_color {
        r == status_name(s)
    } else {
        match s {
            ProcessStatus::Orphaned => crate::colors::is_rendering(
                r,
                "orphaned"@,
                FrameworkColor::Yellow,
            ),
            ProcessStatus::Zombie => crate::colors::is_rendering(r, "zombie"@, FrameworkColor::Red),
            ProcessStatus::Healthy => r == status_name(s),
        }
    }
}

/// The line that lists an orphaned entry.
pub open spec fn orphan_line_text(p: PortInfoView, status_text: Seq<char>) -> Seq<char> {
    "  • :"@ + spec_decimal(p.port as nat) + " — "@ + p.process_name + " (PID "@ + spec_decimal(
        p.pid as nat,
    ) + ") ["@ + status_text + "]"@
}

/// The line that lists an orphaned or zombie entry.
pub fn orphan_line(p: &PortInfo, no_color: bool) -> (r: String)
    ensures
        exists|t: Seq<char>| status_shown_in_listing(t, p.status, no_color) && r@ == orphan_line_text(p@, t),
{
    let status_text = if no_color {
        status_debug_name(p.status)
    } else {
        match p.status {
            ProcessStatus::Orphaned => paint("orphaned", FrameworkColor::Yellow),
            ProcessStatus::Zombie => paint("zombie", FrameworkColor::Red),
            ProcessStatus::Healthy => status_debug_name(p.status),
        }
    };
    let mut v = chars_of("  • :");
    let d = decimal_chars(p.port as u64);
    extend_chars(&mut v, &d);
    extend_str(&mut v, " — ");
    extend_str(&mut v, p.process_name.as_str());
    extend_str(&mut v, " (PID ");
    let q = decimal_chars(p.pid as u64);
    extend_chars(&mut v, &q);
    extend_str(&mut v, ") [");
    extend_str(&mut v, status_text.as_str());
    extend_str(&mut v, "]");
    assert(v@ =~= orphan_line_text(p@, status_text@));
    assert(status_shown_in_listing(status_text@, p.status, no_color));
    string_of(&v)
}

/// The summary after killing: "\nKilled K/N process(es).".
pub fn killed_summary(killed: usize, found: usize) -> (r: String)
    ensures
        r@ == "\nKilled "@ + spec_decimal(killed as nat) + "/"@ + spec_decimal(found as nat)
            + " process(es)."@,
{
    let mut v = chars_of("\nKilled ");
    let k = decimal_chars(killed as u64);
    extend_chars(&mut v, &k);
    extend_str(&mut v, "/");
    let f = decimal_chars(found as u64);
    extend_chars(&mut v, &f);
    extend_str(&mut v, " process(es).");
    string_of(&v)
}

/// The heading of the listing: "Found N orphaned/zombie process(es):".
pub fn found_heading(found: usize) -> (r: String)
    ensures
        r@ == "Found "@ + spec_decimal(found as nat) + " orphaned/zombie process(es):"@,
{
    let mut v = chars_of("Found ");
    let f = decimal_chars(found as u64);
    extend_chars(&mut v, &f);
    extend_str(&mut v, " orphaned/zombie process(es):");
    string_of(&v)
}

/// The confirmation question: "\nKill all N process(es)? [y/N] ".
pub fn clean_prompt(found: usize) -> (r: String)
    ensures
        r@ == "\nKill all "@ + spec_decimal(found as nat) + " process(es)? [y/N] "@,
{
    let mut v = chars_of("\nKill all ");
    let f = decimal_chars(found as u64);
    extend_chars(&mut v, &f);
    extend_str(&mut v, " process(es)? [y/N] ");
    string_of(&v)
}

} // verus!

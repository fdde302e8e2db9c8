//! Watch mode: the ports that opened and closed between two scans.
use vstd::prelude::*;

use crate::process::{PortInfo, PortInfoView};
use crate::scanner::port_views;

verus! {

/// The distinct ports of a scan, in the order they first appear.
pub open spec fn distinct_ports(s: Seq<PortInfoView>) -> Seq<u16>
    decreases s.len(),
{
    if s.len() == 0 {
        seq![]
    } else {
        let d = distinct_ports(s.drop_last());
        if d.contains(s.last().port) {
            d
        } else {
            d.push(s.last().port)
        }
    }
}

/// The elements of `a` that are not in `b`, in order.
pub open spec fn difference(a: Seq<u16>, b: Seq<u16>) -> Seq<u16> {
    a.filter(|x: u16| !b.contains(x))
}

/// The first entry of a scan for `port`, if any.
pub open spec fn first_entry(s: Seq<PortInfoView>, port: u16) -> Option<PortInfoView>
    decreases s.len(),
{
    if s.len() == 0 {
        None
    } else if s[0].port == port {
        Some(s[0])
    } else {
        first_entry(s.skip(1), port)
    }
}

proof fn lemma_distinct_ports_push(s: Seq<PortInfoView>, x: PortInfoView)
    ensures
        distinct_ports(s.push(x)) == if distinct_ports(s).contains(x.port) {
            distinct_ports(s)
        } else {
            distinct_ports(s).push(x.port)
        },
{
    assert(s.push(x).drop_last() =~= s);
}

proof fn lemma_distinct_ports_contains(s: Seq<PortInfoView>, port: u16)
    ensures
        distinct_ports(s).contains(port) <==> exists|i: int| 0 <= i < s.len() && s[i].port == port,
        distinct_ports(s).no_duplicates(),
    decreases s.len(),
{
    if s.len() > 0 {
        let t = s.drop_last();
        let x = s.last();
        lemma_distinct_ports_contains(t, port);
        let d = distinct_ports(t);
        let ds = distinct_ports(s);
        assert(ds == if d.contains(x.port) {
            d
        } else {
            d.push(x.port)
        });
        if ds.contains(port) {
            if d.contains(port) {
                let i = choose|i: int| 0 <= i < t.len() && t[i].port == port;
                assert(s[i].port == port);
            } else {
                assert(port == x.port);
                assert(s[s.len() - 1].port == port);
            }
        }
        if exists|i: int| 0 <= i < s.len() && s[i].port == port {
            let i = choose|i: int| 0 <= i < s.len() && s[i].port == port;
            if i < s.len() - 1 {
                assert(t[i].port == port);
                assert(d.contains(port));
                if !d.contains(x.port) {
                    let k = choose|k: int| 0 <= k < d.len() && d[k] == port;
                    assert(ds[k] == port);
                }
            } else {
                if !d.contains(x.port) {
                    assert(ds[d.len() as int] == port);
                }
            }
            assert(ds.contains(port));
        }
        if !d.contains(x.port) {
            assert forall|a: int, b: int| 0 <= a < b < ds.len() implies ds[a] != ds[b] by {
                if b == d.len() {
                    assert(d.contains(d[a]));
                }
            }
        }
    }
}

/// The distinct ports of a scan, in the order they first appear.
pub fn port_set(ports: &Vec<PortInfo>) -> (r: Vec<u16>)
    ensures
        r@ == distinct_ports(port_views(ports@)),
        r@.no_duplicates(),
        forall|port: u16|
            r@.contains(port) <==> exists|i: int| 0 <= i < ports@.len() && ports@[i].port == port,
{
    let ghost v = port_views(ports@);
    let mut r: Vec<u16> = Vec::new();
    for i in 0..ports.len()
        invariant
            v == port_views(ports@),
            r@ == distinct_ports(v.take(i as int)),
    {
        let port = ports[i].port;
        let mut seen = false;
        for j in 0..r.len()
            invariant
                seen <==> exists|k: int| 0 <= k < j && r@[k] == port,
        {
            if r[j] == port {
                seen = true;
            }
        }
        assert(v.take(i + 1) =~= v.take(i as int).push(v[i as int]));
        proof {
            lemma_distinct_ports_push(v.take(i as int), v[i as int]);
            if seen {
                let k = choose|k: int| 0 <= k < r@.len() && r@[k] == port;
                assert(r@.contains(port));
            }
        }
        if !seen {
            r.push(port);
        }
    }
    assert(v.take(ports@.len() as int) =~= v);
    proof {
        assert forall|port: u16|
            r@.contains(port) <==> exists|i: int| 0 <= i < ports@.len() && ports@[i].port == port by {
            lemma_distinct_ports_contains(v, port);
            if exists|i: int| 0 <= i < ports@.len() && ports@[i].port == port {
                let i = choose|i: int| 0 <= i < ports@.len() && ports@[i].port == port;
                assert(v[i].port == port);
            }
            if exists|i: int| 0 <= i < v.len() && v[i].port == port {
                let i = choose|i: int| 0 <= i < v.len() && v[i].port == port;
                assert(ports@[i].port == port);
            }
        }
        lemma_distinct_ports_contains(v, 0);
    }
    r
}

/// The ports of `a` that are not in `b`, in order.
pub fn ports_not_in(a: &Vec<u16>, b: &Vec<u16>) -> (r: Vec<u16>)
    ensures
        r@ == difference(a@, b@),
        forall|x: u16| r@.contains(x) <==> a@.contains(x) && !b@.contains(x),
{
    let mut r: Vec<u16> = Vec::new();
    for i in 0..a.len()
        invariant
            r@ == difference(a@.take(i as int), b@),
    {
        let x = a[i];
        let mut found = false;
        for j in 0..b.len()
            invariant
                found <==> exists|k: int| 0 <= k < j && b@[k] == x,
        {
            if b[j] == x {
                found = true;
            }
        }
        proof {
            reveal(Seq::filter);
            assert(a@.take(i + 1).drop_last() =~= a@.take(i as int));
            if found {
                let k = choose|k: int| 0 <= k < b@.len() && b@[k] == x;
                assert(b@.contains(x));
            }
        }
        if !found {
            r.push(x);
        }
    }
    assert(a@.take(a@.len() as int) =~= a@);
    proof {
        assert forall|x: u16| r@.contains(x) <==> a@.contains(x) && !b@.contains(x) by {
            let pred = |y: u16| !b@.contains(y);
            if r@.contains(x) {
                a@.lemma_filter_contains_rev(pred, x);
                let k = choose|k: int| 0 <= k < r@.len() && r@[k] == x;
                a@.lemma_filter_pred(pred, k);
            }
            if a@.contains(x) && !b@.contains(x) {
                let k = choose|k: int| 0 <= k < a@.len() && a@[k] == x;
                a@.lemma_filter_contains(pred, k);
            }
        }
    }
    r
}

/// The first entry of a scan for `port`.
pub fn find_first(ports: &Vec<PortInfo>, port: u16) -> (r: Option<PortInfo>)
    ensures
        match r {
            Some(p) => first_entry(port_views(ports@), port) == Some(p@),
            None => first_entry(port_views(ports@), port) is None,
        },
{
    let ghost v = port_views(ports@);
    let mut i: usize = 0;
    assert(v.skip(0) =~= v);
    while i < ports.len()
        invariant
            i <= ports@.len(),
            v == port_views(ports@),
            first_entry(v, port) == first_entry(v.skip(i as int), port),
        decreases ports@.len() - i,
    {
        assert(v.skip(i as int)[0] == ports@[i as int]@);
        assert(v.skip(i as int).skip(1) =~= v.skip(i + 1));
        if ports[i].port == port {
            return Some(ports[i].copy());
        }
        i = i + 1;
    }
    assert(v.skip(i as int).len() == 0);
    None
}

/// What changed between two scans.
pub struct WatchChanges {
    /// The first entry for each port that is new, in scan order.
    pub opened: Vec<PortInfo>,
    /// The ports that are gone, in the order they were known.
    pub closed: Vec<u16>,
    /// The ports to compare the next scan with.
    pub current: Vec<u16>,
}

/// The first entries of a scan for the given ports, in order.
pub open spec fn entries_for(s: Seq<PortInfoView>, ports: Seq<u16>) -> Seq<PortInfoView> {
    ports.map_values(|port: u16| first_entry(s, port).unwrap())
}

/// Compare a scan with the ports known before it: the ports that opened
/// (with their first entry), the ports that closed, and the new set of
/// known ports.
pub fn watch_changes(previous: &Vec<u16>, scan: &Vec<PortInfo>) -> (r: WatchChanges)
    ensures
        r.current@ == distinct_ports(port_views(scan@)),
        r.closed@ == difference(previous@, r.current@),
        port_views(r.opened@) == entries_for(
            port_views(scan@),
            difference(r.current@, previous@),
        ),
{
    let current = port_set(scan);
    let new_ports = ports_not_in(&current, previous);
    let closed = ports_not_in(previous, &current);
    let mut opened: Vec<PortInfo> = Vec::new();
    let ghost target = entries_for(port_views(scan@), new_ports@);
    for i in 0..new_ports.len()
        invariant
            port_views(opened@) == target.take(i as int),
            target == entries_for(port_views(scan@), new_ports@),
            forall|x: u16| #![trigger new_ports@.contains(x)] new_ports@.contains(x) ==> current@.contains(x),
            forall|port: u16|
                current@.contains(port) <==> exists|k: int| 0 <= k < scan@.len() && scan@[k].port == port,
    {
        let port = new_ports[i];
        assert(new_ports@.contains(port));
        match find_first(scan, port) {
            Some(p) => {
                let ghost before = opened@;
                opened.push(p);
                assert(port_views(opened@) =~= port_views(before).push(p@));
                assert(target.take(i + 1) =~= target.take(i as int).push(target[i as int]));
            },
            None => {
                proof {
                    let k = choose|k: int| 0 <= k < scan@.len() && scan@[k].port == port;
                    lemma_first_entry_exists(port_views(scan@), port, k);
                }
            },
        }
    }
    assert(target.take(new_ports@.len() as int) =~= target);
    WatchChanges { opened, closed, current }
}

proof fn lemma_first_entry_exists(s: Seq<PortInfoView>, port: u16, k: int)
    requires
        0 <= k < s.len(),
        s[k].port == port,
    ensures
        first_entry(s, port) is Some,
    decreases k,
{
    if s[0].port != port {
        assert(s.skip(1)[k - 1] == s[k]);
        lemma_first_entry_exists(s.skip(1), port, k - 1);
    }
}

} // verus!

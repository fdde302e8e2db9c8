//! Docker containers by host port, and what their images and status lines
//! say.
use vstd::prelude::*;

use crate::framework::{names_view, opt_names_view};
use crate::process::opt_view;
use crate::text::{
    chars_of, concat2, contains_str, decimal_string, has_prefix, has_substring, owned, parse_u32,
    spec_decimal, spec_lowercase, spec_parse_u32, spec_words, split_whitespace, starts_with_str,
    string_of, to_lowercase, views,
};

use std::collections::HashMap;

verus! {

/// Docker container information.
#[derive(Debug, Clone)]
pub struct DockerContainer {
    pub name: String,
    pub image: String,
}

impl DockerContainer {
    /// A field-by-field copy.
    pub fn copy(&self) -> (r: DockerContainer)
        ensures
            r.name@ == self.name@,
            r.image@ == self.image@,
    {
        DockerContainer { name: self.name.clone(), image: self.image.clone() }
    }
}

/// A running container as the Docker API lists it: its names, its image
/// and the public (host) port of each of its port mappings.
pub struct ContainerSummary {
    pub names: Option<Vec<String>>,
    pub image: Option<String>,
    pub public_ports: Option<Vec<Option<u16>>>,
}

/// A name without its leading `/` characters.
pub open spec fn spec_trim_slashes(s: Seq<char>) -> Seq<char>
    decreases s.len(),
{
    if s.len() > 0 && s[0] == '/' {
        spec_trim_slashes(s.skip(1))
    } else {
        s
    }
}

/// The name a container is shown by: its first name without leading `/`,
/// or "unknown".
pub open spec fn container_name(names: Option<Seq<Seq<char>>>) -> Seq<char> {
    match names {
        Some(n) => if n.len() > 0 {
            spec_trim_slashes(n[0])
        } else {
            "unknown"@
        },
        None => "unknown"@,
    }
}

/// The image a container is shown by, or "unknown".
pub open spec fn container_image(image: Option<Seq<char>>) -> Seq<char> {
    match image {
        Some(i) => i,
        None => "unknown"@,
    }
}

/// The host ports of a container's port mappings: the public ports that are
/// set, in order.
pub open spec fn spec_host_ports(ports: Seq<Option<u16>>) -> Seq<u16>
    decreases ports.len(),
{
    if ports.len() == 0 {
        seq![]
    } else {
        let rest = spec_host_ports(ports.drop_last());
        match ports.last() {
            Some(p) => rest.push(p),
            None => rest,
        }
    }
}

/// The host ports of a container, none when it lists no mappings.
pub open spec fn summary_ports(ports: Option<Vec<Option<u16>>>) -> Seq<u16> {
    match ports {
        Some(p) => spec_host_ports(p@),
        None => seq![],
    }
}

/// The (port, (name, image)) entries that one container contributes.
pub open spec fn summary_entries(c: ContainerSummary) -> Seq<(u16, (Seq<char>, Seq<char>))> {
    let name = container_name(opt_names_view(c.names));
    let image = container_image(opt_view(c.image));
    summary_ports(c.public_ports).map_values(|p: u16| (p, (name, image)))
}

/// The entries of a list of containers, in order.
pub open spec fn all_entries(list: Seq<ContainerSummary>) -> Seq<(u16, (Seq<char>, Seq<char>))>
    decreases list.len(),
{
    if list.len() == 0 {
        seq![]
    } else {
        all_entries(list.drop_last()) + summary_entries(list.last())
    }
}

/// The map from host port to container that a list of entries gives:
/// when a port occurs twice, the later entry is kept.
pub open spec fn entries_map(entries: Seq<(u16, (Seq<char>, Seq<char>))>) -> Map<
    u16,
    (Seq<char>, Seq<char>),
>
    decreases entries.len(),
{
    if entries.len() == 0 {
        Map::empty()
    } else {
        entries_map(entries.drop_last()).insert(entries.last().0, entries.last().1)
    }
}

/// The container (name, image) published on a port, if any.
pub open spec fn entry_for(docker: Map<u16, (Seq<char>, Seq<char>)>, port: u16) -> Option<
    (Seq<char>, Seq<char>),
> {
    if docker.contains_key(port) {
        Some(docker[port])
    } else {
        None
    }
}

/// The (name, image) view of a container.
pub open spec fn container_view(c: DockerContainer) -> (Seq<char>, Seq<char>) {
    (c.name@, c.image@)
}

/// Containers by host port.
#[derive(Debug, Clone)]
pub struct DockerClient {
    containers: HashMap<u16, DockerContainer>,
}

impl View for DockerClient {
    type V = Map<u16, (Seq<char>, Seq<char>)>;

    closed spec fn view(&self) -> Map<u16, (Seq<char>, Seq<char>)> {
        self.containers@.map_values(|c: DockerContainer| container_view(c))
    }
}

/// The host ports of a container's port mappings (`public_port` of each
/// mapping that has one).
pub fn extract_host_ports(ports: &Vec<Option<u16>>) -> (r: Vec<u16>)
    ensures
        r@ == spec_host_ports(ports@),
{
    let mut r: Vec<u16> = Vec::new();
    for i in 0..ports.len()
        invariant
            r@ == spec_host_ports(ports@.take(i as int)),
    {
        assert(ports@.take(i + 1).drop_last() =~= ports@.take(i as int));
        assert(ports@.take(i + 1).last() == ports@[i as int]);
        if let Some(p) = ports[i] {
            r.push(p);
        }
    }
    assert(ports@.take(ports.len() as int) =~= ports@);
    r
}

fn trim_slashes(s: &String) -> (r: String)
    ensures
        r@ == spec_trim_slashes(s@),
{
    let v = chars_of(s.as_str());
    let mut start: usize = 0;
    assert(v@.skip(0) =~= v@);
    while start < v.len() && v[start] == '/'
        invariant
            start <= v.len(),
            spec_trim_slashes(v@) == spec_trim_slashes(v@.skip(start as int)),
        decreases v.len() - start,
    {
        assert(v@.skip(start as int).skip(1) =~= v@.skip(start + 1));
        start = start + 1;
    }
    let mut out: Vec<char> = Vec::new();
    let mut k = start;
    while k < v.len()
        invariant
            start <= k <= v.len(),
            out@ == v@.subrange(start as int, k as int),
        decreases v.len() - k,
    {
        out.push(v[k]);
        assert(v@.subrange(start as int, k + 1) =~= v@.subrange(start as int, k as int).push(
            v@[k as int],
        ));
        k = k + 1;
    }
    assert(out@ =~= v@.skip(start as int));
    string_of(&out)
}

impl DockerClient {
    /// A client that knows of no container (Docker unavailable).
    pub fn empty() -> (c: Self)
        ensures
            c@ == Map::<u16, (Seq<char>, Seq<char>)>::empty(),
    {
        let c = DockerClient { containers: HashMap::new() };
        assert(c@ =~= Map::<u16, (Seq<char>, Seq<char>)>::empty());
        c
    }

    /// The client for the containers that Docker lists: each host port of a
    /// container maps to its name and image; when two containers publish the
    /// same port, the later one is kept.
    pub fn from_containers(list: &Vec<ContainerSummary>) -> (c: Self)
        ensures
            c@ == entries_map(all_entries(list@)),
    {
        broadcast use vstd::std_specs::hash::group_hash_axioms;

        let mut containers: HashMap<u16, DockerContainer> = HashMap::new();
        assert(containers@.map_values(|c: DockerContainer| container_view(c)) =~= entries_map(
            all_entries(list@.take(0)),
        ));
        for i in 0..list.len()
            invariant
                containers@.map_values(|c: DockerContainer| container_view(c)) == entries_map(
                    all_entries(list@.take(i as int)),
                ),
        {
            let item = &list[i];
            let name = match &item.names {
                Some(names) => if names.len() > 0 {
                    trim_slashes(&names[0])
                } else {
                    owned("unknown")
                },
                None => owned("unknown"),
            };
            proof {
                if item.names is Some {
                    let names = item.names->0;
                    if names@.len() > 0 {
                        assert(names_view(names@)[0] == names@[0]@);
                    }
                }
            }
            let image = match &item.image {
                Some(image) => image.clone(),
                None => owned("unknown"),
            };
            let ports = match &item.public_ports {
                Some(p) => extract_host_ports(p),
                None => Vec::new(),
            };
            let ghost start = all_entries(list@.take(i as int));
            let ghost added = summary_entries(*item);
            assert(added.len() == ports@.len());
            for k in 0..ports.len()
                invariant
                    ports@.len() == added.len(),
                    forall|j: int|
                        0 <= j < added.len() ==> added[j] == (
                            ports@[j],
                            (name@, image@),
                        ),
                    containers@.map_values(|c: DockerContainer| container_view(c)) == entries_map(
                        start + added.take(k as int),
                    ),
            {
                let ghost before = containers@;
                let entry = DockerContainer { name: name.clone(), image: image.clone() };
                containers.insert(ports[k], entry);
                assert((start + added.take(k + 1)).drop_last() =~= start + added.take(k as int));
                assert((start + added.take(k + 1)).last() == added[k as int]);
                assert(containers@.map_values(|c: DockerContainer| container_view(c))
                    =~= before.map_values(|c: DockerContainer| container_view(c)).insert(
                    ports@[k as int],
                    (name@, image@),
                ));
            }
            assert(added.take(ports.len() as int) =~= added);
            assert(list@.take(i + 1).drop_last() =~= list@.take(i as int));
            assert(list@.take(i + 1).last() == *item);
        }
        assert(list@.take(list.len() as int) =~= list@);
        DockerClient { containers }
    }

    /// Get container information for a port.
    pub fn get_container_info(&self, port: u16) -> (r: Option<&DockerContainer>)
        ensures
            match r {
                Some(c) => entry_for(self@, port) == Some((c.name@, c.image@)),
                None => entry_for(self@, port) is None,
            },
    {
        broadcast use vstd::std_specs::hash::group_hash_axioms;

        self.containers.get(&port)
    }

    /// Detect framework from a Docker image name.
    pub fn detect_framework_from_image(image: &str) -> (r: Option<String>)
        ensures
            opt_view(r) == Some(spec_image_framework(image@)),
    {
        let lower = to_lowercase(image);
        let c = chars_of(lower.as_str());
        let name = if contains_str(&c, "postgres") {
            "PostgreSQL"
        } else if contains_str(&c, "redis") {
            "Redis"
        } else if contains_str(&c, "nginx") {
            "nginx"
        } else if contains_str(&c, "mongo") {
            "MongoDB"
        } else if contains_str(&c, "mysql") || contains_str(&c, "mariadb") {
            "MySQL"
        } else if contains_str(&c, "rabbitmq") {
            "RabbitMQ"
        } else if contains_str(&c, "localstack") {
            "LocalStack"
        } else if contains_str(&c, "elasticsearch") {
            "Elasticsearch"
        } else {
            "Docker"
        };
        Some(owned(name))
    }

    /// Parse a Docker status line into a short uptime:
    /// "Up 10 days" gives "10d", "Up 2 hours" gives "2h", "Up 30 minutes"
    /// gives "30m" and "Up 45 seconds" gives "0m".
    pub fn _parse_docker_uptime(status: &str) -> (r: Option<String>)
        ensures
            opt_view(r) == spec_docker_uptime(status@),
    {
        let lower = to_lowercase(status);
        let lc = chars_of(lower.as_str());
        let all = chars_of(status);
        if all.len() < 3 || !starts_with_str(&lc, "up ") {
            return None;
        }
        let mut time_part: Vec<char> = Vec::new();
        let mut k: usize = 3;
        while k < all.len()
            invariant
                3 <= k <= all.len(),
                time_part@ == all@.subrange(3, k as int),
            decreases all.len() - k,
        {
            time_part.push(all[k]);
            assert(all@.subrange(3, k + 1) =~= all@.subrange(3, k as int).push(all@[k as int]));
            k = k + 1;
        }
        assert(time_part@ =~= status@.skip(3));
        let unit = if contains_str(&time_part, "day") {
            "d"
        } else if contains_str(&time_part, "hour") {
            "h"
        } else if contains_str(&time_part, "minute") {
            "m"
        } else if contains_str(&time_part, "second") {
            return Some(owned("0m"));
        } else {
            return None;
        };
        let words = split_whitespace(&time_part);
        if words.len() == 0 {
            return None;
        }
        assert(views(words@)[0] == words@[0]@);
        match parse_u32(&words[0]) {
            Some(n) => {
                let digits = decimal_string(n as u64);
                Some(concat2(digits.as_str(), unit))
            },
            None => None,
        }
    }
}

/// The framework a Docker image name shows, by the first rule whose word
/// occurs in the lower-cased name; "Docker" when none does.
pub open spec fn spec_image_framework(image: Seq<char>) -> Seq<char> {
    let c = spec_lowercase(image);
    if has_substring(c, "postgres"@) {
        "PostgreSQL"@
    } else if has_substring(c, "redis"@) {
        "Redis"@
    } else if has_substring(c, "nginx"@) {
        "nginx"@
    } else if has_substring(c, "mongo"@) {
        "MongoDB"@
    } else if has_substring(c, "mysql"@) || has_substring(c, "mariadb"@) {
        "MySQL"@
    } else if has_substring(c, "rabbitmq"@) {
        "RabbitMQ"@
    } else if has_substring(c, "localstack"@) {
        "LocalStack"@
    } else if has_substring(c, "elasticsearch"@) {
        "Elasticsearch"@
    } else {
        "Docker"@
    }
}

/// The number that opens a text, with `unit` after it; `None` when the
/// first word is not a `u32`.
pub open spec fn count_with_unit(t: Seq<char>, unit: Seq<char>) -> Option<Seq<char>> {
    let words = spec_words(t);
    if words.len() == 0 {
        None
    } else {
        match spec_parse_u32(words[0]) {
            Some(n) => Some(spec_decimal(n as nat) + unit),
            None => None,
        }
    }
}

/// The short uptime a Docker status line gives: for a line that starts
/// with "up " (in any case), the count before the first unit word of the
/// rest ("day", then "hour", then "minute") with the unit's letter, or "0m"
/// for seconds.
pub open spec fn spec_docker_uptime(status: Seq<char>) -> Option<Seq<char>> {
    if status.len() < 3 || !has_prefix(spec_lowercase(status), "up "@) {
        None
    } else {
        let t = status.skip(3);
        if has_substring(t, "day"@) {
            count_with_unit(t, "d"@)
        } else if has_substring(t, "hour"@) {
            count_with_unit(t, "h"@)
        } else if has_substring(t, "minute"@) {
            count_with_unit(t, "m"@)
        } else if has_substring(t, "second"@) {
            Some("0m"@)
        } else {
            None
        }
    }
}

} // verus!

//! Framework detection from command lines, Docker image names and project
//! directories.
use vstd::prelude::*;

use crate::platform::Platform;
use crate::process::opt_view;
use crate::text::{
    ascii_lower, chars_of, contains_str, has_substring, is_ascii, join_path, owned, parent_dir, spec_join_path,
    spec_lowercase, spec_parent_dir, str_eq, string_of, to_lowercase,
};

verus! {

/// The framework a command line names, by the first rule whose word occurs
/// in the lower-cased command.
pub open spec fn spec_command_framework(command: Seq<char>) -> Option<Seq<char>> {
    command_rules(spec_lowercase(command))
}

/// The framework rules applied to a lower-cased command line `c`.
pub open spec fn command_rules(c: Seq<char>) -> Option<Seq<char>> {
    if has_substring(c, "next"@) {
        Some("Next.js"@)
    } else if has_substring(c, "vite"@) {
        Some("Vite"@)
    } else if has_substring(c, "webpack"@) {
        Some("Webpack"@)
    } else if has_substring(c, "parcel"@) {
        Some("Parcel"@)
    } else if has_substring(c, "nuxt"@) {
        Some("Nuxt"@)
    } else if has_substring(c, "gatsby"@) {
        Some("Gatsby"@)
    } else if has_substring(c, "django"@) || has_substring(c, "manage.py"@) {
        Some("Django"@)
    } else if has_substring(c, "flask"@) {
        Some("Flask"@)
    } else if has_substring(c, "fastapi"@) || has_substring(c, "uvicorn"@) {
        Some("FastAPI"@)
    } else if has_substring(c, "cargo run"@) || has_substring(c, "cargo-watch"@) {
        Some("Rust"@)
    } else if has_substring(c, "trunk"@) {
        Some("Trunk"@)
    } else if has_substring(c, "go run"@) || has_substring(c, "air"@) {
        Some("Go"@)
    } else if has_substring(c, "rails"@) {
        Some("Rails"@)
    } else if has_substring(c, "puma"@) || has_substring(c, "unicorn"@) {
        Some("Ruby"@)
    } else if has_substring(c, "laravel"@) || has_substring(c, "artisan"@) {
        Some("Laravel"@)
    } else if has_substring(c, "symfony"@) {
        Some("Symfony"@)
    } else if has_substring(c, "dotnet"@) {
        Some(".NET"@)
    } else if has_substring(c, "spring"@) {
        Some("Spring"@)
    } else if has_substring(c, "docker"@) {
        Some(docker_rules(c))
    } else {
        None
    }
}

/// The service a Docker command line runs, by the first rule whose word
/// occurs in the lower-cased command; "Docker" when none does.
pub open spec fn spec_docker_framework(command: Seq<char>) -> Seq<char> {
    docker_rules(spec_lowercase(command))
}

/// The Docker service rules applied to a lower-cased command line `c`.
pub open spec fn docker_rules(c: Seq<char>) -> Seq<char> {
    if has_substring(c, "postgres"@) {
        "PostgreSQL"@
    } else if has_substring(c, "redis"@) {
        "Redis"@
    } else if has_substring(c, "nginx"@) {
        "nginx"@
    } else if has_substring(c, "mongo"@) {
        "MongoDB"@
    } else if has_substring(c, "mysql"@) {
        "MySQL"@
    } else if has_substring(c, "rabbitmq"@) {
        "RabbitMQ"@
    } else {
        "Docker"@
    }
}

/// The dependency names of a `package.json`: `dependencies` and
/// `devDependencies`, each absent when the field is.
pub struct PackageManifest {
    pub dependencies: Option<Vec<String>>,
    pub dev_dependencies: Option<Vec<String>>,
}

/// The views of a list of names.
pub open spec fn names_view(v: Seq<String>) -> Seq<Seq<char>> {
    v.map_values(|s: String| s@)
}

/// The view of an optional list of names.
pub open spec fn opt_names_view(v: Option<Vec<String>>) -> Option<Seq<Seq<char>>> {
    match v {
        Some(n) => Some(names_view(n@)),
        None => None,
    }
}

/// What `serde_json` reads from the text of a `package.json`: `None` when
/// the text is not JSON, else the keys of the `dependencies` and
/// `devDependencies` fields (no keys when a field is not an object).
pub uninterp spec fn spec_package_manifest(content: Seq<char>) -> Option<
    (Option<Seq<Seq<char>>>, Option<Seq<Seq<char>>>),
>;

/// `serde_json::from_str::<serde_json::Value>`, then `Value::get` of the two
/// dependency fields and the keys of each (`as_object`, `Map::keys`); a field
/// that is not an object gives no keys, as `Value::get` on it finds none.
#[verifier::external_body]
fn parse_package_manifest(content: &str) -> (r: Option<PackageManifest>)
    ensures
        match r {
            Some(m) => spec_package_manifest(content@) == Some(
                (opt_names_view(m.dependencies), opt_names_view(m.dev_dependencies)),
            ),
            None => spec_package_manifest(content@) is None,
        },
{
    let value: serde_json::Value = serde_json::from_str(content).ok()?;
    Some(PackageManifest {
        dependencies: value.get("dependencies").map(
            |d| d.as_object().map(|o| o.keys().cloned().collect()).unwrap_or_default(),
        ),
        dev_dependencies: value.get("devDependencies").map(
            |d| d.as_object().map(|o| o.keys().cloned().collect()).unwrap_or_default(),
        ),
    })
}

/// The framework that a `package.json` with these dependency names shows.
pub open spec fn spec_manifest_framework(
    deps: Option<Seq<Seq<char>>>,
    dev_deps: Option<Seq<Seq<char>>>,
) -> Option<Seq<char>> {
    match deps {
        None => None,
        Some(d) => if d.contains("next"@) {
            Some("Next.js"@)
        } else if d.contains("vite"@) {
            Some("Vite"@)
        } else if d.contains("@angular/core"@) {
            Some("Angular"@)
        } else if d.contains("vue"@) {
            Some("Vue"@)
        } else if d.contains("react"@) {
            Some("React"@)
        } else if d.contains("express"@) {
            Some("Express"@)
        } else if d.contains("nuxt"@) {
            Some("Nuxt"@)
        } else if d.contains("gatsby"@) {
            Some("Gatsby"@)
        } else if dev_deps matches Some(dv) && dv.contains("vite"@) {
            Some("Vite"@)
        } else if dev_deps matches Some(dv) && dv.contains("@angular/cli"@) {
            Some("Angular"@)
        } else {
            Some("Node.js"@)
        },
    }
}

/// The framework that a `package.json` holding this text shows.
pub open spec fn spec_package_text_framework(content: Seq<char>) -> Option<Seq<char>> {
    match spec_package_manifest(content) {
        Some((d, dv)) => spec_manifest_framework(d, dv),
        None => None,
    }
}

fn has_name(names: &Vec<String>, name: &str) -> (r: bool)
    ensures
        r == names_view(names@).contains(name@),
{
    for i in 0..names.len()
        invariant
            forall|k: int| 0 <= k < i ==> names@[k]@ != name@,
    {
        if str_eq(names[i].as_str(), name) {
            assert(names_view(names@)[i as int] == name@);
            return true;
        }
    }
    proof {
        if names_view(names@).contains(name@) {
            let k = choose|k: int|
                0 <= k < names_view(names@).len() && names_view(names@)[k] == name@;
            assert(names@[k]@ == name@);
        }
    }
    false
}

fn opt_has_name(names: &Option<Vec<String>>, name: &str) -> (r: bool)
    ensures
        r == (opt_names_view(*names) matches Some(n) && n.contains(name@)),
{
    match names {
        Some(n) => has_name(n, name),
        None => false,
    }
}

/// The framework that a `package.json` with these dependencies shows.
pub fn framework_from_manifest(m: &PackageManifest) -> (r: Option<String>)
    ensures
        opt_view(r) == spec_manifest_framework(
            opt_names_view(m.dependencies),
            opt_names_view(m.dev_dependencies),
        ),
{
    let deps = match &m.dependencies {
        None => {
            return None;
        },
        Some(d) => d,
    };
    let name = if has_name(deps, "next") {
        "Next.js"
    } else if has_name(deps, "vite") {
        "Vite"
    } else if has_name(deps, "@angular/core") {
        "Angular"
    } else if has_name(deps, "vue") {
        "Vue"
    } else if has_name(deps, "react") {
        "React"
    } else if has_name(deps, "express") {
        "Express"
    } else if has_name(deps, "nuxt") {
        "Nuxt"
    } else if has_name(deps, "gatsby") {
        "Gatsby"
    } else if opt_has_name(&m.dev_dependencies, "vite") {
        "Vite"
    } else if opt_has_name(&m.dev_dependencies, "@angular/cli") {
        "Angular"
    } else {
        "Node.js"
    };
    Some(owned(name))
}

/// The directories searched for a project root: the directory itself and
/// its ancestors, `k` steps up.
pub open spec fn ancestor(dir: Seq<char>, k: nat) -> Option<Seq<char>>
    decreases k,
{
    if k == 0 {
        Some(dir)
    } else {
        match ancestor(dir, (k - 1) as nat) {
            Some(d) => spec_parent_dir(d),
            None => None,
        }
    }
}

/// The frameworks that the marker files of a project root show.
pub open spec fn is_marker_framework(f: Seq<char>) -> bool {
    f == "Rust"@ || f == "Go"@ || f == "Django"@ || f == "Python"@ || f == "Ruby"@ || f
        == "PHP"@
}

/// A framework that detection from a directory can report: one shown by
/// the text of some `package.json`, or one shown by a marker file.
pub open spec fn is_directory_framework(f: Seq<char>) -> bool {
    is_marker_framework(f) || exists|content: Seq<char>|
        spec_package_text_framework(content) == Some(f)
}

/// The view of an optional string slice.
pub open spec fn opt_str_view(s: Option<&str>) -> Option<Seq<char>> {
    match s {
        Some(v) => Some(v@),
        None => None,
    }
}

/// The cached answers of a detector, as (directory, framework) pairs.
pub open spec fn cache_view(entries: Seq<(String, Option<String>)>) -> Seq<
    (Seq<char>, Option<Seq<char>>),
> {
    entries.map_values(|e: (String, Option<String>)| (e.0@, opt_view(e.1)))
}

/// The cached answer for a directory, if there is one.
pub open spec fn cache_lookup(entries: Seq<(Seq<char>, Option<Seq<char>>)>, dir: Seq<char>) -> Option<
    Option<Seq<char>>,
>
    decreases entries.len(),
{
    if entries.len() == 0 {
        None
    } else if entries.last().0 == dir {
        Some(entries.last().1)
    } else {
        cache_lookup(entries.drop_last(), dir)
    }
}

/// What one call of [`FrameworkDetector::detect`] does: the command decides
/// when it names a framework; else a working directory is answered from
/// the cache, or detected (the answer `r`) and then cached.
pub open spec fn detect_step(
    before: Seq<(Seq<char>, Option<Seq<char>>)>,
    after: Seq<(Seq<char>, Option<Seq<char>>)>,
    command: Seq<char>,
    working_dir: Option<Seq<char>>,
    r: Option<Seq<char>>,
) -> bool {
    if spec_command_framework(command) is Some {
        r == spec_command_framework(command) && after == before
    } else {
        match working_dir {
            None => r is None && after == before,
            Some(d) => match cache_lookup(before, d) {
                Some(c) => r == c && after == before,
                None => after == before.push((d, r)) && (r matches Some(f)
                    ==> is_directory_framework(f)),
            },
        }
    }
}

/// One question put to the platform about a file, with its answer.
pub enum FileProbe {
    /// Whether a path exists.
    Exists(Seq<char>, bool),
    /// The text of the file at a path, when it could be read.
    Read(Seq<char>, Option<Seq<char>>),
}

/// The files whose presence marks a project root, in the order they are
/// looked for.
pub open spec fn root_markers() -> Seq<Seq<char>> {
    seq!["package.json"@, "Cargo.toml"@, "go.mod"@, "pyproject.toml"@, "Gemfile"@, "composer.json"@]
}

/// The files whose presence shows a project's framework, in the order they
/// are looked for.
pub open spec fn framework_markers() -> Seq<Seq<char>> {
    seq!["Cargo.toml"@, "go.mod"@, "manage.py"@, "pyproject.toml"@, "Gemfile"@, "composer.json"@]
}

/// The framework each of `framework_markers` shows.
pub open spec fn marker_frameworks() -> Seq<Seq<char>> {
    seq!["Rust"@, "Go"@, "Django"@, "Python"@, "Ruby"@, "PHP"@]
}

/// The probes of looking in `dir` for the files `names`, one by one, with
/// the platform's `answers`.
pub open spec fn marker_probes(dir: Seq<char>, names: Seq<Seq<char>>, answers: Seq<bool>) -> Seq<
    FileProbe,
> {
    Seq::new(answers.len(), |j: int| FileProbe::Exists(spec_join_path(dir, names[j]), answers[j]))
}

/// `answers` are those of looking for `names` one by one until one exists:
/// all but the last are no, and the last is yes unless the names ran out.
pub open spec fn is_marker_check(names: Seq<Seq<char>>, answers: Seq<bool>) -> bool {
    &&& answers.len() <= names.len()
    &&& forall|j: int| 0 <= j < answers.len() - 1 ==> !#[trigger] answers[j]
    &&& answers.len() < names.len() ==> answers.len() > 0 && answers.last()
}

/// A look for marker files found one.
pub open spec fn check_found(answers: Seq<bool>) -> bool {
    answers.len() > 0 && answers.last()
}

/// The framework of the first marker file, from index `j` on, that the
/// answers say exists.
pub open spec fn marker_framework_from(answers: Seq<bool>, j: int) -> Option<Seq<char>>
    decreases 6 - j,
{
    if j < 0 || j >= 6 || j >= answers.len() {
        None
    } else if answers[j] {
        Some(marker_frameworks()[j])
    } else {
        marker_framework_from(answers, j + 1)
    }
}

/// The framework of a project root: the one its `package.json` shows, if
/// any, else that of the first marker file that exists.
pub open spec fn directory_framework(package: Option<Seq<char>>, answers: Seq<bool>) -> Option<
    Seq<char>,
> {
    match package {
        Some(f) => Some(f),
        None => marker_framework_from(answers, 0),
    }
}

/// The probes of a search for a project root from `start`, where
/// `checks[k]` are the answers of looking for root markers in the `k`-th
/// ancestor.
pub open spec fn root_search_probes(start: Seq<char>, checks: Seq<Seq<bool>>) -> Seq<FileProbe>
    decreases checks.len(),
{
    if checks.len() == 0 {
        seq![]
    } else {
        root_search_probes(start, checks.drop_last()) + marker_probes(
            ancestor(start, (checks.len() - 1) as nat)->Some_0,
            root_markers(),
            checks.last(),
        )
    }
}

/// The `k`-th look of a root search from `start` was at an ancestor that
/// exists, and looked for the root markers until one was found.
pub open spec fn looked_in_ancestor(start: Seq<char>, checks: Seq<Seq<bool>>, k: int) -> bool {
    ancestor(start, k as nat) is Some && is_marker_check(root_markers(), checks[k])
}

/// `checks` are the looks of a search for a project root from `start`:
/// the directory and its ancestors in turn, ten at most, each looked at
/// until one holds a root marker; the search stops early only when the
/// parents run out.
pub open spec fn is_root_search(start: Seq<char>, checks: Seq<Seq<bool>>) -> bool {
    &&& 1 <= checks.len() <= 10
    &&& forall|k: int| 0 <= k < checks.len() ==> #[trigger] looked_in_ancestor(start, checks, k)
    &&& forall|k: int| 0 <= k < checks.len() - 1 ==> !check_found(#[trigger] checks[k])
    &&& !check_found(checks.last()) ==> checks.len() == 10 || ancestor(
        start,
        checks.len() as nat,
    ) is None
}

/// The root such a search finds: the ancestor whose look found a marker.
pub open spec fn search_root(start: Seq<char>, checks: Seq<Seq<bool>>) -> Option<Seq<char>> {
    if check_found(checks.last()) {
        ancestor(start, (checks.len() - 1) as nat)
    } else {
        None
    }
}

/// The probes after reading the `package.json` of `root`: whether it
/// exists, then, when it does, its text (`read` is `None` when it does not
/// exist, else what reading it gave).
pub open spec fn package_probes(
    root: Seq<char>,
    before: Seq<FileProbe>,
    read: Option<Option<Seq<char>>>,
) -> Seq<FileProbe> {
    let path = spec_join_path(root, "package.json"@);
    match read {
        None => before.push(FileProbe::Exists(path, false)),
        Some(content) => before.push(FileProbe::Exists(path, true)).push(
            FileProbe::Read(path, content),
        ),
    }
}

/// The framework a read of `package.json` shows.
pub open spec fn package_result(read: Option<Option<Seq<char>>>) -> Option<Seq<char>> {
    match read {
        Some(Some(c)) => spec_package_text_framework(c),
        _ => None,
    }
}

/// Detecting the framework of `dir` took the probes from `before` to
/// `after` and found `r`, with these answers: the root search `checks`,
/// the read of the root's `package.json`, and the look for marker files
/// (`answers`) when `package.json` showed nothing.
pub open spec fn detected_via(
    dir: Seq<char>,
    before: Seq<FileProbe>,
    after: Seq<FileProbe>,
    checks: Seq<Seq<bool>>,
    read: Option<Option<Seq<char>>>,
    answers: Seq<bool>,
    r: Option<Seq<char>>,
) -> bool {
    let at_root = before + root_search_probes(dir, checks);
    &&& is_root_search(dir, checks)
    &&& match search_root(dir, checks) {
        None => after == at_root && r is None,
        Some(root) => {
            let mid = package_probes(root, at_root, read);
            &&& r == directory_framework(package_result(read), answers)
            &&& package_result(read) is Some ==> after == mid && answers.len() == 0
            &&& package_result(read) is None ==> is_marker_check(framework_markers(), answers)
                && after == mid + marker_probes(root, framework_markers(), answers)
        },
    }
}

/// Detecting the framework of `dir` took the probes from `before` to
/// `after` and found `r`.
pub open spec fn directory_detection(
    dir: Seq<char>,
    before: Seq<FileProbe>,
    after: Seq<FileProbe>,
    r: Option<Seq<char>>,
) -> bool {
    exists|checks: Seq<Seq<bool>>, read: Option<Option<Seq<char>>>, answers: Seq<bool>|
        #[trigger] detected_via(dir, before, after, checks, read, answers, r)
}

/// The probes a detection makes: none when the command names a framework,
/// when there is no working directory, or when the directory's answer is
/// cached; a directory detection otherwise.
pub open spec fn detect_probes(
    cache: Seq<(Seq<char>, Option<Seq<char>>)>,
    before: Seq<FileProbe>,
    after: Seq<FileProbe>,
    command: Seq<char>,
    working_dir: Option<Seq<char>>,
    r: Option<Seq<char>>,
) -> bool {
    if spec_command_framework(command) is Some {
        after == before
    } else {
        match working_dir {
            None => after == before,
            Some(d) => match cache_lookup(cache, d) {
                Some(_) => after == before,
                None => directory_detection(d, before, after, r),
            },
        }
    }
}

/// Detects frameworks, remembering the answer for each working directory.
pub struct FrameworkDetector {
    cache: Vec<(String, Option<String>)>,
    probes: Ghost<Seq<FileProbe>>,
}

impl View for FrameworkDetector {
    type V = Seq<(Seq<char>, Option<Seq<char>>)>;

    closed spec fn view(&self) -> Seq<(Seq<char>, Option<Seq<char>>)> {
        cache_view(self.cache@)
    }
}

impl Default for FrameworkDetector {
    fn default() -> (d: Self)
        ensures
            d@.len() == 0,
    {
        FrameworkDetector::new()
    }
}

impl FrameworkDetector {
    /// Every cached answer is a framework that directory detection reports.
    #[verifier::type_invariant]
    spec fn cached_answers_are_detections(self) -> bool {
        forall|i: int|
            #![trigger self.cache@[i]]
            0 <= i < self.cache@.len() ==> (opt_view(self.cache@[i].1) matches Some(f)
                ==> is_directory_framework(f))
    }

    /// The questions about files the detector has put to platforms, with
    /// the answers, in order.
    pub closed spec fn probes(&self) -> Seq<FileProbe> {
        self.probes@
    }

    /// A detector with nothing cached.
    pub fn new() -> (d: Self)
        ensures
            d@.len() == 0,
            d.probes().len() == 0,
    {
        let d = FrameworkDetector { cache: Vec::new(), probes: Ghost(Seq::empty()) };
        assert(d@ =~= seq![]);
        d
    }

    /// Detect framework from the command line, then from the working
    /// directory (cached per directory).
    pub fn detect<P: Platform>(
        &mut self,
        platform: &P,
        command: &str,
        working_dir: Option<&str>,
    ) -> (r: Option<String>)
        ensures
            detect_step(old(self)@, final(self)@, command@, opt_str_view(working_dir), opt_view(r)),
            detect_probes(
                old(self)@,
                old(self).probes(),
                final(self).probes(),
                command@,
                opt_str_view(working_dir),
                opt_view(r),
            ),
            opt_view(r) matches Some(f) ==> spec_command_framework(command@) == Some(f)
                || is_directory_framework(f),
    {
        proof {
            use_type_invariant(&*self);
        }
        let from_command = self.detect_from_command(command);
        if from_command.is_some() {
            return from_command;
        }
        match working_dir {
            None => None,
            Some(dir) => {
                match self.lookup(dir) {
                    Some(cached) => cached,
                    None => {
                        let framework = self.detect_from_directory(platform, dir);
                        proof {
                            use_type_invariant(&*self);
                        }
                        let ghost before = self.cache@;
                        let ghost final_cache = cache_view(before).push((dir@, opt_view(framework)));
                        let stored = crate::process::copy_opt(&framework);
                        let mut cache: Vec<(String, Option<String>)> = Vec::new();
                        std::mem::swap(&mut cache, &mut self.cache);
                        cache.push((owned(dir), stored));
                        assert(cache_view(cache@) =~= cache_view(before).push(
                            (dir@, opt_view(framework)),
                        ));
                        assert(forall|i: int|
                            #![trigger cache@[i]]
                            0 <= i < cache@.len() ==> (opt_view(cache@[i].1) matches Some(f)
                                ==> is_directory_framework(f))) by {
                            assert forall|i: int| 0 <= i < cache@.len() implies (opt_view(
                                #[trigger] cache@[i].1,
                            ) matches Some(f) ==> is_directory_framework(f)) by {
                                if i < before.len() {
                                    assert(cache@[i] == before[i]);
                                }
                            }
                        }
                        self.cache = cache;
                        assert(cache_view(self.cache@) == final_cache);
                        framework
                    },
                }
            },
        }
    }

    fn lookup(&self, dir: &str) -> (r: Option<Option<String>>)
        ensures
            match r {
                Some(c) => cache_lookup(self@, dir@) == Some(opt_view(c)) && (opt_view(c) matches Some(
                    f,
                ) ==> is_directory_framework(f)),
                None => cache_lookup(self@, dir@) is None,
            },
    {
        proof {
            use_type_invariant(self);
        }
        let mut i = self.cache.len();
        assert(cache_view(self.cache@.take(i as int)) =~= self@);
        while i > 0
            invariant
                i <= self.cache.len(),
                cache_lookup(self@, dir@) == cache_lookup(
                    cache_view(self.cache@.take(i as int)),
                    dir@,
                ),
            decreases i,
        {
            let ghost v = cache_view(self.cache@.take(i as int));
            assert(v.last() == (self.cache@[i - 1].0@, opt_view(self.cache@[i - 1].1)));
            if str_eq(self.cache[i - 1].0.as_str(), dir) {
                proof {
                    use_type_invariant(self);
                    assert(opt_view(self.cache@[i - 1].1) matches Some(f) ==> is_directory_framework(f));
                }
                return Some(crate::process::copy_opt(&self.cache[i - 1].1));
            }
            assert(v.drop_last() =~= cache_view(self.cache@.take(i - 1)));
            i = i - 1;
        }
        None
    }

    /// Detect framework from a command line.
    pub fn detect_from_command(&self, command: &str) -> (r: Option<String>)
        ensures
            opt_view(r) == spec_command_framework(command@),
            is_ascii(command@) ==> opt_view(r) == command_rules(ascii_lower(command@)),
    {
        let lower = to_lowercase(command);
        let c = chars_of(lower.as_str());
        let name = if contains_str(&c, "next") {
            "Next.js"
        } else if contains_str(&c, "vite") {
            "Vite"
        } else if contains_str(&c, "webpack") {
            "Webpack"
        } else if contains_str(&c, "parcel") {
            "Parcel"
        } else if contains_str(&c, "nuxt") {
            "Nuxt"
        } else if contains_str(&c, "gatsby") {
            "Gatsby"
        } else if contains_str(&c, "django") || contains_str(&c, "manage.py") {
            "Django"
        } else if contains_str(&c, "flask") {
            "Flask"
        } else if contains_str(&c, "fastapi") || contains_str(&c, "uvicorn") {
            "FastAPI"
        } else if contains_str(&c, "cargo run") || contains_str(&c, "cargo-watch") {
            "Rust"
        } else if contains_str(&c, "trunk") {
            "Trunk"
        } else if contains_str(&c, "go run") || contains_str(&c, "air") {
            "Go"
        } else if contains_str(&c, "rails") {
            "Rails"
        } else if contains_str(&c, "puma") || contains_str(&c, "unicorn") {
            "Ruby"
        } else if contains_str(&c, "laravel") || contains_str(&c, "artisan") {
            "Laravel"
        } else if contains_str(&c, "symfony") {
            "Symfony"
        } else if contains_str(&c, "dotnet") {
            ".NET"
        } else if contains_str(&c, "spring") {
            "Spring"
        } else if contains_str(&c, "docker") {
            return self.detect_docker_framework(command);
        } else {
            return None;
        };
        Some(owned(name))
    }

    /// Detect the service a Docker command line runs (always some name,
    /// "Docker" when no known service is named).
    pub fn detect_docker_framework(&self, command: &str) -> (r: Option<String>)
        ensures
            opt_view(r) == Some(spec_docker_framework(command@)),
            is_ascii(command@) ==> opt_view(r) == Some(docker_rules(ascii_lower(command@))),
    {
        let lower = to_lowercase(command);
        let c = chars_of(lower.as_str());
        let name = if contains_str(&c, "postgres") {
            "PostgreSQL"
        } else if contains_str(&c, "redis") {
            "Redis"
        } else if contains_str(&c, "nginx") {
            "nginx"
        } else if contains_str(&c, "mongo") {
            "MongoDB"
        } else if contains_str(&c, "mysql") {
            "MySQL"
        } else if contains_str(&c, "rabbitmq") {
            "RabbitMQ"
        } else {
            "Docker"
        };
        Some(owned(name))
    }

    /// Detect framework from a working directory: find the project root,
    /// then read its `package.json` and, when that shows nothing, look for
    /// the framework marker files through the platform.
    pub fn detect_from_directory<P: Platform>(&mut self, platform: &P, path: &str) -> (r: Option<
        String,
    >)
        ensures
            final(self)@ == old(self)@,
            directory_detection(path@, old(self).probes(), final(self).probes(), opt_view(r)),
            r matches Some(f) ==> is_directory_framework(f@),
    {
        let dir = chars_of(path);
        let ghost before = self.probes();
        let root = match self.find_project_root(platform, &dir) {
            Some(root) => root,
            None => {
                proof {
                    let checks = choose|checks: Seq<Seq<bool>>|
                        #[trigger] is_root_search(dir@, checks) && self.probes() == before
                            + root_search_probes(dir@, checks) && search_root(dir@, checks) is None;
                    assert(detected_via(dir@, before, self.probes(), checks, None, seq![], None));
                }
                return None;
            },
        };
        let ghost checks = choose|checks: Seq<Seq<bool>>|
            #[trigger] is_root_search(dir@, checks) && self.probes() == before + root_search_probes(
                dir@,
                checks,
            ) && search_root(dir@, checks) == Some(root@);
        let ghost at_root = self.probes();
        let from_package = self.detect_from_package_json(platform, &root);
        let ghost read = choose|read: Option<Option<Seq<char>>>|
            #[trigger] package_probes(root@, at_root, read) == self.probes() && opt_view(from_package)
                == package_result(read);
        let answers = if from_package.is_some() {
            Vec::new()
        } else {
            self.check_markers(platform, &root, false)
        };
        let r = framework_from_markers(from_package, &answers);
        proof {
            assert(detected_via(dir@, before, self.probes(), checks, read, answers@, opt_view(r)));
            if let Some(f) = opt_view(r) {
                if package_result(read) is None {
                    lemma_marker_framework(answers@, 0);
                } else {
                    let c = read->Some_0->Some_0;
                    assert(spec_package_text_framework(c) == Some(f));
                }
            }
        }
        r
    }

    /// Look in `dir` for the root markers (`root`) or the framework markers,
    /// one by one, until one exists.
    fn check_markers<P: Platform>(&mut self, platform: &P, dir: &Vec<char>, root: bool) -> (r: Vec<
        bool,
    >)
        ensures
            final(self)@ == old(self)@,
            is_marker_check(
                if root {
                    root_markers()
                } else {
                    framework_markers()
                },
                r@,
            ),
            final(self).probes() == old(self).probes() + marker_probes(
                dir@,
                if root {
                    root_markers()
                } else {
                    framework_markers()
                },
                r@,
            ),
    {
        let ghost names = if root {
            root_markers()
        } else {
            framework_markers()
        };
        let mut answers: Vec<bool> = Vec::new();
        let mut j: usize = 0;
        while j < 6
            invariant
                j <= 6,
                answers@.len() == j,
                names.len() == 6,
                names == (if root {
                    root_markers()
                } else {
                    framework_markers()
                }),
                forall|k: int| 0 <= k < j ==> !#[trigger] answers@[k],
                self@ == old(self)@,
                self.probes() == old(self).probes() + marker_probes(dir@, names, answers@),
            decreases 6 - j,
        {
            let name = if root {
                root_marker(j)
            } else {
                framework_marker(j)
            };
            let ghost prev = answers@;
            let a = self.has_marker(platform, dir, name);
            answers.push(a);
            assert(marker_probes(dir@, names, answers@) =~= marker_probes(dir@, names, prev).push(
                FileProbe::Exists(spec_join_path(dir@, names[j as int]), a),
            ));
            if a {
                return answers;
            }
            j = j + 1;
        }
        answers
    }

    /// Find the project root: the nearest of the directory and its
    /// ancestors (ten at most) that holds a project marker file.
    pub fn find_project_root<P: Platform>(&mut self, platform: &P, start_dir: &Vec<char>) -> (r:
        Option<Vec<char>>)
        ensures
            final(self)@ == old(self)@,
            exists|checks: Seq<Seq<bool>>|
                #[trigger] is_root_search(start_dir@, checks) && final(self).probes()
                    == old(self).probes() + root_search_probes(start_dir@, checks) && search_root(
                    start_dir@,
                    checks,
                ) == match r {
                    Some(d) => Some(d@),
                    None => None,
                },
    {
        let ghost start = start_dir@;
        let ghost mut checks: Seq<Seq<bool>> = seq![];
        let mut current = start_dir.clone();
        let mut depth: usize = 0;
        while depth < 10
            invariant
                depth <= 10,
                start == start_dir@,
                ancestor(start, depth as nat) == Some(current@),
                checks.len() == depth,
                forall|k: int| 0 <= k < depth ==> #[trigger] looked_in_ancestor(start, checks, k),
                forall|k: int| 0 <= k < depth ==> !check_found(#[trigger] checks[k]),
                self@ == old(self)@,
                self.probes() == old(self).probes() + root_search_probes(start, checks),
            decreases 10 - depth,
        {
            let answers = self.check_markers(platform, &current, true);
            let ghost next = checks.push(answers@);
            proof {
                assert(next.drop_last() =~= checks);
                assert(self.probes() =~= old(self).probes() + root_search_probes(start, next));
            }
            let found = answers.len() > 0 && answers[answers.len() - 1];
            proof {
                assert(is_marker_check(root_markers(), answers@));
                assert(ancestor(start, depth as nat) is Some);
                assert(ancestor(start, (depth as int) as nat) is Some);
                assert(next[depth as int] == answers@);
                assert forall|k: int| 0 <= k < next.len() implies #[trigger] looked_in_ancestor(
                    start,
                    next,
                    k,
                ) by {
                    if k < depth {
                        assert(next[k] == checks[k]);
                        assert(looked_in_ancestor(start, checks, k));
                    }
                }
                assert forall|k: int| 0 <= k < depth implies !check_found(#[trigger] next[k]) by {
                    assert(next[k] == checks[k]);
                }
                assert(next.last() == answers@);
                assert(ancestor(start, (depth + 1) as nat) == spec_parent_dir(current@));
            }
            if found {
                proof {
                    assert(is_root_search(start, next));
                }
                return Some(current);
            }
            match parent_dir(&current) {
                Some(parent) => {
                    proof {
                        checks = next;
                    }
                    current = parent;
                    depth = depth + 1;
                },
                None => {
                    proof {
                        assert(is_root_search(start, next));
                    }
                    return None;
                },
            }
        }
        proof {
            assert(checks.last() == checks[9]);
            assert(is_root_search(start, checks));
        }
        None
    }

    /// Detect framework from the `package.json` of a project root.
    pub fn detect_from_package_json<P: Platform>(
        &mut self,
        platform: &P,
        project_root: &Vec<char>,
    ) -> (r: Option<String>)
        ensures
            final(self)@ == old(self)@,
            exists|read: Option<Option<Seq<char>>>|
                #[trigger] package_probes(project_root@, old(self).probes(), read)
                    == final(self).probes() && opt_view(r) == package_result(read),
    {
        let path = string_of(&join_path(project_root, "package.json"));
        let ghost before = self.probes();
        if !self.path_exists(platform, path.as_str()) {
            assert(package_probes(project_root@, before, None) == self.probes());
            return None;
        }
        let content = match self.read_file(platform, path.as_str()) {
            Some(c) => c,
            None => {
                assert(package_probes(project_root@, before, Some(None)) == self.probes());
                return None;
            },
        };
        assert(package_probes(project_root@, before, Some(Some(content@))) == self.probes());
        framework_from_package_text(content.as_str())
    }

    /// Whether the directory holds a file of this name, as the platform sees
    /// it.
    fn has_marker<P: Platform>(&mut self, platform: &P, dir: &Vec<char>, name: &str) -> (r: bool)
        ensures
            final(self)@ == old(self)@,
            final(self).probes() == old(self).probes().push(
                FileProbe::Exists(spec_join_path(dir@, name@), r),
            ),
    {
        let path = string_of(&join_path(dir, name));
        self.path_exists(platform, path.as_str())
    }

    /// Whether a path exists, as the platform sees it.
    fn path_exists<P: Platform>(&mut self, platform: &P, path: &str) -> (r: bool)
        ensures
            final(self)@ == old(self)@,
            final(self).probes() == old(self).probes().push(FileProbe::Exists(path@, r)),
    {
        proof {
            use_type_invariant(&*self);
        }
        let r = platform.path_exists(path);
        self.probes = Ghost(self.probes@.push(FileProbe::Exists(path@, r)));
        r
    }

    /// The text of a file, as the platform reads it.
    fn read_file<P: Platform>(&mut self, platform: &P, path: &str) -> (r: Option<String>)
        ensures
            final(self)@ == old(self)@,
            final(self).probes() == old(self).probes().push(FileProbe::Read(path@, opt_view(r))),
    {
        proof {
            use_type_invariant(&*self);
        }
        let r = platform.read_to_string(path);
        self.probes = Ghost(self.probes@.push(FileProbe::Read(path@, opt_view(r))));
        r
    }
}

/// The `j`-th root marker.
fn root_marker(j: usize) -> (r: &'static str)
    requires
        j < 6,
    ensures
        r@ == root_markers()[j as int],
{
    if j == 0 {
        "package.json"
    } else if j == 1 {
        "Cargo.toml"
    } else if j == 2 {
        "go.mod"
    } else if j == 3 {
        "pyproject.toml"
    } else if j == 4 {
        "Gemfile"
    } else {
        "composer.json"
    }
}

/// The `j`-th framework marker.
fn framework_marker(j: usize) -> (r: &'static str)
    requires
        j < 6,
    ensures
        r@ == framework_markers()[j as int],
{
    if j == 0 {
        "Cargo.toml"
    } else if j == 1 {
        "go.mod"
    } else if j == 2 {
        "manage.py"
    } else if j == 3 {
        "pyproject.toml"
    } else if j == 4 {
        "Gemfile"
    } else {
        "composer.json"
    }
}

/// Every answer of a marker look names a framework that marker files show.
proof fn lemma_marker_framework(answers: Seq<bool>, j: int)
    ensures
        marker_framework_from(answers, j) matches Some(f) ==> is_marker_framework(f),
    decreases 6 - j,
{
    if 0 <= j < 6 && j < answers.len() && !answers[j] {
        lemma_marker_framework(answers, j + 1);
    }
}

/// The framework of a project root from what was found there: the one its
/// `package.json` shows, if any, else that of the first marker file (in
/// `Cargo.toml`, `go.mod`, `manage.py`, `pyproject.toml`, `Gemfile`,
/// `composer.json` order) that the answers say exists.
pub fn framework_from_markers(package: Option<String>, answers: &Vec<bool>) -> (r: Option<String>)
    ensures
        opt_view(r) == directory_framework(opt_view(package), answers@),
{
    if package.is_some() {
        return package;
    }
    let mut j: usize = 0;
    while j < 6 && j < answers.len()
        invariant
            j <= 6,
            package is None,
            marker_framework_from(answers@, 0) == marker_framework_from(answers@, j as int),
        decreases 6 - j,
    {
        if answers[j] {
            let name = if j == 0 {
                "Rust"
            } else if j == 1 {
                "Go"
            } else if j == 2 {
                "Django"
            } else if j == 3 {
                "Python"
            } else if j == 4 {
                "Ruby"
            } else {
                "PHP"
            };
            assert(name@ == marker_frameworks()[j as int]);
            assert(marker_framework_from(answers@, j as int) == Some(name@));
            return Some(owned(name));
        }
        j = j + 1;
    }
    None
}

/// The framework the text of a `package.json` shows: none when the text is
/// not JSON or has no `dependencies` field.
pub fn framework_from_package_text(content: &str) -> (r: Option<String>)
    ensures
        opt_view(r) == spec_package_text_framework(content@),
{
    let manifest = match parse_package_manifest(content) {
        Some(m) => m,
        None => {
            return None;
        },
    };
    framework_from_manifest(&manifest)
}

} // verus!

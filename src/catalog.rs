use vstd::prelude::*;
use vstd::utf8::{decode_utf8, valid_utf8};
use crate::app::App;
use crate::models::{opt_text, ProjectInfo, ProjectView};
use crate::sorting::{sort_by_name, sorted_by_key, views};
use crate::text::{same_text, texts, trim_of};

verus! {

/// One entry of a directory listing: its name when it is valid UTF-8, and whether it is a
/// directory.
#[derive(Debug)]
pub struct DirEntry {
    pub name: Option<String>,
    pub is_dir: bool,
}

/// A hidden entry's name starts with a dot.
pub open spec fn is_hidden(name: Seq<char>) -> bool {
    name.len() > 0 && name[0] == '.'
}

/// The entry is a directory with a readable name that is not hidden.
pub open spec fn is_listed(e: DirEntry) -> bool {
    e.is_dir && e.name is Some && !is_hidden(e.name->0@)
}

/// The names of the listed entries, in listing order.
pub open spec fn listed_names(entries: Seq<DirEntry>) -> Seq<Seq<char>> {
    entries.filter(|e: DirEntry| is_listed(e)).map_values(|e: DirEntry| e.name->0@)
}

/// Filtering a prefix one element longer adds that element when it passes.
pub proof fn lemma_filter_step<A>(s: Seq<A>, i: int, p: spec_fn(A) -> bool)
    requires
        0 <= i < s.len(),
    ensures
        s.subrange(0, i + 1).filter(p) == (if p(s[i]) {
            s.subrange(0, i).filter(p).push(s[i])
        } else {
            s.subrange(0, i).filter(p)
        }),
{
    reveal(Seq::filter);
    assert(s.subrange(0, i + 1).drop_last() =~= s.subrange(0, i));
}

/// Whether a name marks a hidden entry.
pub fn hidden_name(name: &str) -> (r: bool)
    ensures
        r == is_hidden(name@),
{
    let n = name.unicode_len();
    n > 0 && name.get_char(0) == '.'
}

/// The names of the subdirectories in a listing that are not hidden, in listing order.
pub fn visible_dir_names(entries: &Vec<DirEntry>) -> (r: Vec<String>)
    ensures
        texts(r@) == listed_names(entries@),
{
    let mut r: Vec<String> = Vec::new();
    let mut i: usize = 0;
    while i < entries.len()
        invariant
            i <= entries.len(),
            texts(r@) == listed_names(entries@.subrange(0, i as int)),
        decreases entries.len() - i,
    {
        let ghost pre = entries@.subrange(0, i as int).filter(|e: DirEntry| is_listed(e));
        proof {
            lemma_filter_step(entries@, i as int, |e: DirEntry| is_listed(e));
        }
        let e = &entries[i];
        proof {
            let f = |e: DirEntry| e.name->0@;
            assert(pre.push(*e).map_values(f) =~= pre.map_values(f).push(f(*e)));
        }
        if e.is_dir {
            match &e.name {
                Some(name) => {
                    if !hidden_name(name.as_str()) {
                        r.push(name.clone());
                    }
                },
                None => {},
            }
        }
        i = i + 1;
        assert(texts(r@) =~= listed_names(entries@.subrange(0, i as int)));
    }
    assert(entries@.subrange(0, i as int) =~= entries@);
    r
}

/// The categories under the base directory: the visible subdirectory names, in
/// case-insensitive order.
pub fn list_categories(entries: &Vec<DirEntry>) -> (r: Vec<String>)
    ensures
        texts(r@).to_multiset() == listed_names(entries@).to_multiset(),
        sorted_by_key::<String>(texts(r@)),
{
    let names = visible_dir_names(entries);
    let r = sort_by_name(names);
    assert(views(r@) =~= texts(r@));
    assert(views(names@) =~= texts(names@));
    r
}

/// Relies on `std::str::from_utf8`: the bytes are accepted exactly when they are valid
/// UTF-8, and then the text is what they encode.
#[verifier::external_body]
fn text_from_utf8(b: &[u8]) -> (r: Option<String>)
    ensures
        r is Some <==> valid_utf8(b@),
        r is Some ==> r->0@ == decode_utf8(b@),
{
    std::str::from_utf8(b).ok().map(|s| s.to_string())
}

/// Relies on `str::trim`: leading and trailing whitespace (Unicode White_Space) removed.
#[verifier::external_body]
fn trimmed(s: &str) -> (r: String)
    ensures
        r@ == trim_of(s@),
{
    s.trim().to_string()
}

/// What was learned about one project directory by looking at it.
#[derive(Debug)]
pub struct Probe {
    /// The directory holds a `.git` marker.
    pub has_git_dir: bool,
    /// What `git branch --show-current` wrote, when it could be run.
    pub branch_output: Option<Vec<u8>>,
    /// What `git status --porcelain` wrote, when it could be run.
    pub status_output: Option<Vec<u8>>,
    /// The names of the language marker files that exist in the directory.
    pub markers: Vec<String>,
}

/// The current branch: the trimmed text of the branch query, when there is a marker and
/// the query gave valid UTF-8.
pub open spec fn branch_of(p: Probe) -> Option<Seq<char>> {
    if !p.has_git_dir {
        None
    } else {
        match p.branch_output {
            Some(b) => if valid_utf8(b@) {
                Some(trim_of(decode_utf8(b@)))
            } else {
                None
            },
            None => None,
        }
    }
}

/// Uncommitted changes: the status query ran and wrote something.
pub open spec fn dirty_of(p: Probe) -> bool {
    p.has_git_dir && p.status_output is Some && p.status_output->0@.len() > 0
}

/// The marker files that are looked for, in order of priority.
pub open spec fn marker_names() -> Seq<Seq<char>> {
    seq![
        "Cargo.toml"@,
        "pom.xml"@,
        "build.gradle"@,
        "package.json"@,
        "pyproject.toml"@,
        "requirements.txt"@,
        "go.mod"@,
    ]
}

/// The language of the first marker, in order of priority, that is present.
pub open spec fn language_of(present: Seq<Seq<char>>) -> Option<Seq<char>> {
    if present.contains("Cargo.toml"@) {
        Some("Rust"@)
    } else if present.contains("pom.xml"@) || present.contains("build.gradle"@) {
        Some("Java"@)
    } else if present.contains("package.json"@) {
        Some("JS/TS"@)
    } else if present.contains("pyproject.toml"@) || present.contains("requirements.txt"@) {
        Some("Python"@)
    } else if present.contains("go.mod"@) {
        Some("Go"@)
    } else {
        None
    }
}

/// The names of the marker files to look for in a project directory.
pub fn language_markers() -> (r: Vec<String>)
    ensures
        texts(r@) == marker_names(),
{
    let r = vec![
        String::from_str("Cargo.toml"),
        String::from_str("pom.xml"),
        String::from_str("build.gradle"),
        String::from_str("package.json"),
        String::from_str("pyproject.toml"),
        String::from_str("requirements.txt"),
        String::from_str("go.mod"),
    ];
    assert(texts(r@) =~= marker_names());
    r
}

/// Whether one of the texts equals `t`.
pub fn has_text(v: &Vec<String>, t: &str) -> (r: bool)
    ensures
        r == texts(v@).contains(t@),
{
    let mut i: usize = 0;
    while i < v.len()
        invariant
            i <= v.len(),
            forall|k: int| 0 <= k < i ==> v@[k]@ != t@,
        decreases v.len() - i,
    {
        if same_text(v[i].as_str(), t) {
            assert(texts(v@)[i as int] == t@);
            return true;
        }
        i = i + 1;
    }
    assert(!texts(v@).contains(t@)) by {
        if texts(v@).contains(t@) {
            let k = choose|k: int| 0 <= k < texts(v@).len() && texts(v@)[k] == t@;
            assert(v@[k]@ == t@);
        }
    }
    false
}

impl App {
    /// The branch and the uncommitted-changes flag of a probed directory.
    pub fn get_git_info(probe: &Probe) -> (r: (Option<String>, bool))
        ensures
            opt_text(r.0) == branch_of(*probe),
            r.1 == dirty_of(*probe),
    {
        if !probe.has_git_dir {
            return (None, false);
        }
        let branch = match &probe.branch_output {
            Some(b) => match text_from_utf8(b.as_slice()) {
                Some(s) => Some(trimmed(s.as_str())),
                None => None,
            },
            None => None,
        };
        let changes = match &probe.status_output {
            Some(out) => out.len() > 0,
            None => false,
        };
        (branch, changes)
    }

    /// The language of a project, from the marker files present in its directory.
    pub fn detect_language(present: &Vec<String>) -> (r: Option<String>)
        ensures
            opt_text(r) == language_of(texts(present@)),
    {
        if has_text(present, "Cargo.toml") {
            Some(String::from_str("Rust"))
        } else if has_text(present, "pom.xml") || has_text(present, "build.gradle") {
            Some(String::from_str("Java"))
        } else if has_text(present, "package.json") {
            Some(String::from_str("JS/TS"))
        } else if has_text(present, "pyproject.toml") || has_text(present, "requirements.txt") {
            Some(String::from_str("Python"))
        } else if has_text(present, "go.mod") {
            Some(String::from_str("Go"))
        } else {
            None
        }
    }
}

/// The record of a project directory, from its name, its path and what was probed.
pub open spec fn record_of(name: Seq<char>, path: Seq<char>, p: Probe) -> ProjectView {
    ProjectView {
        name,
        path,
        git_branch: branch_of(p),
        has_changes: dirty_of(p),
        language: language_of(texts(p.markers@)),
    }
}

/// Builds the record of a probed project directory.
pub fn project_record(name: String, path: String, probe: &Probe) -> (r: ProjectInfo)
    ensures
        r@ == record_of(name@, path@, *probe),
{
    let (git_branch, has_changes) = App::get_git_info(probe);
    let language = App::detect_language(&probe.markers);
    ProjectInfo { name, path, git_branch, has_changes, language }
}

} // verus!

verus! {

/// What `Path::file_name` gives for a path, as text.
pub uninterp spec fn file_name_of(path: Seq<char>) -> Option<Seq<char>>;

/// Relies on `Path::file_name`: the last component of the path, when it has one; the
/// result depends on the text alone.
#[verifier::external_body]
fn path_file_name(path: &str) -> (r: Option<String>)
    ensures
        opt_text(r) == file_name_of(path@),
{
    std::path::Path::new(path).file_name().and_then(|n| n.to_str()).map(|n| n.to_string())
}

/// The name shown for a saved project path.
pub open spec fn name_for(path: Seq<char>) -> Seq<char> {
    match file_name_of(path) {
        Some(n) => n,
        None => "Unknown"@,
    }
}

/// The records of the subdirectories `names` of the directory `dir`, each with its probe.
pub open spec fn category_records(dir: Seq<char>, names: Seq<Seq<char>>, probes: Seq<Probe>) -> Seq<ProjectView> {
    Seq::new(
        names.len(),
        |i: int| record_of(names[i], crate::launch::joined_path(dir, names[i]), probes[i]),
    )
}

/// The records of the saved paths that still exist (those with a probe), in their saved
/// order.
pub open spec fn saved_records(paths: Seq<Seq<char>>, probes: Seq<Option<Probe>>) -> Seq<ProjectView>
    decreases paths.len(),
{
    if paths.len() == 0 || probes.len() == 0 {
        Seq::empty()
    } else {
        let pre = saved_records(paths.drop_last(), probes.drop_last());
        match probes.last() {
            Some(p) => pre.push(record_of(name_for(paths.last()), paths.last(), p)),
            None => pre,
        }
    }
}

/// The records of the subdirectories `names` of `dir`, each with its probe.
pub fn build_category_records(dir: &String, names: &Vec<String>, probes: &Vec<Probe>) -> (r: Vec<
    ProjectInfo,
>)
    requires
        names.len() == probes.len(),
    ensures
        crate::sorting::views(r@) == category_records(dir@, texts(names@), probes@),
{
    let ghost want = category_records(dir@, texts(names@), probes@);
    let mut r: Vec<ProjectInfo> = Vec::new();
    let mut i: usize = 0;
    while i < names.len()
        invariant
            i <= names.len(),
            names.len() == probes.len(),
            want == category_records(dir@, texts(names@), probes@),
            crate::sorting::views(r@) == want.subrange(0, i as int),
        decreases names.len() - i,
    {
        let ghost pre = crate::sorting::views(r@);
        let path = crate::launch::join_path(dir.as_str(), names[i].as_str());
        r.push(project_record(names[i].clone(), path, &probes[i]));
        assert(crate::sorting::views(r@) =~= pre.push(want[i as int]));
        i = i + 1;
        assert(crate::sorting::views(r@) =~= want.subrange(0, i as int));
    }
    assert(want.subrange(0, i as int) =~= want);
    r
}

/// The records of the saved paths that still exist, in their saved order.
pub fn build_saved_records(paths: &Vec<String>, probes: &Vec<Option<Probe>>) -> (r: Vec<ProjectInfo>)
    requires
        paths.len() == probes.len(),
    ensures
        crate::sorting::views(r@) == saved_records(texts(paths@), probes@),
{
    let ghost ps = texts(paths@);
    let mut r: Vec<ProjectInfo> = Vec::new();
    let mut i: usize = 0;
    while i < paths.len()
        invariant
            i <= paths.len(),
            paths.len() == probes.len(),
            ps == texts(paths@),
            crate::sorting::views(r@) == saved_records(
                ps.subrange(0, i as int),
                probes@.subrange(0, i as int),
            ),
        decreases paths.len() - i,
    {
        let ghost pre = crate::sorting::views(r@);
        proof {
            assert(ps.subrange(0, i + 1).drop_last() =~= ps.subrange(0, i as int));
            assert(probes@.subrange(0, i + 1).drop_last() =~= probes@.subrange(0, i as int));
        }
        match &probes[i] {
            Some(probe) => {
                let name = match path_file_name(paths[i].as_str()) {
                    Some(n) => n,
                    None => String::from_str("Unknown"),
                };
                r.push(project_record(name, paths[i].clone(), probe));
                assert(crate::sorting::views(r@) =~= pre.push(
                    record_of(name_for(ps[i as int]), ps[i as int], *probe),
                ));
            },
            None => {},
        }
        i = i + 1;
    }
    assert(ps.subrange(0, i as int) =~= ps);
    assert(probes@.subrange(0, i as int) =~= probes@);
    r
}

} // verus!

use vstd::prelude::*;
use crate::text::{chars_of, ends_with, piece, same_text, text_ends_with, texts, words_of};

verus! {

/// A program to start, with its arguments and the directory to start it in.
#[derive(Debug)]
pub struct Command {
    pub program: String,
    pub args: Vec<String>,
    pub dir: Option<String>,
}

/// The mathematical value of a [`Command`].
pub struct CommandView {
    pub program: Seq<char>,
    pub args: Seq<Seq<char>>,
    pub dir: Option<Seq<char>>,
}

impl View for Command {
    type V = CommandView;

    open spec fn view(&self) -> CommandView {
        CommandView {
            program: self.program@,
            args: texts(self.args@),
            dir: crate::models::opt_text(self.dir),
        }
    }
}

/// A program to start and leave running, with the status line to show once it started
/// and the project path that goes first in the history once it started.
#[derive(Debug)]
pub struct Launch {
    pub command: Command,
    pub message: String,
    pub recent: Option<String>,
}

/// The two clone tools, tried in this order.
#[derive(PartialEq, Eq, Structural, Clone, Copy, Debug)]
pub enum CloneTool {
    Primary,
    Fallback,
}

/// One attempt at cloning a repository into a category directory.
#[derive(Debug)]
pub struct CloneJob {
    pub tool: CloneTool,
    pub url: String,
    pub dir: String,
    pub project_name: String,
    pub project_path: String,
    pub command: Command,
}

/// What `Path::join` gives on Unix: an absolute `part` replaces `base`; otherwise `part` is
/// appended, after a `/` when `base` is not empty and does not end with one.
pub open spec fn joined_path(base: Seq<char>, part: Seq<char>) -> Seq<char> {
    if part.len() > 0 && part[0] == '/' {
        part
    } else if base.len() > 0 && base.last() != '/' {
        base + seq!['/'] + part
    } else {
        base + part
    }
}

/// Relies on `Path::join` (Unix paths); both texts are valid UTF-8, so converting the
/// result back to a string loses nothing.
#[verifier::external_body]
pub(crate) fn join_path(base: &str, part: &str) -> (r: String)
    ensures
        r@ == joined_path(base@, part@),
{
    std::path::Path::new(base).join(part).to_string_lossy().into_owned()
}

/// Relies on `str::split_whitespace`: the maximal runs of characters without Unicode
/// White_Space, in order.
#[verifier::external_body]
fn split_words(s: &str) -> (r: Vec<String>)
    ensures
        texts(r@) == words_of(s@),
{
    s.split_whitespace().map(|w| w.to_string()).collect()
}

/// The position of the last `/` in a text, or -1.
pub open spec fn last_slash(s: Seq<char>) -> int
    decreases s.len(),
{
    if s.len() == 0 {
        -1
    } else if s.last() == '/' {
        s.len() - 1
    } else {
        last_slash(s.drop_last())
    }
}

/// The text after the last `/`, or the whole text when it has none.
pub open spec fn last_segment(s: Seq<char>) -> Seq<char> {
    s.subrange(last_slash(s) + 1, s.len() as int)
}

/// The directory name a clone of `url` gets: the last path segment without a `.git`
/// suffix, or `new-project` when the last segment is empty.
pub open spec fn project_name_of(url: Seq<char>) -> Seq<char> {
    let seg = last_segment(url);
    if seg.len() == 0 {
        "new-project"@
    } else if ends_with(seg, ".git"@) {
        seg.subrange(0, seg.len() - ".git"@.len())
    } else {
        seg
    }
}

proof fn lemma_last_slash_bounds(s: Seq<char>)
    ensures
        -1 <= last_slash(s) < s.len(),
    decreases s.len(),
{
    if s.len() > 0 {
        lemma_last_slash_bounds(s.drop_last());
    }
}

/// The name of the project directory that cloning `url` creates.
pub fn clone_project_name(url: &str) -> (r: String)
    ensures
        r@ == project_name_of(url@),
{
    let cs = chars_of(url);
    let n = cs.len();
    let mut start: usize = 0;
    let mut i: usize = 0;
    while i < n
        invariant
            n == cs@.len(),
            cs@ == url@,
            i <= n,
            start <= i,
            start as int == last_slash(cs@.subrange(0, i as int)) + 1,
        decreases n - i,
    {
        assert(cs@.subrange(0, i + 1).drop_last() =~= cs@.subrange(0, i as int));
        if cs[i] == '/' {
            start = i + 1;
        }
        i = i + 1;
    }
    assert(cs@.subrange(0, n as int) =~= cs@);
    let seg = piece(url, start, n);
    assert(seg@ =~= last_segment(url@));
    if start == n {
        return String::from_str("new-project");
    }
    let git = ".git";
    if text_ends_with(seg.as_str(), git) {
        let m = git.unicode_len();
        piece(seg.as_str(), 0, n - start - m)
    } else {
        seg
    }
}

/// The command that clones `url` into `dir` with the given tool.
pub open spec fn clone_command_of(tool: CloneTool, url: Seq<char>, dir: Seq<char>) -> CommandView {
    match tool {
        CloneTool::Primary => CommandView {
            program: "gh"@,
            args: seq!["repo"@, "clone"@, url, "--"@, "--quiet"@],
            dir: Some(dir),
        },
        CloneTool::Fallback => CommandView {
            program: "git"@,
            args: seq!["clone"@, "--quiet"@, url],
            dir: Some(dir),
        },
    }
}

/// The command that clones `url` into `dir` with the given tool.
pub fn clone_command(tool: CloneTool, url: &String, dir: &String) -> (r: Command)
    ensures
        r@ == clone_command_of(tool, url@, dir@),
{
    match tool {
        CloneTool::Primary => {
            let args = vec![
                String::from_str("repo"),
                String::from_str("clone"),
                url.clone(),
                String::from_str("--"),
                String::from_str("--quiet"),
            ];
            let r = Command { program: String::from_str("gh"), args, dir: Some(dir.clone()) };
            assert(r@.args =~= clone_command_of(tool, url@, dir@).args);
            r
        },
        CloneTool::Fallback => {
            let args = vec![String::from_str("clone"), String::from_str("--quiet"), url.clone()];
            let r = Command { program: String::from_str("git"), args, dir: Some(dir.clone()) };
            assert(r@.args =~= clone_command_of(tool, url@, dir@).args);
            r
        },
    }
}

/// The attempt at cloning `url` into the directory `dir` with the given tool.
pub open spec fn clone_job_matches(
    j: CloneJob,
    tool: CloneTool,
    url: Seq<char>,
    dir: Seq<char>,
) -> bool {
    &&& j.tool == tool
    &&& j.url@ == url
    &&& j.dir@ == dir
    &&& j.project_name@ == project_name_of(url)
    &&& j.project_path@ == joined_path(dir, project_name_of(url))
    &&& j.command@ == clone_command_of(tool, url, dir)
}

/// Prepares an attempt at cloning `url` into `dir` with the given tool.
pub fn clone_job(tool: CloneTool, url: &String, dir: &String) -> (r: CloneJob)
    ensures
        clone_job_matches(r, tool, url@, dir@),
{
    let project_name = clone_project_name(url.as_str());
    let project_path = join_path(dir.as_str(), project_name.as_str());
    let command = clone_command(tool, url, dir);
    CloneJob { tool, url: url.clone(), dir: dir.clone(), project_name, project_path, command }
}

/// The command made of the words of a terminal template and the project path.
pub open spec fn command_from_words_of(w: Seq<Seq<char>>, path: Seq<char>) -> Option<CommandView> {
    if w.len() == 0 {
        None
    } else {
        Some(CommandView { program: w[0], args: w.drop_first().push(path), dir: None })
    }
}

/// The terminal command: the template's words, then the project path.
pub open spec fn terminal_command_of(template: Seq<char>, path: Seq<char>) -> Option<CommandView> {
    command_from_words_of(words_of(template), path)
}

/// The view of an optional command.
pub open spec fn opt_command(c: Option<Command>) -> Option<CommandView> {
    match c {
        Some(c) => Some(c@),
        None => None,
    }
}

/// The command that opens a terminal on `path`, or none when the template is empty.
pub fn terminal_command(template: &String, path: &String) -> (r: Option<Command>)
    ensures
        opt_command(r) == terminal_command_of(template@, path@),
{
    let words = split_words(template.as_str());
    command_from_words(&words, path)
}

/// The first word as the program, the other words and then `path` as its arguments; none
/// when there are no words.
pub fn command_from_words(words: &Vec<String>, path: &String) -> (r: Option<Command>)
    ensures
        opt_command(r) == command_from_words_of(texts(words@), path@),
{
    if words.len() == 0 {
        return None;
    }
    let program = words[0].clone();
    let mut args: Vec<String> = Vec::new();
    let mut i: usize = 1;
    while i < words.len()
        invariant
            1 <= i <= words.len(),
            texts(args@) == texts(words@).subrange(1, i as int),
        decreases words.len() - i,
    {
        let ghost pre = texts(args@);
        args.push(words[i].clone());
        assert(texts(args@) =~= pre.push(texts(words@)[i as int]));
        i = i + 1;
        assert(texts(args@) =~= texts(words@).subrange(1, i as int));
    }
    let ghost pre = texts(args@);
    args.push(path.clone());
    let r = Command { program, args, dir: None };
    assert(texts(words@).subrange(1, i as int) =~= texts(words@).drop_first());
    assert(r@.args =~= pre.push(path@));
    Some(r)
}

/// The command that starts the editor, on a path or on nothing.
pub open spec fn editor_command_of(editor: Seq<char>, path: Option<Seq<char>>) -> CommandView {
    CommandView {
        program: editor,
        args: match path {
            Some(p) => seq![p],
            None => Seq::empty(),
        },
        dir: None,
    }
}

/// The command that starts the editor, on a path or on nothing.
pub fn editor_command(editor: &String, path: Option<&String>) -> (r: Command)
    ensures
        r@ == editor_command_of(
            editor@,
            match path {
                Some(p) => Some(p@),
                None => None,
            },
        ),
{
    let mut args: Vec<String> = Vec::new();
    match path {
        Some(p) => {
            args.push(p.clone());
        },
        None => {},
    }
    let r = Command { program: editor.clone(), args, dir: None };
    assert(r@.args =~= editor_command_of(
        editor@,
        match path {
            Some(p) => Some(p@),
            None => None,
        },
    ).args);
    r
}

} // verus!

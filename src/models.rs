use vstd::prelude::*;

verus! {

/// The screen the launcher shows; exactly one is active at a time.
#[derive(PartialEq, Eq, Structural, Clone, Copy, Debug)]
pub enum AppMode {
    MainMenu,
    CategorySelection,
    ProjectSelection,
    InputUrl,
    CloneCategory,
    Favorites,
    Recent,
    ConfirmOpen,
    Help,
    ThemeSelection,
}

/// The persistent settings record.
pub struct Config {
    pub base_dir: String,
    pub idea_path: String,
    pub terminal_command: String,
    pub favorites: Vec<String>,
    pub recent_projects: Vec<String>,
    pub theme: String,
}

/// The terminal command used when the settings name none.
pub fn default_terminal_cmd() -> (r: String)
    ensures
        r@ == "kitty --directory"@,
{
    String::from_str("kitty --directory")
}

/// The theme used when the settings name none.
pub fn default_theme() -> (r: String)
    ensures
        r@ == "Darcula (default)"@,
{
    String::from_str("Darcula (default)")
}

impl Default for Config {
    fn default() -> (r: Config)
        ensures
            r.base_dir@ == "/home/fabian/dev"@,
            r.idea_path@ == "/opt/intellij-idea-ultimate-edition/bin/idea"@,
            r.terminal_command@ == "kitty --directory"@,
            r.favorites@.len() == 0,
            r.recent_projects@.len() == 0,
            r.theme@ == "Darcula (default)"@,
    {
        Config {
            base_dir: String::from_str("/home/fabian/dev"),
            idea_path: String::from_str("/opt/intellij-idea-ultimate-edition/bin/idea"),
            terminal_command: default_terminal_cmd(),
            favorites: Vec::new(),
            recent_projects: Vec::new(),
            theme: default_theme(),
        }
    }
}

/// One project directory with what was learned about it.
#[derive(Debug, Clone)]
pub struct ProjectInfo {
    pub name: String,
    pub path: String,
    pub git_branch: Option<String>,
    pub has_changes: bool,
    pub language: Option<String>,
}

/// The mathematical value of a [`ProjectInfo`].
pub struct ProjectView {
    pub name: Seq<char>,
    pub path: Seq<char>,
    pub git_branch: Option<Seq<char>>,
    pub has_changes: bool,
    pub language: Option<Seq<char>>,
}

/// The view of an optional string.
pub open spec fn opt_text(o: Option<String>) -> Option<Seq<char>> {
    match o {
        Some(s) => Some(s@),
        None => None,
    }
}

impl View for ProjectInfo {
    type V = ProjectView;

    open spec fn view(&self) -> ProjectView {
        ProjectView {
            name: self.name@,
            path: self.path@,
            git_branch: opt_text(self.git_branch),
            has_changes: self.has_changes,
            language: opt_text(self.language),
        }
    }
}

/// A copy of an optional string.
pub fn copy_opt_text(o: &Option<String>) -> (r: Option<String>)
    ensures
        opt_text(r) == opt_text(*o),
{
    match o {
        Some(s) => Some(s.clone()),
        None => None,
    }
}

impl ProjectInfo {
    /// A copy of this record.
    pub fn duplicate(&self) -> (r: ProjectInfo)
        ensures
            r@ == self@,
    {
        ProjectInfo {
            name: self.name.clone(),
            path: self.path.clone(),
            git_branch: copy_opt_text(&self.git_branch),
            has_changes: self.has_changes,
            language: copy_opt_text(&self.language),
        }
    }
}

} // verus!

use vstd::prelude::*;
use crate::catalog::{
    build_category_records, build_saved_records, category_records, list_categories, listed_names,
    saved_records, visible_dir_names, DirEntry, Probe,
};
use crate::launch::{
    clone_job, clone_job_matches, editor_command, editor_command_of, join_path, joined_path,
    project_name_of, terminal_command, terminal_command_of, CloneJob, CloneTool, Launch,
};
use crate::text::{pop_char, push_char};
use crate::listing::{
    lemma_forward_then_back, add_recent, favorites_after, filter_names, filter_projects, filtered, filtered_names,
    first_selection, move_back, move_forward, recent_after, selection_fits, step_back, step_forward,
    toggle_text,
};
use crate::models::{opt_text, AppMode, Config, ProjectInfo, ProjectView};
use crate::sorting::{sort_by_name, sorted_by_key, views};
use crate::text::texts;

verus! {

/// A key press, as the launcher tells keys apart.
#[derive(PartialEq, Eq, Structural, Clone, Copy, Debug)]
pub enum Key {
    Char(char),
    Enter,
    Backspace,
    Esc,
    Up,
    Down,
    Left,
    Right,
    Other,
}

/// What is waiting for confirmation before it is opened.
#[derive(Debug)]
pub enum PendingOpen {
    /// The editor itself, with no project.
    Editor,
    /// A project.
    Project(ProjectInfo),
}

/// Outside work that an event asks for; the caller performs it and reports back.
#[derive(Debug)]
pub enum Effect {
    /// Nothing to do.
    Nothing,
    /// Leave the launcher.
    Quit,
    /// Probe the favorite paths and hand them to [`App::load_favorites`].
    LoadFavorites,
    /// Probe the recent paths and hand them to [`App::load_recent`].
    LoadRecent,
    /// List the base directory and hand it to [`App::load_categories`].
    LoadCategories,
    /// List and probe the category directory `dir` and hand it to [`App::load_projects`].
    LoadProjects { category: String, dir: String },
    /// Run the clone command, wait for it, and report to [`App::clone_finished`].
    Clone(CloneJob),
    /// Start the program and leave it running; report to [`App::report_launch`].
    Spawn(Launch),
}

/// The state of the launcher.
pub struct App {
    pub mode: AppMode,
    pub previous_mode: Option<AppMode>,
    pub config: Config,
    pub menu_items: Vec<String>,
    pub menu_selected: Option<usize>,
    pub categories: Vec<String>,
    pub category_selected: Option<usize>,
    pub selected_category: Option<String>,
    pub projects: Vec<ProjectInfo>,
    pub project_selected: Option<usize>,
    pub theme_items: Vec<String>,
    pub theme_selected: Option<usize>,
    pub input: String,
    pub status_message: Option<String>,
    pub search_query: String,
    pub is_searching: bool,
    pub pending_project: Option<PendingOpen>,
    /// The settings changed since they were last saved.
    pub config_dirty: bool,
}

/// The number of main menu entries.
pub const MENU_LEN: usize = 6;

/// The number of themes offered.
pub const THEME_LEN: usize = 11;

/// The entries of the main menu, in order.
pub open spec fn menu_labels() -> Seq<Seq<char>> {
    seq![
        "Favorites"@,
        "Recent Projects"@,
        "Open Existing Project"@,
        "Clone Repository"@,
        "Open IntelliJ IDEA"@,
        "Choose Theme"@,
    ]
}

/// The themes offered, in order; the first is the default theme.
pub open spec fn theme_names() -> Seq<Seq<char>> {
    seq![
        "Darcula (default)"@,
        "Catppuccin Mocha"@,
        "Dracula"@,
        "Gruvbox"@,
        "Nord"@,
        "Solarized Dark"@,
        "One Dark"@,
        "Tokyo Night"@,
        "Everforest"@,
        "Rose Pine"@,
        "Ayu Mirage"@,
    ]
}

/// The default theme is the first theme offered.
pub proof fn lemma_default_theme_offered()
    ensures
        theme_names()[0] == "Darcula (default)"@,
{
}

/// The screen that `back` leads to from `mode`.
pub open spec fn back_mode(mode: AppMode, prev: Option<AppMode>) -> AppMode {
    match mode {
        AppMode::MainMenu => AppMode::MainMenu,
        AppMode::CategorySelection => AppMode::MainMenu,
        AppMode::InputUrl => AppMode::MainMenu,
        AppMode::Favorites => AppMode::MainMenu,
        AppMode::Recent => AppMode::MainMenu,
        AppMode::ThemeSelection => AppMode::MainMenu,
        AppMode::ProjectSelection => AppMode::CategorySelection,
        AppMode::CloneCategory => AppMode::InputUrl,
        AppMode::ConfirmOpen | AppMode::Help => match prev {
            Some(m) => m,
            None => AppMode::MainMenu,
        },
    }
}

/// The two screens that interrupt another one and return to it.
pub open spec fn is_interrupt(mode: AppMode) -> bool {
    mode == AppMode::ConfirmOpen || mode == AppMode::Help
}

/// The screens that list projects.
pub open spec fn lists_projects(mode: AppMode) -> bool {
    mode == AppMode::ProjectSelection || mode == AppMode::Favorites || mode == AppMode::Recent
}

/// The screens that list categories.
pub open spec fn lists_categories(mode: AppMode) -> bool {
    mode == AppMode::CategorySelection || mode == AppMode::CloneCategory
}

/// `b` has the same listings, settings and inputs as `a`.
pub open spec fn same_data(a: App, b: App) -> bool {
    &&& b.config == a.config
    &&& b.config_dirty == a.config_dirty
    &&& b.categories == a.categories
    &&& b.projects == a.projects
    &&& b.selected_category == a.selected_category
    &&& b.menu_items == a.menu_items
    &&& b.theme_items == a.theme_items
    &&& b.input == a.input
}

/// `b` has the same cursors as `a`.
pub open spec fn same_cursors(a: App, b: App) -> bool {
    &&& b.menu_selected == a.menu_selected
    &&& b.theme_selected == a.theme_selected
    &&& b.category_selected == a.category_selected
    &&& b.project_selected == a.project_selected
}

/// `b` has the same screen, search and pending state as `a`.
pub open spec fn same_screen(a: App, b: App) -> bool {
    &&& b.mode == a.mode
    &&& b.previous_mode == a.previous_mode
    &&& b.search_query == a.search_query
    &&& b.is_searching == a.is_searching
    &&& b.pending_project == a.pending_project
}

/// The listing cursors of `b` sit on the first shown entry, if any.
pub open spec fn cursors_reset(b: App) -> bool {
    &&& b.category_selected == first_selection(b.shown_categories().len())
    &&& b.project_selected == first_selection(b.shown_projects().len())
}

/// The search of `b` is over and its filter is empty.
pub open spec fn search_cleared(a: App, b: App) -> bool {
    &&& !b.is_searching
    &&& b.search_query@.len() == 0
    &&& (if a.search_query@.len() == 0 {
        &&& b.search_query@ == a.search_query@
        &&& b.category_selected == a.category_selected
        &&& b.project_selected == a.project_selected
    } else {
        cursors_reset(b)
    })
}

impl App {
    /// The categories shown under the current filter.
    pub open spec fn shown_categories(&self) -> Seq<Seq<char>> {
        filtered_names(self.search_query@, texts(self.categories@))
    }

    /// The projects shown under the current filter.
    pub open spec fn shown_projects(&self) -> Seq<ProjectView> {
        filtered(self.search_query@, views(self.projects@))
    }

    /// The state is consistent: cursors fit their shown listings, and exactly the
    /// interrupting screens remember where they came from.
    pub open spec fn wf(&self) -> bool {
        &&& self.menu_items@.len() == MENU_LEN
        &&& self.theme_items@.len() == THEME_LEN
        &&& self.menu_selected is Some && self.menu_selected->0 < MENU_LEN
        &&& self.theme_selected is Some && self.theme_selected->0 < THEME_LEN
        &&& selection_fits(self.category_selected, self.shown_categories().len())
        &&& selection_fits(self.project_selected, self.shown_projects().len())
        &&& (self.previous_mode is Some <==> is_interrupt(self.mode))
        &&& (self.previous_mode is Some ==> !is_interrupt(self.previous_mode->0))
        &&& (self.pending_project is Some <==> self.mode == AppMode::ConfirmOpen)
    }

    /// A launcher on the main menu with the given settings.
    pub fn new(config: Config) -> (r: App)
        ensures
            r.wf(),
            texts(r.menu_items@) == menu_labels(),
            texts(r.theme_items@) == theme_names(),
            r.mode == AppMode::MainMenu,
            r.previous_mode is None,
            r.config == config,
            r.menu_selected == Some(0usize),
            r.theme_selected == Some(0usize),
            r.categories@.len() == 0,
            r.projects@.len() == 0,
            r.category_selected is None,
            r.project_selected is None,
            r.search_query@.len() == 0,
            !r.is_searching,
            r.input@.len() == 0,
            r.status_message is None,
            r.pending_project is None,
            r.selected_category is None,
            !r.config_dirty,
    {
        let menu_items = vec![
            String::from_str("Favorites"),
            String::from_str("Recent Projects"),
            String::from_str("Open Existing Project"),
            String::from_str("Clone Repository"),
            String::from_str("Open IntelliJ IDEA"),
            String::from_str("Choose Theme"),
        ];
        let theme_items = vec![
            String::from_str("Darcula (default)"),
            String::from_str("Catppuccin Mocha"),
            String::from_str("Dracula"),
            String::from_str("Gruvbox"),
            String::from_str("Nord"),
            String::from_str("Solarized Dark"),
            String::from_str("One Dark"),
            String::from_str("Tokyo Night"),
            String::from_str("Everforest"),
            String::from_str("Rose Pine"),
            String::from_str("Ayu Mirage"),
        ];
        let r = App {
            mode: AppMode::MainMenu,
            previous_mode: None,
            config,
            menu_items,
            menu_selected: Some(0),
            categories: Vec::new(),
            category_selected: None,
            selected_category: None,
            projects: Vec::new(),
            project_selected: None,
            theme_items,
            theme_selected: Some(0),
            input: String::new(),
            status_message: None,
            search_query: String::new(),
            is_searching: false,
            pending_project: None,
            config_dirty: false,
        };
        proof {
            reveal(Seq::filter);
            assert(texts(r.menu_items@) =~= menu_labels());
            assert(texts(r.theme_items@) =~= theme_names());
            assert(r.shown_categories().len() == 0);
            assert(r.shown_projects().len() == 0);
        }
        r
    }

    /// The categories shown under the current filter.
    pub fn get_filtered_categories(&self) -> (r: Vec<String>)
        ensures
            texts(r@) == self.shown_categories(),
            self.search_query@.len() == 0 ==> texts(r@) == texts(self.categories@),
    {
        filter_names(self.search_query.as_str(), &self.categories)
    }

    /// The projects shown under the current filter.
    pub fn get_filtered_projects(&self) -> (r: Vec<ProjectInfo>)
        ensures
            views(r@) == self.shown_projects(),
            self.search_query@.len() == 0 ==> views(r@) == views(self.projects@),
    {
        filter_projects(self.search_query.as_str(), &self.projects)
    }

    /// Puts both listing cursors on the first shown entry.
    fn reset_cursors(&mut self)
        ensures
            same_data(*old(self), *final(self)),
            same_screen(*old(self), *final(self)),
            final(self).menu_selected == old(self).menu_selected,
            final(self).theme_selected == old(self).theme_selected,
            final(self).status_message == old(self).status_message,
            cursors_reset(*final(self)),
    {
        let n = self.get_filtered_categories().len();
        self.category_selected = if n == 0 { None } else { Some(0) };
        let m = self.get_filtered_projects().len();
        self.project_selected = if m == 0 { None } else { Some(0) };
    }

    /// Ends the search and empties the filter.
    fn clear_search(&mut self)
        ensures
            same_data(*old(self), *final(self)),
            final(self).mode == old(self).mode,
            final(self).previous_mode == old(self).previous_mode,
            final(self).pending_project == old(self).pending_project,
            final(self).menu_selected == old(self).menu_selected,
            final(self).theme_selected == old(self).theme_selected,
            final(self).status_message == old(self).status_message,
            search_cleared(*old(self), *final(self)),
    {
        self.is_searching = false;
        if self.search_query.unicode_len() > 0 {
            self.search_query = String::new();
            self.reset_cursors();
        }
    }

    /// Leaves the current screen: the search ends and its filter is emptied, then the
    /// screen that `back` leads to is shown; leaving an interrupting screen drops what
    /// was pending.
    pub fn go_back(&mut self)
        requires
            old(self).wf(),
        ensures
            final(self).wf(),
            back_step(*old(self), *final(self)),
    {
        self.clear_search();
        match self.mode {
            AppMode::MainMenu => {},
            AppMode::CategorySelection | AppMode::InputUrl | AppMode::Favorites | AppMode::Recent
            | AppMode::ThemeSelection => {
                self.mode = AppMode::MainMenu;
            },
            AppMode::ProjectSelection => {
                self.mode = AppMode::CategorySelection;
            },
            AppMode::CloneCategory => {
                self.mode = AppMode::InputUrl;
            },
            AppMode::ConfirmOpen | AppMode::Help => {
                self.mode = match self.previous_mode.take() {
                    Some(m) => m,
                    None => AppMode::MainMenu,
                };
                self.pending_project = None;
            },
        }
    }

    /// Moves the cursor of the current screen's listing down, wrapping at the end.
    pub fn next(&mut self)
        requires
            old(self).wf(),
        ensures
            final(self).wf(),
            forward_step(*old(self), *final(self)),
    {
        match self.mode {
            AppMode::MainMenu => {
                self.menu_selected = move_forward(self.menu_selected, self.menu_items.len());
            },
            AppMode::ThemeSelection => {
                self.theme_selected = move_forward(self.theme_selected, self.theme_items.len());
            },
            AppMode::CategorySelection | AppMode::CloneCategory => {
                let n = self.get_filtered_categories().len();
                self.category_selected = move_forward(self.category_selected, n);
            },
            AppMode::ProjectSelection | AppMode::Favorites | AppMode::Recent => {
                let n = self.get_filtered_projects().len();
                self.project_selected = move_forward(self.project_selected, n);
            },
            _ => {},
        }
    }

    /// Moves the cursor of the current screen's listing up, wrapping at the start.
    pub fn previous(&mut self)
        requires
            old(self).wf(),
        ensures
            final(self).wf(),
            backward_step(*old(self), *final(self)),
    {
        match self.mode {
            AppMode::MainMenu => {
                self.menu_selected = move_back(self.menu_selected, self.menu_items.len());
            },
            AppMode::ThemeSelection => {
                self.theme_selected = move_back(self.theme_selected, self.theme_items.len());
            },
            AppMode::CategorySelection | AppMode::CloneCategory => {
                let n = self.get_filtered_categories().len();
                self.category_selected = move_back(self.category_selected, n);
            },
            AppMode::ProjectSelection | AppMode::Favorites | AppMode::Recent => {
                let n = self.get_filtered_projects().len();
                self.project_selected = move_back(self.project_selected, n);
            },
            _ => {},
        }
    }

    /// Replaces the categories with the visible subdirectories of the base directory
    /// listing, in case-insensitive order.
    pub fn load_categories(&mut self, entries: &Vec<DirEntry>)
        requires
            old(self).wf(),
        ensures
            final(self).wf(),
            texts(final(self).categories@).to_multiset() == listed_names(entries@).to_multiset(),
            sorted_by_key::<String>(texts(final(self).categories@)),
            final(self).category_selected == first_selection(final(self).shown_categories().len()),
            old(self).search_query@.len() == 0 ==> final(self).category_selected == first_selection(
                final(self).categories@.len(),
            ),
            reloaded(*old(self), *final(self)),
            final(self).projects == old(self).projects,
            final(self).project_selected == old(self).project_selected,
            final(self).selected_category == old(self).selected_category,
    {
        let cats = list_categories(entries);
        self.categories = cats;
        let n = self.get_filtered_categories().len();
        self.category_selected = if n == 0 { None } else { Some(0) };
    }

    /// Replaces the projects with the records of a category's subdirectories, in
    /// case-insensitive order of name. `entries` lists the category directory under the base
    /// directory (none when it cannot be read); `probes` holds what was probed in each of its
    /// visible subdirectories, in listing order.
    pub fn load_projects(&mut self, category: String, entries: &Vec<DirEntry>, probes: &Vec<Probe>)
        requires
            old(self).wf(),
            probes.len() == listed_names(entries@).len(),
        ensures
            final(self).wf(),
            views(final(self).projects@).to_multiset() == category_records(
                joined_path(old(self).config.base_dir@, category@),
                listed_names(entries@),
                probes@,
            ).to_multiset(),
            sorted_by_key::<ProjectInfo>(views(final(self).projects@)),
            final(self).project_selected == first_selection(final(self).shown_projects().len()),
            old(self).search_query@.len() == 0 ==> final(self).project_selected == first_selection(
                final(self).projects@.len(),
            ),
            final(self).selected_category == Some(category),
            reloaded(*old(self), *final(self)),
            final(self).categories == old(self).categories,
            final(self).category_selected == old(self).category_selected,
    {
        let names = visible_dir_names(entries);
        let dir = join_path(self.config.base_dir.as_str(), category.as_str());
        let records = build_category_records(&dir, &names, probes);
        self.projects = sort_by_name(records);
        let n = self.get_filtered_projects().len();
        self.project_selected = if n == 0 { None } else { Some(0) };
        self.selected_category = Some(category);
    }

    /// Replaces the projects with the favorites that still exist, in case-insensitive
    /// order of name. `probes` holds, for each favorite in order, what was probed at its
    /// path, or nothing when the path does not exist.
    pub fn load_favorites(&mut self, probes: &Vec<Option<Probe>>)
        requires
            old(self).wf(),
            probes.len() == old(self).config.favorites.len(),
        ensures
            final(self).wf(),
            views(final(self).projects@).to_multiset() == saved_records(
                texts(old(self).config.favorites@),
                probes@,
            ).to_multiset(),
            sorted_by_key::<ProjectInfo>(views(final(self).projects@)),
            final(self).project_selected == first_selection(final(self).shown_projects().len()),
            old(self).search_query@.len() == 0 ==> final(self).project_selected == first_selection(
                final(self).projects@.len(),
            ),
            final(self).selected_category is None,
            reloaded(*old(self), *final(self)),
            final(self).categories == old(self).categories,
            final(self).category_selected == old(self).category_selected,
    {
        let records = build_saved_records(&self.config.favorites, probes);
        self.projects = sort_by_name(records);
        let n = self.get_filtered_projects().len();
        self.project_selected = if n == 0 { None } else { Some(0) };
        self.selected_category = None;
    }

    /// Replaces the projects with the recent paths that still exist, most recent first.
    /// `probes` holds, for each recent path in order, what was probed at it, or nothing when
    /// the path does not exist.
    pub fn load_recent(&mut self, probes: &Vec<Option<Probe>>)
        requires
            old(self).wf(),
            probes.len() == old(self).config.recent_projects.len(),
        ensures
            final(self).wf(),
            views(final(self).projects@) == saved_records(
                texts(old(self).config.recent_projects@),
                probes@,
            ),
            final(self).project_selected == first_selection(final(self).shown_projects().len()),
            old(self).search_query@.len() == 0 ==> final(self).project_selected == first_selection(
                final(self).projects@.len(),
            ),
            final(self).selected_category is None,
            reloaded(*old(self), *final(self)),
            final(self).categories == old(self).categories,
            final(self).category_selected == old(self).category_selected,
    {
        self.projects = build_saved_records(&self.config.recent_projects, probes);
        let n = self.get_filtered_projects().len();
        self.project_selected = if n == 0 { None } else { Some(0) };
        self.selected_category = None;
    }

    /// Puts a path first in the history of opened projects, at most ten entries.
    pub fn add_to_recent(&mut self, path: String)
        requires
            old(self).wf(),
        ensures
            final(self).wf(),
            recent_added(*old(self), *final(self), path@),
    {
        add_recent(&mut self.config.recent_projects, path);
        self.config_dirty = true;
    }

    /// Adds the selected project to the favorites, or removes it when it is there.
    pub fn toggle_favorite(&mut self)
        requires
            old(self).wf(),
        ensures
            final(self).wf(),
            favorite_toggled(*old(self), *final(self)),
    {
        let shown = self.get_filtered_projects();
        match self.project_selected {
            Some(i) => {
                if i < shown.len() {
                    let p = &shown[i];
                    let present = crate::catalog::has_text(&self.config.favorites, p.path.as_str());
                    toggle_text(&mut self.config.favorites, p.path.clone());
                    let msg = if present {
                        String::from_str("Removed ").concat(p.name.as_str()).concat(" from favorites")
                    } else {
                        String::from_str("Added ").concat(p.name.as_str()).concat(" to favorites")
                    };
                    self.status_message = Some(msg);
                    self.config_dirty = true;
                }
            },
            None => {},
        }
    }

    /// The terminal to open on the selected project, when there is one and the terminal
    /// command names a program.
    pub fn open_terminal(&self) -> (r: Effect)
        requires
            self.wf(),
        ensures
            terminal_effect(*self, r),
    {
        let shown = self.get_filtered_projects();
        match self.project_selected {
            Some(i) => {
                if i < shown.len() {
                    let p = &shown[i];
                    match terminal_command(&self.config.terminal_command, &p.path) {
                        Some(command) => {
                            let message = String::from_str("Opened terminal for ").concat(
                                p.name.as_str(),
                            ).concat("!");
                            return Effect::Spawn(Launch { command, message, recent: None });
                        },
                        None => {},
                    }
                }
            },
            None => {},
        }
        Effect::Nothing
    }

    /// Shows how starting a program went; a project path that comes with it goes first in
    /// the history exactly when the program started.
    pub fn report_launch(&mut self, launch: &Launch, started: bool)
        requires
            old(self).wf(),
        ensures
            final(self).wf(),
            final(self).status_message matches Some(m) && m@ == (if started {
                launch.message@
            } else {
                "Could not start "@ + launch.command.program@
            }),
            match launch.recent {
                Some(p) if started => {
                    &&& texts(final(self).config.recent_projects@) == recent_after(
                        texts(old(self).config.recent_projects@),
                        p@,
                    )
                    &&& config_but_recent(old(self).config, final(self).config)
                    &&& final(self).config_dirty
                    &&& final(self).categories == old(self).categories
                    &&& final(self).projects == old(self).projects
                    &&& final(self).selected_category == old(self).selected_category
                    &&& final(self).menu_items == old(self).menu_items
                    &&& final(self).theme_items == old(self).theme_items
                    &&& final(self).input == old(self).input
                },
                _ => same_data(*old(self), *final(self)),
            },
            same_cursors(*old(self), *final(self)),
            same_screen(*old(self), *final(self)),
    {
        if started {
            match &launch.recent {
                Some(p) => {
                    add_recent(&mut self.config.recent_projects, p.clone());
                    self.config_dirty = true;
                },
                None => {},
            }
        }
        let m = if started {
            launch.message.clone()
        } else {
            String::from_str("Could not start ").concat(launch.command.program.as_str())
        };
        self.status_message = Some(m);
    }

    /// Opens what was waiting for confirmation: the editor alone, or the editor on a
    /// project, which goes first in the history once the editor started; the screen
    /// returns to where it was.
    pub fn execute_pending_open(&mut self) -> (r: Effect)
        requires
            old(self).wf(),
        ensures
            final(self).wf(),
            pending_opened(*old(self), *final(self), r),
    {
        let pending = self.pending_project.take();
        self.mode = match self.previous_mode.take() {
            Some(m) => m,
            None => AppMode::MainMenu,
        };
        match pending {
            Some(PendingOpen::Editor) => {
                let command = editor_command(&self.config.idea_path, None);
                Effect::Spawn(
                    Launch {
                        command,
                        message: String::from_str("Opening IntelliJ IDEA..."),
                        recent: None,
                    },
                )
            },
            Some(PendingOpen::Project(p)) => {
                let command = editor_command(&self.config.idea_path, Some(&p.path));
                let message = String::from_str("Launched ").concat(p.name.as_str()).concat("!");
                Effect::Spawn(Launch { command, message, recent: Some(p.path) })
            },
            None => Effect::Nothing,
        }
    }

    /// Confirms the entry under the cursor of the current screen.
    pub fn on_enter(&mut self) -> (r: Effect)
        requires
            old(self).wf(),
        ensures
            final(self).wf(),
            enter_step(*old(self), *final(self), r),
    {
        match self.mode {
            AppMode::MainMenu => {
                match self.menu_selected {
                    Some(0) => {
                        self.mode = AppMode::Favorites;
                        Effect::LoadFavorites
                    },
                    Some(1) => {
                        self.mode = AppMode::Recent;
                        Effect::LoadRecent
                    },
                    Some(2) => {
                        self.mode = AppMode::CategorySelection;
                        Effect::LoadCategories
                    },
                    Some(3) => {
                        self.input = String::new();
                        self.mode = AppMode::InputUrl;
                        Effect::Nothing
                    },
                    Some(4) => {
                        self.pending_project = Some(PendingOpen::Editor);
                        self.previous_mode = Some(AppMode::MainMenu);
                        self.mode = AppMode::ConfirmOpen;
                        Effect::Nothing
                    },
                    Some(5) => {
                        self.mode = AppMode::ThemeSelection;
                        Effect::Nothing
                    },
                    _ => Effect::Nothing,
                }
            },
            AppMode::ThemeSelection => {
                match self.theme_selected {
                    Some(i) => {
                        if i < self.theme_items.len() {
                            self.config.theme = self.theme_items[i].clone();
                            self.config_dirty = true;
                            self.mode = AppMode::MainMenu;
                        }
                    },
                    None => {},
                }
                Effect::Nothing
            },
            AppMode::CategorySelection => {
                let shown = self.get_filtered_categories();
                match self.category_selected {
                    Some(i) => {
                        if i < shown.len() {
                            let category = shown[i].clone();
                            let dir = join_path(self.config.base_dir.as_str(), category.as_str());
                            self.mode = AppMode::ProjectSelection;
                            self.clear_search();
                            return Effect::LoadProjects { category, dir };
                        }
                    },
                    None => {},
                }
                Effect::Nothing
            },
            AppMode::ProjectSelection | AppMode::Favorites | AppMode::Recent => {
                let shown = self.get_filtered_projects();
                match self.project_selected {
                    Some(i) => {
                        if i < shown.len() {
                            let p = &shown[i];
                            self.pending_project = Some(
                                PendingOpen::Project(
                                    ProjectInfo {
                                        name: p.name.clone(),
                                        path: p.path.clone(),
                                        git_branch: None,
                                        has_changes: false,
                                        language: None,
                                    },
                                ),
                            );
                            self.previous_mode = Some(self.mode);
                            self.mode = AppMode::ConfirmOpen;
                        }
                    },
                    None => {},
                }
                Effect::Nothing
            },
            AppMode::InputUrl => {
                if self.input.unicode_len() > 0 {
                    self.mode = AppMode::CloneCategory;
                    Effect::LoadCategories
                } else {
                    Effect::Nothing
                }
            },
            AppMode::CloneCategory => {
                let shown = self.get_filtered_categories();
                match self.category_selected {
                    Some(i) => {
                        if i < shown.len() {
                            let e = self.clone_repo(&shown[i]);
                            self.clear_search();
                            return e;
                        }
                    },
                    None => {},
                }
                Effect::Nothing
            },
            AppMode::ConfirmOpen | AppMode::Help => Effect::Nothing,
        }
    }

    /// Starts cloning the address typed in into the category: the first clone tool is to
    /// run in the category's directory.
    pub fn clone_repo(&mut self, category: &String) -> (r: Effect)
        requires
            old(self).wf(),
        ensures
            final(self).wf(),
            clone_begun(*old(self), *final(self), category@, r),
    {
        let dir = join_path(self.config.base_dir.as_str(), category.as_str());
        let job = clone_job(CloneTool::Primary, &self.input, &dir);
        let msg = String::from_str("Cloning ").concat(job.project_name.as_str()).concat("...");
        self.status_message = Some(msg);
        Effect::Clone(job)
    }

    /// Reloads the listing of the current screen.
    pub fn refresh_current_view(&mut self) -> (r: Effect)
        requires
            old(self).wf(),
        ensures
            final(self).wf(),
            refresh_step(*old(self), *final(self), r),
    {
        let r = match self.mode {
            AppMode::CategorySelection | AppMode::CloneCategory => Effect::LoadCategories,
            AppMode::ProjectSelection => match &self.selected_category {
                Some(c) => {
                    let dir = join_path(self.config.base_dir.as_str(), c.as_str());
                    Effect::LoadProjects { category: c.clone(), dir }
                },
                None => Effect::Nothing,
            },
            AppMode::Favorites => Effect::LoadFavorites,
            AppMode::Recent => Effect::LoadRecent,
            _ => Effect::Nothing,
        };
        self.status_message = Some(String::from_str("Status refreshed!"));
        r
    }

    /// Takes in how a clone attempt ended: a failed first attempt is retried with the
    /// second tool on the same repository and directory; a success puts the new project
    /// first in the history, opens it in the editor and returns to the main menu; a failed
    /// second attempt is reported and the screen stays.
    pub fn clone_finished(&mut self, job: &CloneJob, succeeded: bool) -> (r: Effect)
        requires
            old(self).wf(),
        ensures
            final(self).wf(),
            clone_step(*old(self), *final(self), *job, succeeded, r),
    {
        if succeeded {
            self.mode = AppMode::MainMenu;
            self.previous_mode = None;
            self.pending_project = None;
            add_recent(&mut self.config.recent_projects, job.project_path.clone());
            self.config_dirty = true;
            let command = editor_command(&self.config.idea_path, Some(&job.project_path));
            let message = String::from_str("Cloned and opened ").concat(
                job.project_name.as_str(),
            ).concat("!");
            Effect::Spawn(Launch { command, message, recent: None })
        } else if job.tool == CloneTool::Primary {
            Effect::Clone(clone_job(CloneTool::Fallback, &job.url, &job.dir))
        } else {
            self.status_message = Some(String::from_str("Clone failed!"));
            Effect::Nothing
        }
    }

    /// Handles one key press.
    pub fn handle_key(&mut self, key: Key) -> (r: Effect)
        requires
            old(self).wf(),
        ensures
            final(self).wf(),
            key_handled(*old(self), *final(self), key, r),
    {
        if self.mode == AppMode::ConfirmOpen {
            match key {
                Key::Char('y') | Key::Char('Y') | Key::Enter => self.execute_pending_open(),
                Key::Char('n') | Key::Char('N') | Key::Esc | Key::Backspace => {
                    self.go_back();
                    Effect::Nothing
                },
                _ => Effect::Nothing,
            }
        } else if self.mode == AppMode::Help {
            self.go_back();
            Effect::Nothing
        } else if self.is_searching {
            match key {
                Key::Enter => {
                    self.is_searching = false;
                },
                Key::Char(c) => {
                    push_char(&mut self.search_query, c);
                    self.reset_cursors();
                },
                Key::Backspace => {
                    pop_char(&mut self.search_query);
                    self.reset_cursors();
                },
                Key::Esc => {
                    self.is_searching = false;
                    self.search_query = String::new();
                    self.reset_cursors();
                },
                _ => {},
            }
            Effect::Nothing
        } else if self.mode == AppMode::InputUrl {
            match key {
                Key::Enter => self.on_enter(),
                Key::Char(c) => {
                    push_char(&mut self.input, c);
                    Effect::Nothing
                },
                Key::Backspace => {
                    if self.input.unicode_len() == 0 {
                        self.mode = AppMode::MainMenu;
                    } else {
                        pop_char(&mut self.input);
                    }
                    Effect::Nothing
                },
                Key::Esc => {
                    self.mode = AppMode::MainMenu;
                    Effect::Nothing
                },
                _ => Effect::Nothing,
            }
        } else {
            match key {
                Key::Char('q') => Effect::Quit,
                Key::Char('f') => {
                    self.toggle_favorite();
                    Effect::Nothing
                },
                Key::Char('t') => self.open_terminal(),
                Key::Char('r') => self.refresh_current_view(),
                Key::Char('/') => {
                    if self.mode != AppMode::MainMenu && self.mode != AppMode::ThemeSelection {
                        self.is_searching = true;
                    }
                    Effect::Nothing
                },
                Key::Char('?') => {
                    self.previous_mode = Some(self.mode);
                    self.mode = AppMode::Help;
                    Effect::Nothing
                },
                Key::Down | Key::Char('j') => {
                    self.next();
                    Effect::Nothing
                },
                Key::Up | Key::Char('k') => {
                    self.previous();
                    Effect::Nothing
                },
                Key::Enter | Key::Right | Key::Char('l') => self.on_enter(),
                Key::Left | Key::Backspace | Key::Char('h') => {
                    self.go_back();
                    Effect::Nothing
                },
                Key::Esc => {
                    if self.search_query.unicode_len() > 0 {
                        self.search_query = String::new();
                        self.reset_cursors();
                    } else {
                        self.go_back();
                    }
                    Effect::Nothing
                },
                _ => Effect::Nothing,
            }
        }
    }
}

/// `b` is `a` after `back`.
pub open spec fn back_step(a: App, b: App) -> bool {
    &&& same_data(a, b)
    &&& b.menu_selected == a.menu_selected
    &&& b.theme_selected == a.theme_selected
    &&& b.status_message == a.status_message
    &&& search_cleared(a, b)
    &&& b.mode == back_mode(a.mode, a.previous_mode)
    &&& if is_interrupt(a.mode) {
        b.previous_mode is None && b.pending_project is None
    } else {
        b.previous_mode == a.previous_mode && b.pending_project == a.pending_project
    }
}

/// `b` is `a` after moving the cursor of the current screen down.
pub open spec fn forward_step(a: App, b: App) -> bool {
    &&& same_data(a, b)
    &&& same_screen(a, b)
    &&& b.status_message == a.status_message
    &&& b.menu_selected == (if a.mode == AppMode::MainMenu {
        step_forward(a.menu_selected, MENU_LEN as nat)
    } else {
        a.menu_selected
    })
    &&& b.theme_selected == (if a.mode == AppMode::ThemeSelection {
        step_forward(a.theme_selected, THEME_LEN as nat)
    } else {
        a.theme_selected
    })
    &&& b.category_selected == (if lists_categories(a.mode) {
        step_forward(a.category_selected, a.shown_categories().len())
    } else {
        a.category_selected
    })
    &&& b.project_selected == (if lists_projects(a.mode) {
        step_forward(a.project_selected, a.shown_projects().len())
    } else {
        a.project_selected
    })
}

/// `b` is `a` after moving the cursor of the current screen up.
pub open spec fn backward_step(a: App, b: App) -> bool {
    &&& same_data(a, b)
    &&& same_screen(a, b)
    &&& b.status_message == a.status_message
    &&& b.menu_selected == (if a.mode == AppMode::MainMenu {
        step_back(a.menu_selected, MENU_LEN as nat)
    } else {
        a.menu_selected
    })
    &&& b.theme_selected == (if a.mode == AppMode::ThemeSelection {
        step_back(a.theme_selected, THEME_LEN as nat)
    } else {
        a.theme_selected
    })
    &&& b.category_selected == (if lists_categories(a.mode) {
        step_back(a.category_selected, a.shown_categories().len())
    } else {
        a.category_selected
    })
    &&& b.project_selected == (if lists_projects(a.mode) {
        step_back(a.project_selected, a.shown_projects().len())
    } else {
        a.project_selected
    })
}

/// `b` is `a` with one listing reloaded: screen, settings, inputs, menus and status stay.
pub open spec fn reloaded(a: App, b: App) -> bool {
    &&& same_screen(a, b)
    &&& b.config == a.config
    &&& b.config_dirty == a.config_dirty
    &&& b.menu_items == a.menu_items
    &&& b.theme_items == a.theme_items
    &&& b.input == a.input
    &&& b.menu_selected == a.menu_selected
    &&& b.theme_selected == a.theme_selected
    &&& b.status_message == a.status_message
}

/// The settings `b` hold are those of `a` but for the history of opened projects.
pub open spec fn config_but_recent(a: Config, b: Config) -> bool {
    &&& b.base_dir == a.base_dir
    &&& b.idea_path == a.idea_path
    &&& b.terminal_command == a.terminal_command
    &&& b.favorites == a.favorites
    &&& b.theme == a.theme
}

/// The settings `b` hold are those of `a` but for the favorites.
pub open spec fn config_but_favorites(a: Config, b: Config) -> bool {
    &&& b.base_dir == a.base_dir
    &&& b.idea_path == a.idea_path
    &&& b.terminal_command == a.terminal_command
    &&& b.recent_projects == a.recent_projects
    &&& b.theme == a.theme
}

/// `b` is `a` with `path` put first in the history of opened projects.
pub open spec fn recent_added(a: App, b: App, path: Seq<char>) -> bool {
    &&& texts(b.config.recent_projects@) == recent_after(texts(a.config.recent_projects@), path)
    &&& config_but_recent(a.config, b.config)
    &&& b.config_dirty
    &&& b.categories == a.categories
    &&& b.projects == a.projects
    &&& b.selected_category == a.selected_category
    &&& b.menu_items == a.menu_items
    &&& b.theme_items == a.theme_items
    &&& b.input == a.input
    &&& same_cursors(a, b)
    &&& same_screen(a, b)
    &&& b.status_message == a.status_message
}

/// `b` is `a` after toggling the selected project's favorite mark.
pub open spec fn favorite_toggled(a: App, b: App) -> bool {
    match a.project_selected {
        Some(i) => {
            let p = a.shown_projects()[i as int];
            &&& texts(b.config.favorites@) == favorites_after(texts(a.config.favorites@), p.path)
            &&& config_but_favorites(a.config, b.config)
            &&& b.config_dirty
            &&& b.status_message matches Some(m) && m@ == (if texts(a.config.favorites@).contains(
                p.path,
            ) {
                "Removed "@ + p.name + " from favorites"@
            } else {
                "Added "@ + p.name + " to favorites"@
            })
            &&& b.categories == a.categories
            &&& b.projects == a.projects
            &&& b.selected_category == a.selected_category
            &&& b.menu_items == a.menu_items
            &&& b.theme_items == a.theme_items
            &&& b.input == a.input
            &&& same_cursors(a, b)
            &&& same_screen(a, b)
        },
        None => b == a,
    }
}

/// `e` is the terminal to open on the selected project of `a`.
pub open spec fn terminal_effect(a: App, e: Effect) -> bool {
    match a.project_selected {
        Some(i) => {
            let p = a.shown_projects()[i as int];
            match terminal_command_of(a.config.terminal_command@, p.path) {
                Some(c) => e matches Effect::Spawn(l) && l.command@ == c && l.message@
                    == "Opened terminal for "@ + p.name + "!"@ && l.recent is None,
                None => e is Nothing,
            }
        },
        None => e is Nothing,
    }
}

/// `b` and `e` are `a` after confirming what was pending.
pub open spec fn pending_opened(a: App, b: App, e: Effect) -> bool {
    &&& b.mode == (match a.previous_mode {
        Some(m) => m,
        None => AppMode::MainMenu,
    })
    &&& b.previous_mode is None
    &&& b.pending_project is None
    &&& b.search_query == a.search_query
    &&& b.is_searching == a.is_searching
    &&& same_cursors(a, b)
    &&& b.status_message == a.status_message
    &&& match a.pending_project {
        Some(PendingOpen::Editor) => {
            &&& e matches Effect::Spawn(l) && l.command@ == editor_command_of(a.config.idea_path@, None)
                && l.message@ == "Opening IntelliJ IDEA..."@ && l.recent is None
            &&& same_data(a, b)
        },
        Some(PendingOpen::Project(p)) => {
            &&& e matches Effect::Spawn(l) && l.command@ == editor_command_of(
                a.config.idea_path@,
                Some(p.path@),
            ) && l.message@ == "Launched "@ + p.name@ + "!"@ && opt_text(l.recent)
                == Some(p.path@)
            &&& same_data(a, b)
        },
        None => {
            &&& e is Nothing
            &&& same_data(a, b)
        },
    }
}


/// `b` is `a` with nothing changed but the screen, which is `m`.
pub open spec fn switched_to(a: App, b: App, m: AppMode) -> bool {
    &&& same_data(a, b)
    &&& same_cursors(a, b)
    &&& b.status_message == a.status_message
    &&& b.previous_mode == a.previous_mode
    &&& b.pending_project == a.pending_project
    &&& b.search_query == a.search_query
    &&& b.is_searching == a.is_searching
    &&& b.mode == m
}

/// `b` and `e` are `a` after confirming the main menu entry under the cursor.
pub open spec fn menu_entered(a: App, b: App, e: Effect) -> bool {
    let i = a.menu_selected->0;
    &&& i == 0 ==> switched_to(a, b, AppMode::Favorites) && e is LoadFavorites
    &&& i == 1 ==> switched_to(a, b, AppMode::Recent) && e is LoadRecent
    &&& i == 2 ==> switched_to(a, b, AppMode::CategorySelection) && e is LoadCategories
    &&& i == 3 ==> {
        &&& b.input@.len() == 0
        &&& b.mode == AppMode::InputUrl
        &&& e is Nothing
        &&& b.config == a.config
        &&& b.config_dirty == a.config_dirty
        &&& b.categories == a.categories
        &&& b.projects == a.projects
        &&& b.selected_category == a.selected_category
        &&& b.menu_items == a.menu_items
        &&& b.theme_items == a.theme_items
        &&& same_cursors(a, b)
        &&& b.status_message == a.status_message
        &&& b.previous_mode == a.previous_mode
        &&& b.pending_project == a.pending_project
        &&& b.search_query == a.search_query
        &&& b.is_searching == a.is_searching
    }
    &&& i == 4 ==> {
        &&& b.mode == AppMode::ConfirmOpen
        &&& b.previous_mode == Some(AppMode::MainMenu)
        &&& b.pending_project matches Some(PendingOpen::Editor)
        &&& e is Nothing
        &&& same_data(a, b)
        &&& same_cursors(a, b)
        &&& b.status_message == a.status_message
        &&& b.search_query == a.search_query
        &&& b.is_searching == a.is_searching
    }
    &&& i == 5 ==> switched_to(a, b, AppMode::ThemeSelection) && e is Nothing
}

/// `b` and `e` are `a` after confirming the theme under the cursor.
pub open spec fn theme_entered(a: App, b: App, e: Effect) -> bool {
    let i = a.theme_selected->0;
    &&& b.config.theme@ == a.theme_items@[i as int]@
    &&& b.config.base_dir == a.config.base_dir
    &&& b.config.idea_path == a.config.idea_path
    &&& b.config.terminal_command == a.config.terminal_command
    &&& b.config.favorites == a.config.favorites
    &&& b.config.recent_projects == a.config.recent_projects
    &&& b.config_dirty
    &&& b.mode == AppMode::MainMenu
    &&& e is Nothing
    &&& b.categories == a.categories
    &&& b.projects == a.projects
    &&& b.selected_category == a.selected_category
    &&& b.menu_items == a.menu_items
    &&& b.theme_items == a.theme_items
    &&& b.input == a.input
    &&& same_cursors(a, b)
    &&& b.status_message == a.status_message
    &&& b.previous_mode == a.previous_mode
    &&& b.pending_project == a.pending_project
    &&& b.search_query == a.search_query
    &&& b.is_searching == a.is_searching
}

/// `b` and `e` are `a` after confirming the category under the cursor: its projects are
/// to be loaded, and the search ends.
pub open spec fn category_entered(a: App, b: App, e: Effect) -> bool {
    match a.category_selected {
        Some(i) => {
            let cat = a.shown_categories()[i as int];
            &&& e matches Effect::LoadProjects { category, dir } && category@ == cat && dir@
                == joined_path(a.config.base_dir@, cat)
            &&& b.mode == AppMode::ProjectSelection
            &&& search_cleared(a, b)
            &&& same_data(a, b)
            &&& b.menu_selected == a.menu_selected
            &&& b.theme_selected == a.theme_selected
            &&& b.status_message == a.status_message
            &&& b.previous_mode == a.previous_mode
            &&& b.pending_project == a.pending_project
        },
        None => b == a && e is Nothing,
    }
}

/// `b` and `e` are `a` after confirming the project under the cursor: it waits for
/// confirmation, and the screen it was chosen on is remembered.
pub open spec fn project_staged(a: App, b: App, e: Effect) -> bool {
    match a.project_selected {
        Some(i) => {
            let p = a.shown_projects()[i as int];
            &&& b.pending_project matches Some(PendingOpen::Project(q)) && q@ == ProjectView {
                name: p.name,
                path: p.path,
                git_branch: None,
                has_changes: false,
                language: None,
            }
            &&& b.previous_mode == Some(a.mode)
            &&& b.mode == AppMode::ConfirmOpen
            &&& e is Nothing
            &&& same_data(a, b)
            &&& same_cursors(a, b)
            &&& b.status_message == a.status_message
            &&& b.search_query == a.search_query
            &&& b.is_searching == a.is_searching
        },
        None => b == a && e is Nothing,
    }
}

/// `b` and `e` are `a` after starting to clone the typed address into `category`.
pub open spec fn clone_begun(a: App, b: App, category: Seq<char>, e: Effect) -> bool {
    let dir = joined_path(a.config.base_dir@, category);
    &&& e matches Effect::Clone(j) && clone_job_matches(j, CloneTool::Primary, a.input@, dir)
    &&& b.status_message matches Some(m) && m@ == "Cloning "@ + project_name_of(a.input@) + "..."@
    &&& same_data(a, b)
    &&& same_cursors(a, b)
    &&& same_screen(a, b)
}

/// `b` and `e` are `a` after confirming the category to clone into: the first clone tool
/// is to run, and the search ends.
pub open spec fn clone_started(a: App, b: App, e: Effect) -> bool {
    match a.category_selected {
        Some(i) => {
            let dir = joined_path(a.config.base_dir@, a.shown_categories()[i as int]);
            &&& e matches Effect::Clone(j) && clone_job_matches(j, CloneTool::Primary, a.input@, dir)
            &&& b.status_message matches Some(m) && m@ == "Cloning "@ + project_name_of(a.input@)
                + "..."@
            &&& search_cleared(a, b)
            &&& same_data(a, b)
            &&& b.menu_selected == a.menu_selected
            &&& b.theme_selected == a.theme_selected
            &&& b.mode == a.mode
            &&& b.previous_mode == a.previous_mode
            &&& b.pending_project == a.pending_project
        },
        None => b == a && e is Nothing,
    }
}

/// `b` and `e` are `a` after `confirm`.
pub open spec fn enter_step(a: App, b: App, e: Effect) -> bool {
    match a.mode {
        AppMode::MainMenu => menu_entered(a, b, e),
        AppMode::ThemeSelection => theme_entered(a, b, e),
        AppMode::CategorySelection => category_entered(a, b, e),
        AppMode::ProjectSelection | AppMode::Favorites | AppMode::Recent => project_staged(a, b, e),
        AppMode::InputUrl => if a.input@.len() > 0 {
            switched_to(a, b, AppMode::CloneCategory) && e is LoadCategories
        } else {
            b == a && e is Nothing
        },
        AppMode::CloneCategory => clone_started(a, b, e),
        AppMode::ConfirmOpen | AppMode::Help => b == a && e is Nothing,
    }
}

/// `b` and `e` are `a` after asking to reload the current listing.
pub open spec fn refresh_step(a: App, b: App, e: Effect) -> bool {
    &&& b.status_message matches Some(m) && m@ == "Status refreshed!"@
    &&& same_data(a, b)
    &&& same_cursors(a, b)
    &&& same_screen(a, b)
    &&& match a.mode {
        AppMode::CategorySelection | AppMode::CloneCategory => e is LoadCategories,
        AppMode::ProjectSelection => match a.selected_category {
            Some(c) => e matches Effect::LoadProjects { category, dir } && category@ == c@ && dir@
                == joined_path(a.config.base_dir@, c@),
            None => e is Nothing,
        },
        AppMode::Favorites => e is LoadFavorites,
        AppMode::Recent => e is LoadRecent,
        _ => e is Nothing,
    }
}

/// `b` and `e` are `a` after the clone attempt `job` ended, well or not.
pub open spec fn clone_step(a: App, b: App, job: CloneJob, succeeded: bool, e: Effect) -> bool {
    if succeeded {
        &&& texts(b.config.recent_projects@) == recent_after(
            texts(a.config.recent_projects@),
            job.project_path@,
        )
        &&& config_but_recent(a.config, b.config)
        &&& b.config_dirty
        &&& b.mode == AppMode::MainMenu
        &&& b.previous_mode is None
        &&& b.pending_project is None
        &&& e matches Effect::Spawn(l) && l.command@ == editor_command_of(
            a.config.idea_path@,
            Some(job.project_path@),
        ) && l.message@ == "Cloned and opened "@ + job.project_name@ + "!"@ && l.recent is None
        &&& b.categories == a.categories
        &&& b.projects == a.projects
        &&& b.selected_category == a.selected_category
        &&& b.menu_items == a.menu_items
        &&& b.theme_items == a.theme_items
        &&& b.input == a.input
        &&& same_cursors(a, b)
        &&& b.search_query == a.search_query
        &&& b.is_searching == a.is_searching
        &&& b.status_message == a.status_message
    } else if job.tool == CloneTool::Primary {
        &&& b == a
        &&& e matches Effect::Clone(j) && clone_job_matches(j, CloneTool::Fallback, job.url@, job.dir@)
    } else {
        &&& b.status_message matches Some(m) && m@ == "Clone failed!"@
        &&& e is Nothing
        &&& same_data(a, b)
        &&& same_cursors(a, b)
        &&& same_screen(a, b)
    }
}

/// `b` is `a` with the search filter changed to `q` and the cursors put on the first match.
pub open spec fn filter_edited(a: App, b: App, q: Seq<char>, searching: bool) -> bool {
    &&& b.search_query@ == q
    &&& b.is_searching == searching
    &&& cursors_reset(b)
    &&& same_data(a, b)
    &&& b.menu_selected == a.menu_selected
    &&& b.theme_selected == a.theme_selected
    &&& b.status_message == a.status_message
    &&& b.mode == a.mode
    &&& b.previous_mode == a.previous_mode
    &&& b.pending_project == a.pending_project
}

/// `b` is `a` with the clone address edited to `t`.
pub open spec fn input_edited(a: App, b: App, t: Seq<char>) -> bool {
    &&& b.input@ == t
    &&& b.config == a.config
    &&& b.config_dirty == a.config_dirty
    &&& b.categories == a.categories
    &&& b.projects == a.projects
    &&& b.selected_category == a.selected_category
    &&& b.menu_items == a.menu_items
    &&& b.theme_items == a.theme_items
    &&& same_cursors(a, b)
    &&& same_screen(a, b)
    &&& b.status_message == a.status_message
}

/// `b` is `a` with only the search flag changed to `on`.
pub open spec fn searching_set(a: App, b: App, on: bool) -> bool {
    &&& b.is_searching == on
    &&& same_data(a, b)
    &&& same_cursors(a, b)
    &&& b.status_message == a.status_message
    &&& b.mode == a.mode
    &&& b.previous_mode == a.previous_mode
    &&& b.pending_project == a.pending_project
    &&& b.search_query == a.search_query
}

/// `b` and `e` are `a` after the key `key`.
pub open spec fn key_handled(a: App, b: App, key: Key, e: Effect) -> bool {
    if a.mode == AppMode::ConfirmOpen {
        if key == Key::Char('y') || key == Key::Char('Y') || key == Key::Enter {
            pending_opened(a, b, e)
        } else if key == Key::Char('n') || key == Key::Char('N') || key == Key::Esc || key
            == Key::Backspace {
            back_step(a, b) && e is Nothing
        } else {
            b == a && e is Nothing
        }
    } else if a.mode == AppMode::Help {
        back_step(a, b) && e is Nothing
    } else if a.is_searching {
        &&& e is Nothing
        &&& match key {
            Key::Enter => searching_set(a, b, false),
            Key::Char(c) => filter_edited(a, b, a.search_query@.push(c), true),
            Key::Backspace => filter_edited(
                a,
                b,
                if a.search_query@.len() == 0 {
                    a.search_query@
                } else {
                    a.search_query@.drop_last()
                },
                true,
            ),
            Key::Esc => filter_edited(a, b, Seq::empty(), false),
            _ => b == a,
        }
    } else if a.mode == AppMode::InputUrl {
        match key {
            Key::Enter => enter_step(a, b, e),
            Key::Char(c) => input_edited(a, b, a.input@.push(c)) && e is Nothing,
            Key::Backspace => e is Nothing && if a.input@.len() == 0 {
                switched_to(a, b, AppMode::MainMenu)
            } else {
                input_edited(a, b, a.input@.drop_last())
            },
            Key::Esc => switched_to(a, b, AppMode::MainMenu) && e is Nothing,
            _ => b == a && e is Nothing,
        }
    } else {
        match key {
            Key::Char('q') => b == a && e is Quit,
            Key::Char('f') => favorite_toggled(a, b) && e is Nothing,
            Key::Char('t') => b == a && terminal_effect(a, e),
            Key::Char('r') => refresh_step(a, b, e),
            Key::Char('/') => e is Nothing && searching_set(
                a,
                b,
                a.mode != AppMode::MainMenu && a.mode != AppMode::ThemeSelection,
            ),
            Key::Char('?') => {
                &&& e is Nothing
                &&& b.mode == AppMode::Help
                &&& b.previous_mode == Some(a.mode)
                &&& same_data(a, b)
                &&& same_cursors(a, b)
                &&& b.status_message == a.status_message
                &&& b.pending_project == a.pending_project
                &&& b.search_query == a.search_query
                &&& b.is_searching == a.is_searching
            },
            Key::Down | Key::Char('j') => forward_step(a, b) && e is Nothing,
            Key::Up | Key::Char('k') => backward_step(a, b) && e is Nothing,
            Key::Enter | Key::Right | Key::Char('l') => enter_step(a, b, e),
            Key::Left | Key::Backspace | Key::Char('h') => back_step(a, b) && e is Nothing,
            Key::Esc => e is Nothing && if a.search_query@.len() > 0 {
                filter_edited(a, b, Seq::empty(), a.is_searching)
            } else {
                back_step(a, b)
            },
            _ => b == a && e is Nothing,
        }
    }
}

/// On an empty listing, moving the cursor either way leaves it where it was.
pub proof fn lemma_empty_listing_cursor(a: App, b: App)
    requires
        lists_projects(a.mode),
        a.shown_projects().len() == 0,
        forward_step(a, b) || backward_step(a, b),
    ensures
        b.project_selected == a.project_selected,
{
}

/// Moving the cursor down and then up puts every cursor back where it was.
pub proof fn lemma_next_then_previous(a: App, b: App, c: App)
    requires
        a.wf(),
        forward_step(a, b),
        backward_step(b, c),
    ensures
        same_cursors(a, c),
{
    broadcast use vstd::seq_lib::group_filter_ensures;

    assert(b.search_query@ == a.search_query@);
    assert(a.shown_categories().len() <= a.categories@.len());
    assert(a.shown_projects().len() <= a.projects@.len());
    assert(a.categories@.len() == a.categories.len());
    assert(a.projects@.len() == a.projects.len());
    assert(b.shown_categories() == a.shown_categories());
    assert(b.shown_projects() == a.shown_projects());
    if a.mode == AppMode::MainMenu {
        lemma_forward_then_back(a.menu_selected, MENU_LEN as nat);
    }
    if a.mode == AppMode::ThemeSelection {
        lemma_forward_then_back(a.theme_selected, THEME_LEN as nat);
    }
    if lists_categories(a.mode) && a.shown_categories().len() > 0 {
        lemma_forward_then_back(a.category_selected, a.shown_categories().len());
    }
    if lists_projects(a.mode) && a.shown_projects().len() > 0 {
        lemma_forward_then_back(a.project_selected, a.shown_projects().len());
    }
}

/// Starting a search and typing a character puts the cursors on the first match, or on
/// nothing when nothing matches.
pub proof fn lemma_typing_resets_cursor(a: App, b: App, c: App, ch: char, e1: Effect, e2: Effect)
    requires
        a.wf(),
        b.wf(),
        !a.is_searching,
        lists_projects(a.mode) || lists_categories(a.mode),
        key_handled(a, b, Key::Char('/'), e1),
        key_handled(b, c, Key::Char(ch), e2),
    ensures
        b.is_searching,
        c.search_query@ == b.search_query@.push(ch),
        c.project_selected == Some(0usize) || c.project_selected is None,
        c.category_selected == Some(0usize) || c.category_selected is None,
        selection_fits(c.project_selected, c.shown_projects().len()),
        selection_fits(c.category_selected, c.shown_categories().len()),
{
}

/// Backing out of the confirmation returns to the screen it was entered from.
pub proof fn lemma_back_from_confirm(a: App, b: App, c: App, e: Effect)
    requires
        a.wf(),
        a.mode != AppMode::ConfirmOpen,
        enter_step(a, b, e),
        b.mode == AppMode::ConfirmOpen,
        back_step(b, c),
    ensures
        c.mode == a.mode,
{
    if a.mode == AppMode::MainMenu {
        assert(a.menu_selected->0 == 4);
    }
}
} // verus!

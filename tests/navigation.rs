use idea_tui::{App, AppMode, Config, DirEntry, Effect, Key, PendingOpen, Probe, ProjectInfo};

fn config() -> Config {
    Config {
        base_dir: "/base".to_string(),
        idea_path: "/opt/idea".to_string(),
        terminal_command: "kitty --directory".to_string(),
        favorites: Vec::new(),
        recent_projects: Vec::new(),
        theme: "Darcula (default)".to_string(),
    }
}

fn dir(name: &str) -> DirEntry {
    DirEntry { name: Some(name.to_string()), is_dir: true }
}

fn bare_probe() -> Probe {
    Probe { has_git_dir: false, branch_output: None, status_output: None, markers: Vec::new() }
}

/// Loads the projects of category `cli` as subdirectories named `projects`.
fn load_cli(app: &mut App, projects: &[&str]) {
    let entries: Vec<DirEntry> = projects.iter().map(|n| dir(n)).collect();
    let probes: Vec<Probe> = projects.iter().map(|_| bare_probe()).collect();
    app.load_projects("cli".to_string(), &entries, &probes);
}

fn existing(n: usize) -> Vec<Option<Probe>> {
    (0..n).map(|_| Some(bare_probe())).collect()
}

fn names(app: &App) -> Vec<String> {
    app.projects.iter().map(|p| p.name.clone()).collect()
}

/// An app on the project screen of category `cli` with the given projects.
fn app_with_projects(projects: &[&str]) -> App {
    let mut app = App::new(config());
    app.menu_selected = Some(2);
    assert!(matches!(app.handle_key(Key::Enter), Effect::LoadCategories));
    app.load_categories(&vec![dir("cli")]);
    assert!(matches!(app.handle_key(Key::Enter), Effect::LoadProjects { .. }));
    load_cli(&mut app, projects);
    app
}

#[test]
fn new_app_starts_on_main_menu() {
    let app = App::new(config());
    assert_eq!(app.mode, AppMode::MainMenu);
    assert_eq!(app.previous_mode, None);
    assert_eq!(app.menu_selected, Some(0));
    assert_eq!(app.theme_selected, Some(0));
    assert_eq!(app.project_selected, None);
    assert_eq!(app.category_selected, None);
    assert_eq!(app.menu_items.len(), 6);
    assert_eq!(app.theme_items.len(), 11);
    assert!(!app.is_searching);
}

#[test]
fn main_menu_cursor_wraps_both_ways() {
    let mut app = App::new(config());
    app.previous();
    assert_eq!(app.menu_selected, Some(5));
    app.next();
    assert_eq!(app.menu_selected, Some(0));
    for _ in 0..6 {
        app.next();
    }
    assert_eq!(app.menu_selected, Some(0));
}

#[test]
fn category_then_confirm_lists_sorted_projects() {
    let mut app = App::new(config());
    app.menu_selected = Some(2);
    assert!(matches!(app.on_enter(), Effect::LoadCategories));
    assert_eq!(app.mode, AppMode::CategorySelection);
    app.load_categories(&vec![dir("web"), dir("cli")]);
    assert_eq!(app.categories, vec!["cli".to_string(), "web".to_string()]);
    assert_eq!(app.category_selected, Some(0));
    match app.handle_key(Key::Enter) {
        Effect::LoadProjects { category, dir } => {
            assert_eq!(category, "cli");
            assert_eq!(dir, "/base/cli");
        }
        other => panic!("unexpected effect {:?}", other),
    }
    assert_eq!(app.mode, AppMode::ProjectSelection);
    load_cli(&mut app, &["beta", "alpha"]);
    assert_eq!(app.mode, AppMode::ProjectSelection);
    assert_eq!(names(&app), vec!["alpha".to_string(), "beta".to_string()]);
    assert_eq!(app.projects.len(), 2);
    assert_eq!(app.project_selected, Some(0));
    assert_eq!(app.selected_category, Some("cli".to_string()));
}

#[test]
fn projects_sort_ignoring_case_and_keep_ties_in_order() {
    let app = app_with_projects(&["gamma", "Beta", "alpha", "beta"]);
    assert_eq!(
        names(&app),
        vec!["alpha".to_string(), "Beta".to_string(), "beta".to_string(), "gamma".to_string()]
    );
}

#[test]
fn moving_on_empty_listing_keeps_cursor() {
    let mut app = App::new(config());
    app.menu_selected = Some(0);
    assert!(matches!(app.handle_key(Key::Enter), Effect::LoadFavorites));
    assert_eq!(app.mode, AppMode::Favorites);
    app.load_favorites(&Vec::new());
    assert_eq!(app.project_selected, None);
    app.next();
    assert_eq!(app.project_selected, None);
    app.previous();
    assert_eq!(app.project_selected, None);
    app.handle_key(Key::Down);
    assert_eq!(app.project_selected, None);
}

#[test]
fn next_then_previous_restores_cursor() {
    let mut app = app_with_projects(&["a1", "b2", "c3"]);
    for start in 0..3 {
        app.project_selected = Some(start);
        app.next();
        app.previous();
        assert_eq!(app.project_selected, Some(start));
    }
    app.project_selected = Some(2);
    app.next();
    assert_eq!(app.project_selected, Some(0));
    app.previous();
    assert_eq!(app.project_selected, Some(2));
}

#[test]
fn typing_in_search_resets_cursor() {
    let mut app = app_with_projects(&["alpha", "beta", "gamma"]);
    app.project_selected = Some(2);
    app.handle_key(Key::Char('/'));
    assert!(app.is_searching);
    app.handle_key(Key::Char('a'));
    assert_eq!(app.search_query, "a");
    assert_eq!(app.project_selected, Some(0));
    app.handle_key(Key::Char('l'));
    assert_eq!(app.search_query, "al");
    assert_eq!(app.get_filtered_projects().len(), 1);
    assert_eq!(app.project_selected, Some(0));
    app.handle_key(Key::Char('z'));
    assert_eq!(app.get_filtered_projects().len(), 0);
    assert_eq!(app.project_selected, None);
    app.handle_key(Key::Backspace);
    assert_eq!(app.search_query, "al");
    assert_eq!(app.project_selected, Some(0));
    app.handle_key(Key::Enter);
    assert!(!app.is_searching);
    assert_eq!(app.search_query, "al");
}

#[test]
fn search_ignores_case_and_esc_clears_filter() {
    let mut app = app_with_projects(&["My-Web-App", "tool"]);
    app.handle_key(Key::Char('/'));
    for c in "WEB".chars() {
        app.handle_key(Key::Char(c));
    }
    let shown = app.get_filtered_projects();
    assert_eq!(shown.len(), 1);
    assert_eq!(shown[0].name, "My-Web-App");
    app.handle_key(Key::Esc);
    assert!(!app.is_searching);
    assert_eq!(app.search_query, "");
    assert_eq!(app.get_filtered_projects().len(), 2);
    assert_eq!(app.project_selected, Some(0));
}

#[test]
fn search_cannot_start_on_main_menu() {
    let mut app = App::new(config());
    app.handle_key(Key::Char('/'));
    assert!(!app.is_searching);
}

#[test]
fn esc_with_filter_clears_it_before_going_back() {
    let mut app = app_with_projects(&["alpha", "beta"]);
    app.handle_key(Key::Char('/'));
    app.handle_key(Key::Char('b'));
    app.handle_key(Key::Enter);
    assert_eq!(app.get_filtered_projects().len(), 1);
    app.handle_key(Key::Esc);
    assert_eq!(app.mode, AppMode::ProjectSelection);
    assert_eq!(app.search_query, "");
    app.handle_key(Key::Esc);
    assert_eq!(app.mode, AppMode::CategorySelection);
}

#[test]
fn back_from_confirm_returns_to_each_origin() {
    let mut app = app_with_projects(&["alpha"]);
    app.handle_key(Key::Enter);
    assert_eq!(app.mode, AppMode::ConfirmOpen);
    assert_eq!(app.previous_mode, Some(AppMode::ProjectSelection));
    app.handle_key(Key::Esc);
    assert_eq!(app.mode, AppMode::ProjectSelection);
    assert!(app.pending_project.is_none());
    assert_eq!(app.previous_mode, None);

    let mut app = App::new(config());
    app.menu_selected = Some(4);
    app.handle_key(Key::Enter);
    assert_eq!(app.mode, AppMode::ConfirmOpen);
    assert!(matches!(app.pending_project, Some(PendingOpen::Editor)));
    app.handle_key(Key::Char('n'));
    assert_eq!(app.mode, AppMode::MainMenu);

    for (entry, mode) in [(0usize, AppMode::Favorites), (1usize, AppMode::Recent)] {
        let mut app = App::new(config());
        app.menu_selected = Some(entry);
        app.handle_key(Key::Enter);
        assert_eq!(app.mode, mode);
        app.config.recent_projects = vec!["/p/one".to_string()];
        app.config.favorites = vec!["/p/one".to_string()];
        if mode == AppMode::Recent {
            app.load_recent(&existing(1));
        } else {
            app.load_favorites(&existing(1));
        }
        app.handle_key(Key::Enter);
        assert_eq!(app.mode, AppMode::ConfirmOpen);
        app.handle_key(Key::Backspace);
        assert_eq!(app.mode, mode);
    }
}

#[test]
fn back_chain_reaches_main_menu() {
    let mut app = app_with_projects(&["alpha"]);
    app.go_back();
    assert_eq!(app.mode, AppMode::CategorySelection);
    app.go_back();
    assert_eq!(app.mode, AppMode::MainMenu);
    app.go_back();
    assert_eq!(app.mode, AppMode::MainMenu);
}

#[test]
fn help_returns_to_where_it_was_opened() {
    let mut app = app_with_projects(&["alpha"]);
    app.handle_key(Key::Char('?'));
    assert_eq!(app.mode, AppMode::Help);
    assert_eq!(app.previous_mode, Some(AppMode::ProjectSelection));
    app.handle_key(Key::Char('x'));
    assert_eq!(app.mode, AppMode::ProjectSelection);
    assert_eq!(app.previous_mode, None);
}

#[test]
fn quit_key_asks_to_leave() {
    let mut app = App::new(config());
    assert!(matches!(app.handle_key(Key::Char('q')), Effect::Quit));
    assert_eq!(app.mode, AppMode::MainMenu);
}

#[test]
fn theme_choice_is_saved_and_returns_to_menu() {
    let mut app = App::new(config());
    app.menu_selected = Some(5);
    app.handle_key(Key::Enter);
    assert_eq!(app.mode, AppMode::ThemeSelection);
    app.handle_key(Key::Down);
    app.handle_key(Key::Down);
    assert_eq!(app.theme_selected, Some(2));
    app.handle_key(Key::Enter);
    assert_eq!(app.config.theme, "Dracula");
    assert!(app.config_dirty);
    assert_eq!(app.mode, AppMode::MainMenu);
}

#[test]
fn theme_cursor_wraps() {
    let mut app = App::new(config());
    app.mode = AppMode::ThemeSelection;
    app.previous();
    assert_eq!(app.theme_selected, Some(10));
    app.next();
    assert_eq!(app.theme_selected, Some(0));
}

#[test]
fn refresh_reloads_current_listing() {
    let mut app = app_with_projects(&["alpha"]);
    match app.handle_key(Key::Char('r')) {
        Effect::LoadProjects { category, dir } => {
            assert_eq!(category, "cli");
            assert_eq!(dir, "/base/cli");
        }
        other => panic!("unexpected effect {:?}", other),
    }
    assert_eq!(app.status_message, Some("Status refreshed!".to_string()));
    let mut app = App::new(config());
    assert!(matches!(app.refresh_current_view(), Effect::Nothing));
}

#[test]
fn categories_skip_hidden_entries_and_files() {
    let mut app = App::new(config());
    app.load_categories(&vec![
        dir("gamma"),
        dir(".git"),
        DirEntry { name: Some("notes.txt".to_string()), is_dir: false },
        DirEntry { name: None, is_dir: true },
        dir("Beta"),
        dir("alpha"),
    ]);
    assert_eq!(app.categories, vec!["alpha".to_string(), "Beta".to_string(), "gamma".to_string()]);
    assert_eq!(app.category_selected, Some(0));
}

#[test]
fn empty_base_directory_gives_no_categories() {
    let mut app = App::new(config());
    app.load_categories(&Vec::new());
    assert!(app.categories.is_empty());
    assert_eq!(app.category_selected, None);
}

#[test]
fn favorites_keep_existing_paths_sorted_by_name() {
    let mut app = App::new(config());
    app.config.favorites = vec!["/p/zeta".to_string(), "/p/gone".to_string(), "/p/Alpha".to_string(), "/".to_string()];
    app.load_favorites(&vec![Some(bare_probe()), None, Some(bare_probe()), Some(bare_probe())]);
    assert_eq!(names(&app), vec!["Alpha".to_string(), "Unknown".to_string(), "zeta".to_string()]);
    assert_eq!(app.projects[0].path, "/p/Alpha");
    assert_eq!(app.selected_category, None);
}

#[test]
fn recent_listing_keeps_history_order() {
    let mut app = App::new(config());
    app.config.recent_projects = vec!["/p/zeta".to_string(), "/p/alpha".to_string()];
    app.load_recent(&existing(2));
    assert_eq!(names(&app), vec!["zeta".to_string(), "alpha".to_string()]);
}

#[test]
fn toggle_favorite_adds_then_removes() {
    let mut app = app_with_projects(&["alpha", "beta"]);
    app.project_selected = Some(1);
    app.handle_key(Key::Char('f'));
    assert_eq!(app.config.favorites, vec!["/base/cli/beta".to_string()]);
    assert_eq!(app.status_message, Some("Added beta to favorites".to_string()));
    assert!(app.config_dirty);
    app.toggle_favorite();
    assert!(app.config.favorites.is_empty());
    assert_eq!(app.status_message, Some("Removed beta from favorites".to_string()));
}

#[test]
fn terminal_opens_with_template_words_then_path() {
    let app = app_with_projects(&["alpha"]);
    match app.open_terminal() {
        Effect::Spawn(launch) => {
            assert_eq!(launch.command.program, "kitty");
            assert_eq!(launch.command.args, vec!["--directory".to_string(), "/base/cli/alpha".to_string()]);
            assert_eq!(launch.message, "Opened terminal for alpha!");
        }
        other => panic!("unexpected effect {:?}", other),
    }
    let mut app = app_with_projects(&["alpha"]);
    app.config.terminal_command = "   ".to_string();
    assert!(matches!(app.open_terminal(), Effect::Nothing));
}

#[test]
fn confirming_project_launches_editor_and_records_history() {
    let mut app = app_with_projects(&["alpha"]);
    app.handle_key(Key::Enter);
    match &app.pending_project {
        Some(PendingOpen::Project(p)) => {
            assert_eq!(p.name, "alpha");
            assert_eq!(p.path, "/base/cli/alpha");
        }
        other => panic!("unexpected pending {:?}", other),
    }
    let effect = app.handle_key(Key::Char('y'));
    assert_eq!(app.mode, AppMode::ProjectSelection);
    assert!(app.pending_project.is_none());
    assert!(app.config.recent_projects.is_empty());
    assert!(!app.config_dirty);
    match effect {
        Effect::Spawn(launch) => {
            assert_eq!(launch.command.program, "/opt/idea");
            assert_eq!(launch.command.args, vec!["/base/cli/alpha".to_string()]);
            assert_eq!(launch.message, "Launched alpha!");
            app.report_launch(&launch, false);
            assert_eq!(app.status_message, Some("Could not start /opt/idea".to_string()));
            assert!(app.config.recent_projects.is_empty());
            assert!(!app.config_dirty);
            app.report_launch(&launch, true);
            assert_eq!(app.status_message, Some("Launched alpha!".to_string()));
            assert_eq!(app.config.recent_projects, vec!["/base/cli/alpha".to_string()]);
            assert!(app.config_dirty);
        }
        other => panic!("unexpected effect {:?}", other),
    }
}

#[test]
fn confirming_editor_entry_starts_editor_alone() {
    let mut app = App::new(config());
    app.menu_selected = Some(4);
    app.on_enter();
    match app.execute_pending_open() {
        Effect::Spawn(launch) => {
            assert_eq!(launch.command.program, "/opt/idea");
            assert!(launch.command.args.is_empty());
            assert_eq!(launch.message, "Opening IntelliJ IDEA...");
        }
        other => panic!("unexpected effect {:?}", other),
    }
    assert_eq!(app.mode, AppMode::MainMenu);
    assert!(app.config.recent_projects.is_empty());
}

#[test]
fn hidden_subdirectories_are_not_projects() {
    let mut app = App::new(config());
    let entries = vec![dir("beta"), dir(".cache"), DirEntry { name: Some("x.txt".to_string()), is_dir: false }, dir("alpha")];
    app.load_projects("cli".to_string(), &entries, &vec![bare_probe(), bare_probe()]);
    assert_eq!(names(&app), vec!["alpha".to_string(), "beta".to_string()]);
    assert_eq!(app.projects[0].path, "/base/cli/alpha");
    assert_eq!(app.projects[1].path, "/base/cli/beta");
}

#[test]
fn base_directory_with_trailing_slash_joins_once() {
    let mut c = config();
    c.base_dir = "/base/".to_string();
    let mut app = App::new(c);
    app.load_projects("web".to_string(), &vec![dir("site")], &vec![bare_probe()]);
    assert_eq!(app.projects[0].path, "/base/web/site");
}

#[test]
fn menu_and_theme_entries() {
    let app = App::new(config());
    assert_eq!(app.menu_items[4], "Open IntelliJ IDEA");
    assert_eq!(app.theme_items[0], idea_tui::default_theme());
    assert_eq!(app.theme_items[10], "Ayu Mirage");
}

#[test]
fn url_input_edits_and_leaves() {
    let mut app = App::new(config());
    app.menu_selected = Some(3);
    app.handle_key(Key::Enter);
    assert_eq!(app.mode, AppMode::InputUrl);
    assert!(matches!(app.handle_key(Key::Enter), Effect::Nothing));
    assert_eq!(app.mode, AppMode::InputUrl);
    for c in "ab/".chars() {
        app.handle_key(Key::Char(c));
    }
    assert_eq!(app.input, "ab/");
    app.handle_key(Key::Backspace);
    assert_eq!(app.input, "ab");
    app.handle_key(Key::Backspace);
    app.handle_key(Key::Backspace);
    assert_eq!(app.input, "");
    assert_eq!(app.mode, AppMode::InputUrl);
    app.handle_key(Key::Backspace);
    assert_eq!(app.mode, AppMode::MainMenu);
}

#[test]
fn default_config_values() {
    let c = Config::default();
    assert_eq!(c.base_dir, "/home/fabian/dev");
    assert_eq!(c.idea_path, "/opt/intellij-idea-ultimate-edition/bin/idea");
    assert_eq!(c.terminal_command, "kitty --directory");
    assert!(c.favorites.is_empty());
    assert!(c.recent_projects.is_empty());
    assert_eq!(c.theme, "Darcula (default)");
    assert_eq!(idea_tui::default_terminal_cmd(), "kitty --directory");
    assert_eq!(idea_tui::default_theme(), "Darcula (default)");
}

#[test]
fn project_info_duplicate_is_equal_copy() {
    let p = ProjectInfo {
        name: "n".to_string(),
        path: "/p/n".to_string(),
        git_branch: Some("main".to_string()),
        has_changes: true,
        language: None,
    };
    let q = p.duplicate();
    assert_eq!(q.name, p.name);
    assert_eq!(q.path, p.path);
    assert_eq!(q.git_branch, p.git_branch);
    assert_eq!(q.has_changes, p.has_changes);
    assert_eq!(q.language, p.language);
}

use idea_tui::catalog::{language_markers, visible_dir_names};
use idea_tui::launch::{clone_project_name, command_from_words};
use idea_tui::listing::add_recent;
use idea_tui::text::{contains_folded, matches_query, text_le};
use idea_tui::{App, AppMode, CloneTool, Config, DirEntry, Effect, Key, Probe};

fn probe(markers: &[&str]) -> Probe {
    Probe {
        has_git_dir: false,
        branch_output: None,
        status_output: None,
        markers: markers.iter().map(|m| m.to_string()).collect(),
    }
}

fn strings(v: &[&str]) -> Vec<String> {
    v.iter().map(|s| s.to_string()).collect()
}

#[test]
fn no_git_marker_means_no_branch_and_clean() {
    let p = Probe {
        has_git_dir: false,
        branch_output: Some(b"main\n".to_vec()),
        status_output: Some(b" M file\n".to_vec()),
        markers: Vec::new(),
    };
    assert_eq!(App::get_git_info(&p), (None, false));
    let r = idea_tui::catalog::project_record("x".to_string(), "/p/x".to_string(), &p);
    assert_eq!(r.git_branch, None);
    assert!(!r.has_changes);
}

#[test]
fn git_branch_is_trimmed_and_status_marks_changes() {
    let p = Probe {
        has_git_dir: true,
        branch_output: Some(b"  main\n".to_vec()),
        status_output: Some(b" M file\n".to_vec()),
        markers: Vec::new(),
    };
    assert_eq!(App::get_git_info(&p), (Some("main".to_string()), true));
    let spaced = Probe {
        has_git_dir: true,
        branch_output: Some("\u{a0}\tfeature/x \u{3000}".as_bytes().to_vec()),
        status_output: None,
        markers: Vec::new(),
    };
    assert_eq!(App::get_git_info(&spaced), (Some("feature/x".to_string()), false));
    let clean = Probe { has_git_dir: true, branch_output: None, status_output: Some(Vec::new()), markers: Vec::new() };
    assert_eq!(App::get_git_info(&clean), (None, false));
    let failed = Probe { has_git_dir: true, branch_output: Some(vec![0xff, 0xfe]), status_output: None, markers: Vec::new() };
    assert_eq!(App::get_git_info(&failed), (None, false));
}

#[test]
fn language_follows_marker_priority() {
    assert_eq!(App::detect_language(&strings(&["package.json", "Cargo.toml"])), Some("Rust".to_string()));
    assert_eq!(App::detect_language(&strings(&["build.gradle"])), Some("Java".to_string()));
    assert_eq!(App::detect_language(&strings(&["go.mod", "pom.xml"])), Some("Java".to_string()));
    assert_eq!(App::detect_language(&strings(&["package.json", "requirements.txt"])), Some("JS/TS".to_string()));
    assert_eq!(App::detect_language(&strings(&["requirements.txt"])), Some("Python".to_string()));
    assert_eq!(App::detect_language(&strings(&["pyproject.toml"])), Some("Python".to_string()));
    assert_eq!(App::detect_language(&strings(&["go.mod"])), Some("Go".to_string()));
    assert_eq!(App::detect_language(&strings(&["README.md"])), None);
    assert_eq!(App::detect_language(&Vec::new()), None);
    let r = idea_tui::catalog::project_record("x".to_string(), "/p/x".to_string(), &probe(&["go.mod"]));
    assert_eq!(r.language, Some("Go".to_string()));
}

#[test]
fn marker_list_in_priority_order() {
    assert_eq!(
        language_markers(),
        strings(&["Cargo.toml", "pom.xml", "build.gradle", "package.json", "pyproject.toml", "requirements.txt", "go.mod"])
    );
}

#[test]
fn visible_names_keep_listing_order() {
    let entries = vec![
        DirEntry { name: Some("b".to_string()), is_dir: true },
        DirEntry { name: Some(".hidden".to_string()), is_dir: true },
        DirEntry { name: Some("a".to_string()), is_dir: true },
    ];
    assert_eq!(visible_dir_names(&entries), strings(&["b", "a"]));
}

#[test]
fn clone_name_strips_git_suffix() {
    assert_eq!(clone_project_name("https://host/group/repo.git"), "repo");
    assert_eq!(clone_project_name("https://host/group/repo"), "repo");
    assert_eq!(clone_project_name("repo.git"), "repo");
    assert_eq!(clone_project_name("git@host:group/tool.git"), "tool");
    assert_eq!(clone_project_name("https://host/group/"), "new-project");
    assert_eq!(clone_project_name(""), "new-project");
}

fn clone_app() -> App {
    let mut app = App::new(Config {
        base_dir: "/base".to_string(),
        idea_path: "/opt/idea".to_string(),
        terminal_command: "kitty --directory".to_string(),
        favorites: Vec::new(),
        recent_projects: Vec::new(),
        theme: "Nord".to_string(),
    });
    app.menu_selected = Some(3);
    app.handle_key(Key::Enter);
    for c in "https://host/group/repo.git".chars() {
        app.handle_key(Key::Char(c));
    }
    assert!(matches!(app.handle_key(Key::Enter), Effect::LoadCategories));
    assert_eq!(app.mode, AppMode::CloneCategory);
    app.load_categories(&vec![DirEntry { name: Some("web".to_string()), is_dir: true }]);
    app
}

#[test]
fn clone_fallback_runs_after_primary_fails() {
    let mut app = clone_app();
    let job = match app.handle_key(Key::Enter) {
        Effect::Clone(job) => job,
        other => panic!("unexpected effect {:?}", other),
    };
    assert_eq!(job.tool, CloneTool::Primary);
    assert_eq!(job.command.program, "gh");
    assert_eq!(job.command.args, strings(&["repo", "clone", "https://host/group/repo.git", "--", "--quiet"]));
    assert_eq!(job.command.dir, Some("/base/web".to_string()));
    assert_eq!(job.project_name, "repo");
    assert_eq!(job.project_path, "/base/web/repo");
    assert_eq!(app.status_message, Some("Cloning repo...".to_string()));
    let fallback = match app.clone_finished(&job, false) {
        Effect::Clone(j) => j,
        other => panic!("unexpected effect {:?}", other),
    };
    assert_eq!(fallback.tool, CloneTool::Fallback);
    assert_eq!(fallback.url, job.url);
    assert_eq!(fallback.dir, job.dir);
    assert_eq!(fallback.command.program, "git");
    assert_eq!(fallback.command.args, strings(&["clone", "--quiet", "https://host/group/repo.git"]));
    assert_eq!(fallback.command.dir, Some("/base/web".to_string()));
    assert_eq!(app.mode, AppMode::CloneCategory);
    assert!(matches!(app.clone_finished(&fallback, false), Effect::Nothing));
    assert_eq!(app.status_message, Some("Clone failed!".to_string()));
    assert_eq!(app.mode, AppMode::CloneCategory);
    assert!(app.config.recent_projects.is_empty());
}

#[test]
fn clone_success_opens_project_and_returns_to_menu() {
    let mut app = clone_app();
    let job = match app.on_enter() {
        Effect::Clone(job) => job,
        other => panic!("unexpected effect {:?}", other),
    };
    match app.clone_finished(&job, true) {
        Effect::Spawn(launch) => {
            assert_eq!(launch.command.program, "/opt/idea");
            assert_eq!(launch.command.args, strings(&["/base/web/repo"]));
            assert_eq!(launch.message, "Cloned and opened repo!");
        }
        other => panic!("unexpected effect {:?}", other),
    }
    assert_eq!(app.mode, AppMode::MainMenu);
    assert_eq!(app.config.recent_projects, strings(&["/base/web/repo"]));
}

#[test]
fn recent_moves_existing_path_to_front_once() {
    let mut list = strings(&["a", "b", "c"]);
    add_recent(&mut list, "c".to_string());
    assert_eq!(list, strings(&["c", "a", "b"]));
    add_recent(&mut list, "d".to_string());
    assert_eq!(list, strings(&["d", "c", "a", "b"]));
}

#[test]
fn recent_is_capped_at_ten() {
    let mut list: Vec<String> = (0..10).map(|i| format!("path{}", i)).collect();
    add_recent(&mut list, "new".to_string());
    assert_eq!(list.len(), 10);
    assert_eq!(list[0], "new");
    assert_eq!(list[9], "path8");
    add_recent(&mut list, "path3".to_string());
    assert_eq!(list.len(), 10);
    assert_eq!(list[0], "path3");
    assert_eq!(list.iter().filter(|p| p.as_str() == "path3").count(), 1);
    let mut app = App::new(Config::default());
    for i in 0..15 {
        app.add_to_recent(format!("/p/{}", i));
    }
    assert_eq!(app.config.recent_projects.len(), 10);
    assert_eq!(app.config.recent_projects[0], "/p/14");
}

#[test]
fn query_matching_ignores_case() {
    assert!(matches_query("WEB", "my-web-app"));
    assert!(matches_query("", "anything"));
    assert!(!matches_query("xyz", "my-web-app"));
    assert!(contains_folded("web", "my-web-app"));
    assert!(!contains_folded("WEB", "my-web-app"));
    assert!(contains_folded("", ""));
    assert!(!contains_folded("a", ""));
}

#[test]
fn text_order_is_lexicographic() {
    let v = |s: &str| s.chars().collect::<Vec<char>>();
    assert!(text_le(&v("abc"), &v("abd")));
    assert!(text_le(&v("ab"), &v("abc")));
    assert!(!text_le(&v("abc"), &v("ab")));
    assert!(text_le(&v(""), &v("")));
    assert!(!text_le(&v("b"), &v("a")));
}

#[test]
fn command_from_template_words() {
    let c = command_from_words(&strings(&["alacritty", "--working-directory"]), &"/p".to_string()).unwrap();
    assert_eq!(c.program, "alacritty");
    assert_eq!(c.args, strings(&["--working-directory", "/p"]));
    assert!(command_from_words(&Vec::new(), &"/p".to_string()).is_none());
    let mut app = App::new(Config::default());
    app.config.terminal_command = "  wezterm\tstart  --cwd ".to_string();
    app.load_projects("c".to_string(), &vec![DirEntry { name: Some("p".to_string()), is_dir: true }], &vec![probe(&[])]);
    match app.open_terminal() {
        Effect::Spawn(l) => {
            assert_eq!(l.command.program, "wezterm");
            assert_eq!(l.command.args, strings(&["start", "--cwd", "/home/fabian/dev/c/p"]));
            assert!(l.recent.is_none());
        }
        other => panic!("unexpected effect {:?}", other),
    }
}

use funhou::claude_logs::launch::{
    launch_script, plan_launch, resume_script, wrap_in_terminal, ClaudeSessionFinishedPayload,
};
use funhou::claude_logs::project::{
    choose_project_dir, describe_project, describe_with, encode_dir_name, list_projects, newest,
    ProjectDir, ProjectDirChoice, Timestamp,
};

fn at(secs: i64, nanos: u32) -> Option<Timestamp> {
    Some(Timestamp { secs, nanos })
}

fn dir(name: &str, sessions: Vec<Option<Timestamp>>) -> ProjectDir {
    ProjectDir { dir_name: name.to_string(), path: format!("/logs/{}", name), sessions }
}

#[test]
fn newest_is_the_latest_known_time() {
    assert_eq!(newest(&vec![]), None);
    assert_eq!(newest(&vec![None, None]), None);
    assert_eq!(newest(&vec![at(5, 0), None, at(9, 1), at(9, 0), at(-3, 7)]), at(9, 1));
    assert_eq!(newest(&vec![at(-5, 10), at(-5, 9)]), at(-5, 10));
    assert_eq!(newest(&vec![None, at(0, 0)]), at(0, 0));
}

#[test]
fn project_without_sessions_is_not_listed() {
    assert!(describe_project(&dir("-Users-me-empty", vec![])).is_none());
    assert!(describe_with(&dir("x", vec![]), Some("stamp".to_string())).is_none());
}

#[test]
fn project_is_described_by_its_directory() {
    let info = describe_project(&dir(
        "-Users-me-my-app",
        vec![at(1431648000, 0), None, at(1431647999, 999_999_999)],
    ))
    .unwrap();
    assert_eq!(info.name, "/Users/me/my/app");
    assert_eq!(info.path, "/logs/-Users-me-my-app");
    assert_eq!(info.session_count, 3);
    assert_eq!(info.last_updated.as_deref(), Some("2015-05-15T00:00:00+00:00"));
}

#[test]
fn time_is_written_with_its_fraction() {
    let millis = describe_project(&dir("p", vec![at(0, 500_000_000)])).unwrap();
    assert_eq!(millis.last_updated.as_deref(), Some("1970-01-01T00:00:00.500+00:00"));
    let nanos = describe_project(&dir("p", vec![at(1, 1)])).unwrap();
    assert_eq!(nanos.last_updated.as_deref(), Some("1970-01-01T00:00:01.000000001+00:00"));
    let before = describe_project(&dir("p", vec![at(-1, 0)])).unwrap();
    assert_eq!(before.last_updated.as_deref(), Some("1969-12-31T23:59:59+00:00"));
}

#[test]
fn unknown_times_give_no_stamp() {
    let info = describe_project(&dir("p", vec![None, None])).unwrap();
    assert_eq!(info.session_count, 2);
    assert_eq!(info.last_updated, None);
    let beyond = describe_project(&dir("p", vec![at(i64::MAX, 0)])).unwrap();
    assert_eq!(beyond.last_updated, None);
}

#[test]
fn given_stamp_is_taken_as_it_is() {
    let info = describe_with(&dir("a-b", vec![None]), Some("whenever".to_string())).unwrap();
    assert_eq!(info.name, "a/b");
    assert_eq!(info.session_count, 1);
    assert_eq!(info.last_updated.as_deref(), Some("whenever"));
}

#[test]
fn projects_are_listed_newest_first() {
    let dirs = vec![
        dir("old", vec![at(100, 0)]),
        dir("empty", vec![]),
        dir("unknown", vec![None]),
        dir("new", vec![at(300, 0), at(200, 0)]),
        dir("mid", vec![at(200, 0)]),
    ];
    let listed = list_projects(&dirs);
    let names: Vec<&str> = listed.iter().map(|p| p.name.as_str()).collect();
    assert_eq!(names, ["new", "mid", "old", "unknown"]);
    assert_eq!(listed[0].session_count, 2);
    assert!(list_projects(&Vec::new()).is_empty());
}

#[test]
fn working_directory_is_encoded() {
    assert_eq!(encode_dir_name("/Users/foo/github.com/bar"), "-Users-foo-github-com-bar");
    assert_eq!(encode_dir_name("relative/path.d"), "relative-path-d");
    assert_eq!(encode_dir_name("already-dashed"), "already-dashed");
    assert_eq!(encode_dir_name(""), "");
    assert_eq!(encode_dir_name("/日本.語/"), "-日本-語-");
}

#[test]
fn path_under_the_root_is_taken_as_given() {
    let root = "/home/me/.logs/projects";
    assert!(matches!(
        choose_project_dir("/home/me/.logs/projects/-work-app", root),
        ProjectDirChoice::AsGiven
    ));
    assert!(matches!(choose_project_dir(root, root), ProjectDirChoice::AsGiven));
    assert!(matches!(
        choose_project_dir("/home/me/.logs/projectsX", root),
        ProjectDirChoice::AsGiven
    ));
    assert!(matches!(choose_project_dir("anything", ""), ProjectDirChoice::AsGiven));
}

#[test]
fn other_path_is_encoded() {
    let root = "/home/me/.logs/projects";
    match choose_project_dir("/work/my.app", root) {
        ProjectDirChoice::Named(name) => assert_eq!(name, "-work-my-app"),
        ProjectDirChoice::AsGiven => panic!("a path outside the root was taken as given"),
    }
    match choose_project_dir("/home/me/.logs/project", root) {
        ProjectDirChoice::Named(name) => assert_eq!(name, "-home-me--logs-project"),
        ProjectDirChoice::AsGiven => panic!("a shorter path was taken as given"),
    }
}

#[test]
fn command_is_wrapped_for_the_terminal() {
    assert_eq!(
        wrap_in_terminal("ls \"a b\""),
        "tell application \"Terminal\"\n            activate\n            do script \"source ~/.zshrc; ls \\\"a b\\\"\"\n        end tell"
    );
}

#[test]
fn launch_without_prompt() {
    assert_eq!(
        launch_script("assistant", "/work/app", &None),
        "tell application \"Terminal\"\n            activate\n            do script \"source ~/.zshrc; cd \\\"/work/app\\\" && assistant\"\n        end tell"
    );
}

#[test]
fn launch_with_prompt() {
    assert_eq!(
        launch_script("assistant", "/work/app", &Some("fix it".to_string())),
        "tell application \"Terminal\"\n            activate\n            do script \"source ~/.zshrc; cd \\\"/work/app\\\" && assistant \\\"fix it\\\"\"\n        end tell"
    );
}

#[test]
fn launch_escapes_quotes_and_backslashes() {
    // in the directory the quotes are escaped first, so their backslashes are doubled too
    let script = launch_script("assistant", "/a\"b\\c", &Some("say \"hi\\there\"".to_string()));
    let inner = "cd \"/a\\\\\"b\\\\c\" && assistant \"say \\\"hi\\\\there\\\"\"";
    let expected = format!(
        "tell application \"Terminal\"\n            activate\n            do script \"source ~/.zshrc; {}\"\n        end tell",
        inner.replace('"', "\\\"")
    );
    assert_eq!(script, expected);
}

#[test]
fn resume_names_the_session() {
    assert_eq!(
        resume_script("assistant", "abc-123", "/work/app"),
        "tell application \"Terminal\"\n            activate\n            do script \"source ~/.zshrc; cd \\\"/work/app\\\" && assistant --resume \\\"abc-123\\\"\"\n        end tell"
    );
    let odd = resume_script("assistant", "a\"b", "/w");
    assert!(odd.contains("--resume \\\"a\\\\\\\"b\\\""));
}

#[test]
fn launch_plan_names_a_fresh_session() {
    let plan = plan_launch("assistant", "/work/app", &None);
    assert_eq!(plan.script, launch_script("assistant", "/work/app", &None));
    assert_eq!(plan.session_id.len(), 36);
    let id: Vec<char> = plan.session_id.chars().collect();
    for (i, c) in id.iter().enumerate() {
        if [8, 13, 18, 23].contains(&i) {
            assert_eq!(*c, '-');
        } else {
            assert!(c.is_ascii_hexdigit() && !c.is_ascii_uppercase());
        }
    }
    assert_eq!(id[14], '4');
    let other = plan_launch("assistant", "/work/app", &None);
    assert_ne!(plan.session_id, other.session_id);
}

#[test]
fn finished_payload_holds_its_fields() {
    let payload = ClaudeSessionFinishedPayload {
        session_id: "abc".to_string(),
        success: false,
        exit_code: Some(2),
    };
    assert_eq!(payload.session_id, "abc");
    assert!(!payload.success);
    assert_eq!(payload.exit_code, Some(2));
}

use funhou::claude_logs::entry::{
    extract_text_content, ClaudeLogEntry, ClaudeMessage, ContentBlock, MessageContent,
};
use funhou::claude_logs::session::{
    count_turns, latest_session, list_sessions, read_conversation, summarize_session, SessionFile,
    SUMMARY_LINES,
};

fn text(s: &str) -> Option<String> {
    Some(s.to_string())
}

fn block(kind: Option<&str>, content: Option<&str>) -> ContentBlock {
    ContentBlock { kind: kind.map(str::to_string), text: content.map(str::to_string) }
}

fn entry(kind: &str) -> ClaudeLogEntry {
    ClaudeLogEntry {
        entry_type: text(kind),
        session_id: None,
        message: None,
        timestamp: None,
        cwd: None,
        git_branch: None,
        uuid: None,
        is_sidechain: None,
    }
}

fn turn(kind: &str, content: &str, stamp: &str) -> ClaudeLogEntry {
    ClaudeLogEntry {
        message: Some(ClaudeMessage {
            role: text(kind),
            content: Some(MessageContent::Text(content.to_string())),
        }),
        timestamp: text(stamp),
        ..entry(kind)
    }
}

#[test]
fn string_content_is_its_own_text() {
    let content = Some(MessageContent::Text("hello there".to_string()));
    assert_eq!(extract_text_content(&content), text("hello there"));
}

#[test]
fn empty_string_content_is_an_empty_text() {
    let content = Some(MessageContent::Text(String::new()));
    assert_eq!(extract_text_content(&content), text(""));
}

#[test]
fn text_blocks_are_joined_by_newlines() {
    let content = Some(MessageContent::Blocks(vec![
        block(Some("text"), Some("first")),
        block(Some("tool_use"), Some("ignored")),
        block(Some("text"), Some("second")),
        block(Some("text"), None),
        block(None, Some("no kind")),
        block(Some("text"), Some("third")),
    ]));
    assert_eq!(extract_text_content(&content), text("first\nsecond\nthird"));
}

#[test]
fn single_text_block_has_no_newline() {
    let content = Some(MessageContent::Blocks(vec![block(Some("text"), Some("only"))]));
    assert_eq!(extract_text_content(&content), text("only"));
}

#[test]
fn empty_text_blocks_still_count() {
    let content = Some(MessageContent::Blocks(vec![
        block(Some("text"), Some("")),
        block(Some("text"), Some("")),
    ]));
    assert_eq!(extract_text_content(&content), text("\n"));
}

#[test]
fn blocks_without_text_give_nothing() {
    let none = Some(MessageContent::Blocks(vec![]));
    assert_eq!(extract_text_content(&none), None);
    let other = Some(MessageContent::Blocks(vec![
        block(Some("image"), Some("x")),
        block(Some("Text"), Some("wrong case")),
        block(Some("text"), None),
    ]));
    assert_eq!(extract_text_content(&other), None);
}

#[test]
fn other_content_gives_nothing() {
    assert_eq!(extract_text_content(&Some(MessageContent::Other)), None);
    assert_eq!(extract_text_content(&None), None);
}

#[test]
fn turns_are_user_and_assistant_entries() {
    let lines = vec![
        Some(entry("user")),
        None,
        Some(entry("assistant")),
        Some(entry("summary")),
        Some(entry("User")),
        Some(ClaudeLogEntry { entry_type: None, ..entry("x") }),
        Some(entry("assistant")),
    ];
    assert_eq!(count_turns(&lines), 3);
    assert_eq!(count_turns(&Vec::new()), 0);
}

#[test]
fn summary_takes_the_first_user_message() {
    let lines = vec![
        Some(ClaudeLogEntry { cwd: None, ..entry("summary") }),
        None,
        Some(ClaudeLogEntry {
            cwd: text("/work/app"),
            git_branch: text("main"),
            ..turn("user", "fix the build", "2024-05-01T10:00:00Z")
        }),
        Some(ClaudeLogEntry { cwd: text("/elsewhere"), ..turn("assistant", "on it", "2024-05-01T10:00:05Z") }),
        Some(ClaudeLogEntry {
            git_branch: text("feature"),
            ..turn("user", "thanks", "2024-05-01T10:01:00Z")
        }),
    ];
    let summary = summarize_session("abc".to_string(), "/work/app".to_string(), &lines).unwrap();
    assert_eq!(summary.session_id, "abc");
    assert_eq!(summary.project_path, "/work/app");
    assert_eq!(summary.cwd, text("/work/app"));
    assert_eq!(summary.git_branch, text("main"));
    assert_eq!(summary.first_message, text("fix the build"));
    assert_eq!(summary.timestamp, text("2024-05-01T10:00:00Z"));
    assert_eq!(summary.message_count, 3);
}

#[test]
fn user_entries_without_text_still_set_the_stamp() {
    let silent = ClaudeLogEntry {
        timestamp: text("t1"),
        git_branch: text("b1"),
        message: Some(ClaudeMessage { role: None, content: Some(MessageContent::Other) }),
        ..entry("user")
    };
    let bare = ClaudeLogEntry { timestamp: text("t2"), git_branch: None, ..entry("user") };
    let lines = vec![Some(silent), Some(bare)];
    let summary = summarize_session("s".to_string(), "p".to_string(), &lines).unwrap();
    assert_eq!(summary.first_message, None);
    assert_eq!(summary.timestamp, text("t2"));
    assert_eq!(summary.git_branch, None);
    assert_eq!(summary.cwd, None);
    assert_eq!(summary.message_count, 2);
}

#[test]
fn summary_reads_ten_lines_and_counts_all() {
    assert_eq!(SUMMARY_LINES, 10);
    let mut lines: Vec<Option<ClaudeLogEntry>> = Vec::new();
    for _ in 0..10 {
        lines.push(Some(entry("assistant")));
    }
    lines.push(Some(ClaudeLogEntry { cwd: text("/late"), ..turn("user", "late", "late-stamp") }));
    let summary = summarize_session("s".to_string(), "p".to_string(), &lines).unwrap();
    assert_eq!(summary.first_message, None);
    assert_eq!(summary.timestamp, None);
    assert_eq!(summary.cwd, None);
    assert_eq!(summary.message_count, 11);

    let mut lines: Vec<Option<ClaudeLogEntry>> = Vec::new();
    for _ in 0..9 {
        lines.push(None);
    }
    lines.push(Some(turn("user", "tenth", "stamp")));
    let summary = summarize_session("s".to_string(), "p".to_string(), &lines).unwrap();
    assert_eq!(summary.first_message, text("tenth"));
    assert_eq!(summary.message_count, 1);
}

#[test]
fn empty_file_has_an_empty_summary() {
    let summary = summarize_session("s".to_string(), "p".to_string(), &Vec::new()).unwrap();
    assert_eq!(summary.message_count, 0);
    assert_eq!(summary.first_message, None);
    assert_eq!(summary.timestamp, None);
}

#[test]
fn side_chain_has_no_summary() {
    let lines = vec![
        Some(ClaudeLogEntry { is_sidechain: Some(true), ..turn("user", "sub task", "t") }),
        Some(turn("assistant", "done", "t")),
    ];
    assert!(summarize_session("s".to_string(), "p".to_string(), &lines).is_none());
}

#[test]
fn side_chain_mark_counts_on_the_first_line_only() {
    let lines = vec![
        Some(ClaudeLogEntry { is_sidechain: Some(false), ..turn("user", "main", "t") }),
        Some(ClaudeLogEntry { is_sidechain: Some(true), ..turn("assistant", "aside", "t") }),
    ];
    assert!(summarize_session("s".to_string(), "p".to_string(), &lines).is_some());
    let unparsed_first =
        vec![None, Some(ClaudeLogEntry { is_sidechain: Some(true), ..entry("user") })];
    assert!(summarize_session("s".to_string(), "p".to_string(), &unparsed_first).is_some());
}

fn file(id: &str, stamp: Option<&str>) -> SessionFile {
    let first = match stamp {
        Some(s) => turn("user", id, s),
        None => ClaudeLogEntry { timestamp: None, ..turn("user", id, "") },
    };
    SessionFile { session_id: id.to_string(), lines: vec![Some(first)] }
}

#[test]
fn sessions_are_listed_newest_first() {
    let files = vec![
        file("old", Some("2024-01-01T00:00:00Z")),
        file("none", None),
        file("new", Some("2024-06-01T00:00:00Z")),
        file("mid", Some("2024-03-01T00:00:00Z")),
    ];
    let listed = list_sessions("/work/app", &files);
    let ids: Vec<&str> = listed.iter().map(|s| s.session_id.as_str()).collect();
    assert_eq!(ids, ["new", "mid", "old", "none"]);
    assert!(listed.iter().all(|s| s.project_path == "/work/app"));
}

#[test]
fn sessions_of_one_stamp_keep_their_order() {
    let files = vec![
        file("a", Some("same")),
        file("b", Some("same")),
        file("z", Some("zz")),
        file("c", Some("same")),
        file("n1", None),
        file("n2", None),
    ];
    let listed = list_sessions("p", &files);
    let ids: Vec<&str> = listed.iter().map(|s| s.session_id.as_str()).collect();
    assert_eq!(ids, ["z", "a", "b", "c", "n1", "n2"]);
}

#[test]
fn side_chains_are_not_listed() {
    let side = SessionFile {
        session_id: "side".to_string(),
        lines: vec![Some(ClaudeLogEntry { is_sidechain: Some(true), ..turn("user", "x", "t9") })],
    };
    let files = vec![file("a", Some("t1")), side, file("b", Some("t2"))];
    let listed = list_sessions("p", &files);
    let ids: Vec<&str> = listed.iter().map(|s| s.session_id.as_str()).collect();
    assert_eq!(ids, ["b", "a"]);
    assert!(list_sessions("p", &Vec::new()).is_empty());
}

#[test]
fn stamps_are_ordered_as_strings() {
    let files = vec![
        file("nine", Some("9")),
        file("ten", Some("10")),
        file("upper", Some("Z")),
        file("lower", Some("a")),
        file("wide", Some("é")),
        file("prefix", Some("a")),
        file("longer", Some("ab")),
    ];
    let listed = list_sessions("p", &files);
    let ids: Vec<&str> = listed.iter().map(|s| s.session_id.as_str()).collect();
    assert_eq!(ids, ["wide", "longer", "lower", "prefix", "upper", "nine", "ten"]);
}

#[test]
fn latest_session_is_the_first_listed() {
    let files = vec![file("old", Some("1")), file("new", Some("2"))];
    let latest = latest_session(list_sessions("p", &files)).unwrap();
    assert_eq!(latest.session_id, "new");
    assert!(latest_session(Vec::new()).is_none());
}

#[test]
fn conversation_holds_the_turns_with_text() {
    let lines = vec![
        Some(entry("summary")),
        Some(turn("user", "hello", "t1")),
        None,
        Some(ClaudeLogEntry {
            message: Some(ClaudeMessage {
                role: None,
                content: Some(MessageContent::Blocks(vec![
                    block(Some("text"), Some("hi")),
                    block(Some("text"), Some("how can I help")),
                ])),
            }),
            ..entry("assistant")
        }),
        Some(ClaudeLogEntry {
            message: Some(ClaudeMessage { role: text("user"), content: None }),
            ..entry("user")
        }),
        Some(entry("assistant")),
        Some(turn("system", "not a turn", "t3")),
        Some(ClaudeLogEntry {
            message: Some(ClaudeMessage {
                role: text("tool"),
                content: Some(MessageContent::Text("result".to_string())),
            }),
            timestamp: text("t4"),
            ..entry("user")
        }),
    ];
    let messages = read_conversation("abc", &lines).unwrap();
    let shown: Vec<(&str, &str, &str)> = messages
        .iter()
        .map(|m| (m.role.as_str(), m.content.as_str(), m.timestamp.as_str()))
        .collect();
    assert_eq!(
        shown,
        [
            ("user", "hello", "t1"),
            ("assistant", "hi\nhow can I help", ""),
            ("tool", "result", "t4"),
        ]
    );
}

#[test]
fn conversation_of_an_empty_file_is_empty() {
    assert!(read_conversation("abc", &Vec::new()).unwrap().is_empty());
}

#[test]
fn conversation_of_a_side_chain_is_refused() {
    let lines =
        vec![Some(ClaudeLogEntry { is_sidechain: Some(true), ..turn("user", "sub", "t") })];
    let refusal = read_conversation("abc-123", &lines).unwrap_err();
    assert_eq!(refusal, "Session abc-123 is a sidechain session and cannot be resumed");
}

use funhou::fonts::unique_sorted;
use funhou::speech::config::{RecognitionResult, SpeechConfig, SpeechRecognitionState};
use funhou::speech::manager::SpeechManager;
use funhou::speech::recognizer::ListeningState;
use funhou::text::{
    begins_with, bytes_less, escape_backslashes, escape_quotes, replace_char, same_text, text_less,
};

fn names(list: &[&str]) -> Vec<String> {
    list.iter().map(|s| s.to_string()).collect()
}

#[test]
fn speech_defaults() {
    assert_eq!(SpeechRecognitionState::default(), SpeechRecognitionState::Idle);
    let config = SpeechConfig::default();
    assert!(config.enabled);
    assert_eq!(config.language, "ja-JP");
    let copy = config.clone();
    assert_eq!(copy.language, "ja-JP");
    assert!(copy.enabled);
    let result = RecognitionResult { text: "こんにちは".to_string(), is_final: true };
    assert!(result.is_final);
    assert_eq!(result.text, "こんにちは");
}

#[test]
fn speech_manager_starts_idle() {
    let manager = SpeechManager::new();
    assert_eq!(manager.get_state(), SpeechRecognitionState::Idle);
    assert_eq!(manager.get_config().language, "ja-JP");
    assert!(manager.get_config().enabled);
    assert!(!manager.stop_recognition());
}

#[test]
fn first_start_makes_a_recognizer() {
    let mut manager = SpeechManager::new();
    let plan = manager.start_recognition().unwrap();
    assert_eq!(plan.language, "ja-JP");
    assert!(plan.create_recognizer);
    manager.recognizer_created();
    assert_eq!(manager.get_state(), SpeechRecognitionState::Idle);
    assert_eq!(manager.started(), SpeechRecognitionState::Listening);
    assert_eq!(manager.get_state(), SpeechRecognitionState::Listening);
}

#[test]
fn start_while_listening_is_refused() {
    let mut manager = SpeechManager::new();
    manager.recognizer_created();
    manager.started();
    assert_eq!(manager.start_recognition().unwrap_err(), "Already listening");
    assert_eq!(manager.get_state(), SpeechRecognitionState::Listening);
}

#[test]
fn stop_and_start_again_keeps_the_recognizer() {
    let mut manager = SpeechManager::new();
    manager.recognizer_created();
    manager.started();
    assert!(manager.stop_recognition());
    assert_eq!(manager.stopped(), SpeechRecognitionState::Idle);
    assert_eq!(manager.get_state(), SpeechRecognitionState::Idle);
    let plan = manager.start_recognition().unwrap();
    assert!(!plan.create_recognizer);
}

#[test]
fn failed_recognizer_leaves_the_manager_as_it_was() {
    let manager = SpeechManager::new();
    let plan = manager.start_recognition().unwrap();
    assert!(plan.create_recognizer);
    // the host could not make one and reports nothing
    assert_eq!(manager.get_state(), SpeechRecognitionState::Idle);
    assert!(manager.start_recognition().unwrap().create_recognizer);
}

#[test]
fn new_language_gives_up_the_recognizer() {
    let mut manager = SpeechManager::new();
    manager.recognizer_created();
    manager.set_language("en-US".to_string());
    assert_eq!(manager.get_config().language, "en-US");
    assert!(manager.get_config().enabled);
    let plan = manager.start_recognition().unwrap();
    assert_eq!(plan.language, "en-US");
    assert!(plan.create_recognizer);
    assert!(!manager.stop_recognition());
}

#[test]
fn fonts_are_listed_once_and_in_order() {
    let listed = unique_sorted(names(&["Menlo", "Arial", "Zapfino", "Arial", "Helvetica", "Menlo"]));
    assert_eq!(listed, ["Arial", "Helvetica", "Menlo", "Zapfino"]);
}

#[test]
fn fonts_are_ordered_as_strings() {
    let listed = unique_sorted(names(&["b", "a", "B", "ab", "", "游ゴシック", "Ab", ".SF NS", "a"]));
    assert_eq!(listed, ["", ".SF NS", "Ab", "B", "a", "ab", "b", "游ゴシック"]);
    assert!(unique_sorted(Vec::new()).is_empty());
    assert_eq!(unique_sorted(names(&["x", "x", "x"])), ["x"]);
}

#[test]
fn fonts_agree_with_a_sorted_set() {
    let given = names(&["delta", "alpha", "Charlie", "bravo", "alpha", "Échelle", "echo", "bravo"]);
    let mut expected: Vec<String> =
        given.iter().cloned().collect::<std::collections::HashSet<_>>().into_iter().collect();
    expected.sort();
    assert_eq!(unique_sorted(given), expected);
}

#[test]
fn characters_are_replaced_one_by_one() {
    assert_eq!(replace_char("a-b-c", '-', "/"), "a/b/c");
    assert_eq!(replace_char("--", '-', ""), "");
    assert_eq!(replace_char("abc", 'x', "y"), "abc");
    assert_eq!(replace_char("", 'x', "y"), "");
    assert_eq!(replace_char("aaa", 'a', "aa"), "aaaaaa");
    assert_eq!(replace_char("日本", '本', "本語"), "日本語");
}

#[test]
fn quotes_and_backslashes_are_escaped() {
    assert_eq!(escape_quotes("say \"hi\""), "say \\\"hi\\\"");
    assert_eq!(escape_quotes("back\\slash"), "back\\slash");
    assert_eq!(escape_backslashes("a\\b\\\\"), "a\\\\b\\\\\\\\");
    assert_eq!(escape_backslashes("\"quoted\""), "\"quoted\"");
    assert_eq!(escape_quotes(&escape_backslashes("\\\"")), "\\\\\\\"");
    assert_eq!(escape_backslashes(&escape_quotes("\\\"")), "\\\\\\\\\"");
}

#[test]
fn texts_are_compared_by_their_bytes() {
    assert!(same_text("abc", "abc"));
    assert!(!same_text("abc", "abd"));
    assert!(!same_text("abc", "ab"));
    assert!(text_less("a", "b"));
    assert!(!text_less("b", "a"));
    assert!(!text_less("a", "a"));
    assert!(text_less("", "a"));
    assert!(!text_less("a", ""));
    assert!(text_less("a", "ab"));
    assert!(text_less("Z", "a"));
    assert!(text_less("z", "é"));
    assert!(text_less("10", "9"));
    assert!(bytes_less(&[1, 2], &[1, 3]));
    assert!(bytes_less(&[], &[0]));
    assert!(!bytes_less(&[0], &[]));
    assert!(!bytes_less(&[255], &[254, 255]));
    for (a, b) in [("", ""), ("a", "A"), ("abc", "abd"), ("é", "e"), ("same", "same")] {
        assert_eq!(text_less(a, b), a < b);
        assert_eq!(text_less(b, a), b < a);
    }
}

#[test]
fn prefixes_are_found() {
    assert!(begins_with("/home/me/projects/x", "/home/me/projects"));
    assert!(begins_with("abc", ""));
    assert!(begins_with("abc", "abc"));
    assert!(!begins_with("ab", "abc"));
    assert!(!begins_with("abd", "abc"));
    assert!(!begins_with("", "a"));
    assert!(begins_with("日本語", "日本"));
}

#[test]
fn recognizer_listens_once_at_a_time() {
    let mut state = ListeningState::new();
    assert!(!state.is_listening());
    assert!(!state.stop_listening());
    assert_eq!(state.start_listening(), Ok(()));
    assert!(!state.is_listening());
    state.started();
    assert!(state.is_listening());
    assert_eq!(state.start_listening(), Err("Already listening".to_string()));
    assert!(state.stop_listening());
    state.stopped();
    assert!(!state.is_listening());
    assert_eq!(state.start_listening(), Ok(()));
}

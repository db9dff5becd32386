use funhou::paste_to_app::{paste_result, paste_script, parse_app_list, running_apps, AppInfo};
use funhou::split::{chars_of, split, text_between};

fn shown(apps: &[AppInfo]) -> Vec<(String, Option<String>)> {
    apps.iter().map(|a| (a.name.clone(), a.bundle_id.clone())).collect()
}

fn app(name: &str, bundle: Option<&str>) -> (String, Option<String>) {
    (name.to_string(), bundle.map(str::to_string))
}

#[test]
fn split_gives_the_pieces_between_separators() {
    assert_eq!(split("a, b, c", ", "), ["a", "b", "c"]);
    assert_eq!(split("abc", ", "), ["abc"]);
    assert_eq!(split("", ", "), [""]);
    assert_eq!(split(", ", ", "), ["", ""]);
    assert_eq!(split("a, , b", ", "), ["a", "", "b"]);
    assert_eq!(split("a, b, ", ", "), ["a", "b", ""]);
    assert_eq!(split(",, ", ", "), [",", ""]);
    assert_eq!(split("a,b ,c", ", "), ["a,b ,c"]);
    assert_eq!(split("x|y|z", "|"), ["x", "y", "z"]);
    assert_eq!(split("||", "|"), ["", "", ""]);
    assert_eq!(split("aaa", "aa"), ["", "a"]);
    assert_eq!(split("日本、語、", "、"), ["日本", "語", ""]);
    assert_eq!(split("ab", ""), ["", "a", "b", ""]);
    assert_eq!(split("", ""), ["", ""]);
}

#[test]
fn split_agrees_with_the_standard_split() {
    let texts = ["", "a", ", ", "a, b", ", , , ", "x,, y, ,z", ",  ,", "a|b, c|d, e", "ababab"];
    let separators = [", ", "|", ",", "ab", "aba", " ", ""];
    for text in texts {
        for separator in separators {
            let expected: Vec<&str> = text.split(separator).collect();
            assert_eq!(split(text, separator), expected, "{:?} at {:?}", text, separator);
        }
    }
}

#[test]
fn characters_and_ranges_of_a_text() {
    let chars = chars_of("añ日z");
    assert_eq!(chars, ['a', 'ñ', '日', 'z']);
    assert_eq!(text_between(&chars, 1, 3), "ñ日");
    assert_eq!(text_between(&chars, 2, 2), "");
    assert_eq!(text_between(&chars, 0, 4), "añ日z");
}

#[test]
fn report_lists_applications() {
    let apps = parse_app_list("Finder|com.apple.finder, Safari|com.apple.Safari, Notes|");
    assert_eq!(
        shown(&apps),
        [
            app("Finder", Some("com.apple.finder")),
            app("Safari", Some("com.apple.Safari")),
            app("Notes", None),
        ]
    );
}

#[test]
fn report_items_without_a_bar_have_no_bundle() {
    assert_eq!(shown(&parse_app_list("Terminal")), [app("Terminal", None)]);
    assert_eq!(
        shown(&parse_app_list("My App|org.example.app|extra")),
        [app("My App", Some("org.example.app"))]
    );
}

#[test]
fn empty_items_and_nameless_items_are_left_out() {
    assert!(parse_app_list("").is_empty());
    assert!(parse_app_list(", ").is_empty());
    assert_eq!(shown(&parse_app_list("|com.example.nameless, A|b, , |")), [app("A", Some("b"))]);
    assert_eq!(shown(&parse_app_list("A|, B")), [app("A", None), app("B", None)]);
}

#[test]
fn commas_without_a_space_stay_in_the_name() {
    assert_eq!(shown(&parse_app_list("One,Two|x, Three")), [
        app("One,Two", Some("x")),
        app("Three", None)
    ]);
}

#[test]
fn successful_answer_is_trimmed_and_parsed() {
    let apps = running_apps(true, b"  Finder|com.apple.finder, Mail|com.apple.mail\n", b"ignored")
        .unwrap();
    assert_eq!(
        shown(&apps),
        [app("Finder", Some("com.apple.finder")), app("Mail", Some("com.apple.mail"))]
    );
    assert!(running_apps(true, b"\n", b"").unwrap().is_empty());
}

#[test]
fn failed_answer_is_its_error_text() {
    let error = running_apps(false, b"Finder|x", b"execution error: not allowed (-1743)\n");
    assert_eq!(error.unwrap_err(), "execution error: not allowed (-1743)\n");
    let garbled = running_apps(false, b"", &[b'n', b'o', 0xff]);
    assert_eq!(garbled.unwrap_err(), "no\u{fffd}");
}

#[test]
fn paste_script_by_name() {
    assert_eq!(
        paste_script("hello", "Notes", &None),
        "\n        set the clipboard to \"hello\"\n        tell application \"Notes\" to activate\n        delay 0.3\n        tell application \"System Events\"\n            keystroke \"v\" using command down\n        end tell\n        "
    );
}

#[test]
fn paste_script_by_bundle() {
    assert_eq!(
        paste_script("hello", "Notes", &Some("com.apple.Notes".to_string())),
        "\n        set the clipboard to \"hello\"\n        tell application id \"com.apple.Notes\" to activate\n        delay 0.3\n        tell application \"System Events\"\n            keystroke \"v\" using command down\n        end tell\n        "
    );
}

#[test]
fn paste_script_escapes_what_it_quotes() {
    let script = paste_script("a\"b\\c\n", "My \"App\"\\", &None);
    assert!(script.contains("set the clipboard to \"a\\\"b\\\\c\n\"\n"));
    assert!(script.contains("tell application \"My \\\"App\\\"\\\\\" to activate"));
    let by_id = paste_script("x", "ignored \"name\"", &Some("a\"b\\c".to_string()));
    assert!(by_id.contains("tell application id \"a\\\"b\\c\" to activate"));
    assert!(!by_id.contains("ignored"));
}

#[test]
fn paste_result_tells_how_it_went() {
    let ok = paste_result(true, b"warning on stderr");
    assert!(ok.success);
    assert_eq!(ok.error, None);
    let failed = paste_result(false, b"not allowed");
    assert!(!failed.success);
    assert_eq!(failed.error.as_deref(), Some("not allowed"));
    let silent = paste_result(false, b"");
    assert_eq!(silent.error.as_deref(), Some(""));
}

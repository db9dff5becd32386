//! Pasting text into another application: the list of applications that the
//! system's script runner reports, and the script that does the pasting.

use vstd::prelude::*;
use crate::split::{pieces, split};
use crate::text::{
    backslashes_escaped, decode_lossy, escape_backslashes, escape_quotes, lossy_text,
    quotes_escaped, trim, trimmed,
};

verus! {

/// How a paste went.
#[derive(Debug)]
pub struct PasteResult {
    pub success: bool,
    pub error: Option<String>,
}

/// Mathematical form of a [`PasteResult`].
pub struct PasteResultView {
    pub success: bool,
    pub error: Option<Seq<char>>,
}

impl DeepView for PasteResult {
    type V = PasteResultView;

    open spec fn deep_view(&self) -> PasteResultView {
        PasteResultView { success: self.success, error: self.error.deep_view() }
    }
}

/// A running application.
#[derive(Debug)]
pub struct AppInfo {
    pub name: String,
    pub bundle_id: Option<String>,
}

/// Mathematical form of an [`AppInfo`].
pub struct AppInfoView {
    pub name: Seq<char>,
    pub bundle_id: Option<Seq<char>>,
}

impl DeepView for AppInfo {
    type V = AppInfoView;

    open spec fn deep_view(&self) -> AppInfoView {
        AppInfoView { name: self.name@, bundle_id: self.bundle_id.deep_view() }
    }
}

/// The separator between two applications of a report.
pub open spec fn item_separator() -> Seq<char> {
    seq![',', ' ']
}

/// The separator between the name of an application and its bundle.
pub open spec fn field_separator() -> Seq<char> {
    seq!['|']
}

/// The application that one item of a report names: what stands before the
/// first bar is its name, and what follows up to the next bar its bundle,
/// unless that is empty.
pub open spec fn app_of(item: Seq<char>) -> AppInfoView {
    let fields = pieces(item, field_separator());
    AppInfoView {
        name: fields[0],
        bundle_id: if fields.len() > 1 && fields[1].len() > 0 {
            Some(fields[1])
        } else {
            None
        },
    }
}

/// The applications that `items` name: one for each item that is not empty
/// and has a name.
pub open spec fn apps_of(items: Seq<Seq<char>>) -> Seq<AppInfoView>
    decreases items.len(),
{
    if items.len() == 0 {
        Seq::empty()
    } else {
        let before = apps_of(items.drop_last());
        let item = items.last();
        if item.len() > 0 && app_of(item).name.len() > 0 {
            before.push(app_of(item))
        } else {
            before
        }
    }
}

/// The applications that a report lists. A report reads
/// `name|bundle, name|bundle, ...`.
pub open spec fn listed_apps(report: Seq<char>) -> Seq<AppInfoView> {
    apps_of(pieces(report, item_separator()))
}

/// A piece of a text is never missing: splitting gives at least one.
proof fn lemma_pieces_nonempty(s: Seq<char>, sep: Seq<char>)
    ensures
        pieces(s, sep).len() > 0,
{
}

/// Reads the list of applications out of a report that has been trimmed.
pub fn parse_app_list(report: &str) -> (apps: Vec<AppInfo>)
    ensures
        apps.deep_view() == listed_apps(report@),
{
    proof {
        reveal_strlit(", ");
        assert(", "@ =~= item_separator());
        reveal_strlit("|");
        assert("|"@ =~= field_separator());
    }
    let items = split(report, ", ");
    let mut apps: Vec<AppInfo> = Vec::new();
    let ghost texts = items.deep_view();
    for i in 0..items.len()
        invariant
            "|"@ == field_separator(),
            texts == items.deep_view(),
            apps.deep_view() == apps_of(texts.take(i as int)),
    {
        proof {
            assert(texts.take(i + 1).drop_last() == texts.take(i as int));
            assert(texts.take(i + 1).last() == items[i as int]@);
        }
        let item = items[i].as_str();
        if !item.is_empty() {
            let mut fields = split(item, "|");
            proof {
                lemma_pieces_nonempty(item@, field_separator());
                assert(fields.deep_view().len() == fields.len());
                assert(fields.deep_view()[0] == fields[0]@);
                if fields.len() > 1 {
                    assert(fields.deep_view()[1] == fields[1]@);
                }
            }
            let bundle_id = if fields.len() > 1 && !fields[1].as_str().is_empty() {
                Some(fields[1].clone())
            } else {
                None
            };
            let name = fields[0].clone();
            if !name.as_str().is_empty() {
                let app = AppInfo { name, bundle_id };
                let ghost before = apps.deep_view();
                apps.push(app);
                proof {
                    assert(apps.deep_view() =~= before.push(app.deep_view()));
                }
            }
        }
    }
    proof {
        assert(texts.take(items.len() as int) == texts);
    }
    apps
}

/// What the script runner's answer to the request for the running
/// applications amounts to: the applications listed on its standard output
/// where it succeeded, and what it wrote to its standard error where it did
/// not.
pub fn running_apps(succeeded: bool, stdout: &[u8], stderr: &[u8]) -> (result: Result<
    Vec<AppInfo>,
    String,
>)
    ensures
        succeeded ==> result is Ok && result->Ok_0.deep_view() == listed_apps(
            trimmed(lossy_text(stdout@)),
        ),
        !succeeded ==> result is Err && result->Err_0@ == lossy_text(stderr@),
{
    if !succeeded {
        return Err(decode_lossy(stderr));
    }
    let report = decode_lossy(stdout);
    Ok(parse_app_list(trim(report.as_str())))
}

/// A text as it stands between the quotes of a script: every backslash
/// doubled, then a backslash put before every quote.
pub open spec fn script_text(s: Seq<char>) -> Seq<char> {
    quotes_escaped(backslashes_escaped(s))
}

/// The command that brings the target to the front: by its bundle where that
/// is known, by its name otherwise.
pub open spec fn activate_command(target_app: Seq<char>, bundle_id: Option<Seq<char>>) -> Seq<
    char,
> {
    match bundle_id {
        Some(id) => "tell application id \""@ + quotes_escaped(id) + "\" to activate"@,
        None => "tell application \""@ + script_text(target_app) + "\" to activate"@,
    }
}

/// The script that puts `text` on the clipboard, brings the target to the
/// front and presses the keys that paste.
pub open spec fn paste_script_text(
    text: Seq<char>,
    target_app: Seq<char>,
    bundle_id: Option<Seq<char>>,
) -> Seq<char> {
    "\n        set the clipboard to \""@ + script_text(text) + "\"\n        "@ + activate_command(
        target_app,
        bundle_id,
    )
        + "\n        delay 0.3\n        tell application \"System Events\"\n            keystroke \"v\" using command down\n        end tell\n        "@
}

fn escape_text(s: &str) -> (out: String)
    ensures
        out@ == script_text(s@),
{
    let doubled = escape_backslashes(s);
    escape_quotes(doubled.as_str())
}

/// Builds the script that pastes `text` into the target application.
pub fn paste_script(text: &str, target_app: &str, bundle_id: &Option<String>) -> (script: String)
    ensures
        script@ == paste_script_text(text@, target_app@, bundle_id.deep_view()),
{
    let mut script = String::from_str("\n        set the clipboard to \"");
    let escaped_text = escape_text(text);
    script.append(escaped_text.as_str());
    script.append("\"\n        ");
    let ghost head = script@;
    let mut activate = String::new();
    match bundle_id {
        Some(id) => {
            activate.append("tell application id \"");
            let escaped_id = escape_quotes(id.as_str());
            activate.append(escaped_id.as_str());
            activate.append("\" to activate");
        },
        None => {
            activate.append("tell application \"");
            let escaped_app = escape_text(target_app);
            activate.append(escaped_app.as_str());
            activate.append("\" to activate");
        },
    }
    proof {
        assert(activate@ =~= activate_command(target_app@, bundle_id.deep_view()));
    }
    script.append(activate.as_str());
    script.append(
        "\n        delay 0.3\n        tell application \"System Events\"\n            keystroke \"v\" using command down\n        end tell\n        ",
    );
    script
}

/// What a paste amounts to, given whether the script runner succeeded and
/// what it wrote to its standard error.
pub fn paste_result(succeeded: bool, stderr: &[u8]) -> (result: PasteResult)
    ensures
        result.success == succeeded,
        succeeded ==> result.error is None,
        !succeeded ==> result.error is Some && result.error->0@ == lossy_text(stderr@),
{
    if succeeded {
        PasteResult { success: true, error: None }
    } else {
        PasteResult { success: false, error: Some(decode_lossy(stderr)) }
    }
}

} // verus!

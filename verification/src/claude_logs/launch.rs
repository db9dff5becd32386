//! Starting and resuming the assistant in a terminal window: the script that
//! the host hands to the system's script runner.

use vstd::prelude::*;
use crate::text::{backslashes_escaped, escape_backslashes, escape_quotes, quotes_escaped};

verus! {

/// What is told of a session that has ended.
#[derive(Debug)]
pub struct ClaudeSessionFinishedPayload {
    pub session_id: String,
    pub success: bool,
    pub exit_code: Option<i32>,
}

/// What it takes to start the assistant: the name under which the session is
/// tracked, and the script that opens the terminal.
#[derive(Debug)]
pub struct LaunchPlan {
    pub session_id: String,
    pub script: String,
}

/// A name as it stands in a shell command: quotes escaped first, then every
/// backslash doubled, those before the quotes too.
pub open spec fn shell_name(s: Seq<char>) -> Seq<char> {
    backslashes_escaped(quotes_escaped(s))
}

/// The shell command that starts `assistant` in `cwd`, with `prompt` where
/// there is one. Of the prompt the backslashes are doubled first and the
/// quotes escaped after.
pub open spec fn launch_command(
    assistant: Seq<char>,
    cwd: Seq<char>,
    prompt: Option<Seq<char>>,
) -> Seq<char> {
    match prompt {
        Some(p) => "cd \""@ + shell_name(cwd) + "\" && "@ + assistant + " \""@ + quotes_escaped(
            backslashes_escaped(p),
        ) + "\""@,
        None => "cd \""@ + shell_name(cwd) + "\" && "@ + assistant,
    }
}

/// The shell command that has `assistant` resume session `session_id` in
/// `cwd`.
pub open spec fn resume_command(
    assistant: Seq<char>,
    session_id: Seq<char>,
    cwd: Seq<char>,
) -> Seq<char> {
    "cd \""@ + shell_name(cwd) + "\" && "@ + assistant + " --resume \""@ + shell_name(session_id)
        + "\""@
}

/// The script that opens a terminal window and runs `command` in it.
pub open spec fn terminal_script(command: Seq<char>) -> Seq<char> {
    "tell application \"Terminal\"\n            activate\n            do script \"source ~/.zshrc; "@
        + quotes_escaped(command) + "\"\n        end tell"@
}

fn escape_name(s: &str) -> (out: String)
    ensures
        out@ == shell_name(s@),
{
    let quoted = escape_quotes(s);
    escape_backslashes(quoted.as_str())
}

/// Wraps a shell command into the script that runs it in a new terminal
/// window.
pub fn wrap_in_terminal(command: &str) -> (script: String)
    ensures
        script@ == terminal_script(command@),
{
    let mut script = String::from_str(
        "tell application \"Terminal\"\n            activate\n            do script \"source ~/.zshrc; ",
    );
    let escaped = escape_quotes(command);
    script.append(escaped.as_str());
    script.append("\"\n        end tell");
    script
}

/// The script that starts `assistant`, the name of its executable, in `cwd`.
pub fn launch_script(assistant: &str, cwd: &str, prompt: &Option<String>) -> (script: String)
    ensures
        script@ == terminal_script(launch_command(assistant@, cwd@, prompt.deep_view())),
{
    let mut command = String::from_str("cd \"");
    let dir = escape_name(cwd);
    command.append(dir.as_str());
    command.append("\" && ");
    command.append(assistant);
    match prompt {
        Some(p) => {
            command.append(" \"");
            let doubled = escape_backslashes(p.as_str());
            let escaped = escape_quotes(doubled.as_str());
            command.append(escaped.as_str());
            command.append("\"");
        },
        None => {},
    }
    wrap_in_terminal(command.as_str())
}

/// The script that has `assistant` resume session `session_id` in `cwd`.
pub fn resume_script(assistant: &str, session_id: &str, cwd: &str) -> (script: String)
    ensures
        script@ == terminal_script(resume_command(assistant@, session_id@, cwd@)),
{
    let mut command = String::from_str("cd \"");
    let dir = escape_name(cwd);
    command.append(dir.as_str());
    command.append("\" && ");
    command.append(assistant);
    command.append(" --resume \"");
    let id = escape_name(session_id);
    command.append(id.as_str());
    command.append("\"");
    wrap_in_terminal(command.as_str())
}

/// `uuid::Uuid::new_v4`, written out by its `Display`: a random identifier in
/// the hyphenated form, which is 36 characters long. Nothing else is promised
/// of it.
#[verifier::external_body]
fn random_session_id() -> (id: String)
    ensures
        id@.len() == 36,
{
    uuid::Uuid::new_v4().to_string()
}

/// Plans the start of `assistant` in `cwd`: a fresh name for the session, and
/// the script to run.
pub fn plan_launch(assistant: &str, cwd: &str, prompt: &Option<String>) -> (plan: LaunchPlan)
    ensures
        plan.session_id@.len() == 36,
        plan.script@ == terminal_script(launch_command(assistant@, cwd@, prompt.deep_view())),
{
    LaunchPlan {
        session_id: random_session_id(),
        script: launch_script(assistant, cwd, prompt),
    }
}

} // verus!

//! Sessions: the summary of a session file and the conversation it holds.
//!
//! The host reads a session file, parses each line and hands over the lines
//! in their order, `None` standing for a line that is no entry.

use vstd::prelude::*;
use crate::claude_logs::entry::{
    extract_text_content, text_content, ClaudeLogEntry, ClaudeLogEntryView,
};
use crate::claude_logs::order::{
    lemma_newest_first_of_views, newest_first, sort_newest_first, Stamp, Stamped,
};
use crate::text::same_text;

verus! {

/// One message of a conversation, ready for display.
#[derive(Debug)]
pub struct ConversationMessage {
    pub role: String,
    pub content: String,
    pub timestamp: String,
}

/// Mathematical form of a [`ConversationMessage`].
pub struct ConversationMessageView {
    pub role: Seq<char>,
    pub content: Seq<char>,
    pub timestamp: Seq<char>,
}

impl DeepView for ConversationMessage {
    type V = ConversationMessageView;

    open spec fn deep_view(&self) -> ConversationMessageView {
        ConversationMessageView {
            role: self.role@,
            content: self.content@,
            timestamp: self.timestamp@,
        }
    }
}

/// What is listed of one session.
#[derive(Debug)]
pub struct SessionSummary {
    pub session_id: String,
    pub project_path: String,
    pub cwd: Option<String>,
    pub git_branch: Option<String>,
    pub first_message: Option<String>,
    pub timestamp: Option<String>,
    pub message_count: usize,
}

/// Mathematical form of a [`SessionSummary`].
pub struct SessionSummaryView {
    pub session_id: Seq<char>,
    pub project_path: Seq<char>,
    pub cwd: Option<Seq<char>>,
    pub git_branch: Option<Seq<char>>,
    pub first_message: Option<Seq<char>>,
    pub timestamp: Option<Seq<char>>,
    pub message_count: usize,
}

impl DeepView for SessionSummary {
    type V = SessionSummaryView;

    open spec fn deep_view(&self) -> SessionSummaryView {
        SessionSummaryView {
            session_id: self.session_id@,
            project_path: self.project_path@,
            cwd: self.cwd.deep_view(),
            git_branch: self.git_branch.deep_view(),
            first_message: self.first_message.deep_view(),
            timestamp: self.timestamp.deep_view(),
            message_count: self.message_count,
        }
    }
}

impl Stamp for SessionSummary {
    open spec fn stamp(&self) -> Option<Seq<char>> {
        self.timestamp.deep_view()
    }
}

impl Stamp for SessionSummaryView {
    open spec fn stamp(&self) -> Option<Seq<char>> {
        self.timestamp
    }
}

impl Stamped for SessionSummary {
    fn stamp_ref(&self) -> (s: &Option<String>) {
        &self.timestamp
    }
}

/// One session file: the name it goes by and its lines.
#[derive(Debug)]
pub struct SessionFile {
    pub session_id: String,
    pub lines: Vec<Option<ClaudeLogEntry>>,
}

/// Mathematical form of a [`SessionFile`].
pub struct SessionFileView {
    pub session_id: Seq<char>,
    pub lines: Seq<Option<ClaudeLogEntryView>>,
}

impl DeepView for SessionFile {
    type V = SessionFileView;

    open spec fn deep_view(&self) -> SessionFileView {
        SessionFileView { session_id: self.session_id@, lines: self.lines.deep_view() }
    }
}

/// The number of lines at the head of a file that a summary is drawn from.
pub const SUMMARY_LINES: usize = 10;

pub open spec fn user_kind() -> Seq<char> {
    seq!['u', 's', 'e', 'r']
}

pub open spec fn assistant_kind() -> Seq<char> {
    seq!['a', 's', 's', 'i', 's', 't', 'a', 'n', 't']
}

/// Whether an entry is a turn of the conversation.
pub open spec fn is_turn(entry: ClaudeLogEntryView) -> bool {
    entry.entry_type == Some(user_kind()) || entry.entry_type == Some(assistant_kind())
}

/// Whether the file belongs to a side chain: its first line says so.
pub open spec fn starts_side_chain(lines: Seq<Option<ClaudeLogEntryView>>) -> bool {
    lines.len() > 0 && lines[0] is Some && lines[0]->0.is_sidechain == Some(true)
}

/// The number of turns among `lines`.
pub open spec fn turn_count(lines: Seq<Option<ClaudeLogEntryView>>) -> nat
    decreases lines.len(),
{
    if lines.len() == 0 {
        0
    } else {
        let turn: nat = match lines.last() {
            Some(entry) if is_turn(entry) => 1,
            _ => 0,
        };
        turn_count(lines.drop_last()) + turn
    }
}

/// What the head of a file tells of a session.
pub struct Headline {
    pub cwd: Option<Seq<char>>,
    pub first_message: Option<Seq<char>>,
    pub timestamp: Option<Seq<char>>,
    pub git_branch: Option<Seq<char>>,
}

/// The headline after one more entry. The working directory is that of the
/// first entry that names one. Every entry of the user, up to the first one
/// whose message has a text, sets the time stamp and the branch.
pub open spec fn headline_with(h: Headline, entry: ClaudeLogEntryView) -> Headline {
    let cwd = if h.cwd is None {
        entry.cwd
    } else {
        h.cwd
    };
    if entry.entry_type == Some(user_kind()) && h.first_message is None {
        Headline {
            cwd,
            first_message: match entry.message {
                Some(m) => text_content(m.content),
                None => None,
            },
            timestamp: entry.timestamp,
            git_branch: entry.git_branch,
        }
    } else {
        Headline { cwd, ..h }
    }
}

/// The headline that `lines` give.
pub open spec fn headline(lines: Seq<Option<ClaudeLogEntryView>>) -> Headline
    decreases lines.len(),
{
    if lines.len() == 0 {
        Headline { cwd: None, first_message: None, timestamp: None, git_branch: None }
    } else {
        let before = headline(lines.drop_last());
        match lines.last() {
            Some(entry) => headline_with(before, entry),
            None => before,
        }
    }
}

/// The lines that a summary looks at for its headline.
pub open spec fn head(lines: Seq<Option<ClaudeLogEntryView>>) -> Seq<Option<ClaudeLogEntryView>> {
    if lines.len() <= SUMMARY_LINES {
        lines
    } else {
        lines.take(SUMMARY_LINES as int)
    }
}

/// The summary of a session file, unless it belongs to a side chain.
pub open spec fn summary_of(
    session_id: Seq<char>,
    project_path: Seq<char>,
    lines: Seq<Option<ClaudeLogEntryView>>,
) -> Option<SessionSummaryView> {
    if starts_side_chain(lines) {
        None
    } else {
        let h = headline(head(lines));
        Some(
            SessionSummaryView {
                session_id,
                project_path,
                cwd: h.cwd,
                git_branch: h.git_branch,
                first_message: h.first_message,
                timestamp: h.timestamp,
                message_count: turn_count(lines) as usize,
            },
        )
    }
}

/// The message that an entry shows as, if it shows: a turn with a message
/// that has a text. The role is the message's own, or else the kind of the
/// entry; a missing time stamp shows as the empty string.
pub open spec fn message_of(entry: ClaudeLogEntryView) -> Option<ConversationMessageView> {
    if is_turn(entry) && entry.message is Some && text_content(entry.message->0.content) is Some {
        Some(
            ConversationMessageView {
                role: match entry.message->0.role {
                    Some(role) => role,
                    None => entry.entry_type->0,
                },
                content: text_content(entry.message->0.content)->0,
                timestamp: match entry.timestamp {
                    Some(t) => t,
                    None => Seq::empty(),
                },
            },
        )
    } else {
        None
    }
}

/// The messages that `lines` show, in their order.
pub open spec fn messages_of(lines: Seq<Option<ClaudeLogEntryView>>) -> Seq<
    ConversationMessageView,
>
    decreases lines.len(),
{
    if lines.len() == 0 {
        Seq::empty()
    } else {
        let before = messages_of(lines.drop_last());
        match lines.last() {
            Some(entry) => match message_of(entry) {
                Some(m) => before.push(m),
                None => before,
            },
            None => before,
        }
    }
}

/// What is said of a session that cannot be read because it is a side chain.
pub open spec fn side_chain_refusal(session_id: Seq<char>) -> Seq<char> {
    "Session "@ + session_id + " is a sidechain session and cannot be resumed"@
}

fn copy_text(text: &Option<String>) -> (copy: Option<String>)
    ensures
        copy.deep_view() == text.deep_view(),
{
    match text {
        Some(t) => Some(t.clone()),
        None => None,
    }
}

fn is_kind(entry_type: &Option<String>, kind: &str) -> (yes: bool)
    ensures
        yes == (entry_type.deep_view() == Some(kind@)),
{
    match entry_type {
        Some(t) => same_text(t.as_str(), kind),
        None => false,
    }
}

fn is_user(entry: &ClaudeLogEntry) -> (yes: bool)
    ensures
        yes == (entry.deep_view().entry_type == Some(user_kind())),
{
    proof {
        reveal_strlit("user");
        assert("user"@ =~= user_kind());
    }
    is_kind(&entry.entry_type, "user")
}

fn entry_is_turn(entry: &ClaudeLogEntry) -> (yes: bool)
    ensures
        yes == is_turn(entry.deep_view()),
{
    proof {
        reveal_strlit("assistant");
        assert("assistant"@ =~= assistant_kind());
    }
    is_user(entry) || is_kind(&entry.entry_type, "assistant")
}

fn file_starts_side_chain(lines: &Vec<Option<ClaudeLogEntry>>) -> (yes: bool)
    ensures
        yes == starts_side_chain(lines.deep_view()),
{
    if lines.len() == 0 {
        return false;
    }
    match &lines[0] {
        Some(entry) => match entry.is_sidechain {
            Some(true) => true,
            _ => false,
        },
        None => false,
    }
}

/// Counts the turns of a conversation.
pub fn count_turns(lines: &Vec<Option<ClaudeLogEntry>>) -> (count: usize)
    ensures
        count == turn_count(lines.deep_view()),
{
    let mut count: usize = 0;
    let ghost views = lines.deep_view();
    for i in 0..lines.len()
        invariant
            views == lines.deep_view(),
            count == turn_count(views.take(i as int)),
            count <= i,
    {
        proof {
            assert(views.take(i + 1).drop_last() == views.take(i as int));
            assert(views.take(i + 1).last() == lines[i as int].deep_view());
        }
        match &lines[i] {
            Some(entry) => {
                if entry_is_turn(entry) {
                    count += 1;
                }
            },
            None => {},
        }
    }
    proof {
        assert(views.take(lines.len() as int) == views);
    }
    count
}

/// Draws the summary of one session from its lines: the headline from the
/// first ten, the number of messages from all of them. A file that belongs to
/// a side chain has no summary.
pub fn summarize_session(
    session_id: String,
    project_path: String,
    lines: &Vec<Option<ClaudeLogEntry>>,
) -> (summary: Option<SessionSummary>)
    ensures
        summary.deep_view() == summary_of(session_id@, project_path@, lines.deep_view()),
{
    if file_starts_side_chain(lines) {
        return None;
    }
    let mut cwd: Option<String> = None;
    let mut first_message: Option<String> = None;
    let mut timestamp: Option<String> = None;
    let mut git_branch: Option<String> = None;
    let n = if lines.len() <= SUMMARY_LINES {
        lines.len()
    } else {
        SUMMARY_LINES
    };
    let ghost views = lines.deep_view();
    proof {
        assert(head(views) == views.take(n as int));
    }
    for i in 0..n
        invariant
            n <= lines.len(),
            views == lines.deep_view(),
            headline(views.take(i as int)) == (Headline {
                cwd: cwd.deep_view(),
                first_message: first_message.deep_view(),
                timestamp: timestamp.deep_view(),
                git_branch: git_branch.deep_view(),
            }),
    {
        proof {
            assert(views.take(i + 1).drop_last() == views.take(i as int));
            assert(views.take(i + 1).last() == lines[i as int].deep_view());
        }
        match &lines[i] {
            Some(entry) => {
                if cwd.is_none() {
                    cwd = copy_text(&entry.cwd);
                }
                if is_user(entry) && first_message.is_none() {
                    match &entry.message {
                        Some(m) => {
                            first_message = extract_text_content(&m.content);
                        },
                        None => {},
                    }
                    timestamp = copy_text(&entry.timestamp);
                    git_branch = copy_text(&entry.git_branch);
                }
            },
            None => {},
        }
    }
    let message_count = count_turns(lines);
    Some(
        SessionSummary {
            session_id,
            project_path,
            cwd,
            git_branch,
            first_message,
            timestamp,
            message_count,
        },
    )
}

/// The summaries of `files`, side chains left out, in the order of the files.
pub open spec fn summaries_of(project_path: Seq<char>, files: Seq<SessionFileView>) -> Seq<
    SessionSummaryView,
>
    decreases files.len(),
{
    if files.len() == 0 {
        Seq::empty()
    } else {
        let before = summaries_of(project_path, files.drop_last());
        match summary_of(files.last().session_id, project_path, files.last().lines) {
            Some(s) => before.push(s),
            None => before,
        }
    }
}

/// Lists the sessions of a project: one summary for each file that is no side
/// chain, newest first.
pub fn list_sessions(project_path: &str, files: &Vec<SessionFile>) -> (sessions: Vec<
    SessionSummary,
>)
    ensures
        sessions.deep_view() == newest_first(summaries_of(project_path@, files.deep_view())),
{
    let mut found: Vec<SessionSummary> = Vec::new();
    let ghost views = files.deep_view();
    for i in 0..files.len()
        invariant
            views == files.deep_view(),
            found.deep_view() == summaries_of(project_path@, views.take(i as int)),
    {
        proof {
            assert(views.take(i + 1).drop_last() == views.take(i as int));
            assert(views.take(i + 1).last() == files[i as int].deep_view());
        }
        let file = &files[i];
        let summary = summarize_session(
            file.session_id.clone(),
            String::from_str(project_path),
            &file.lines,
        );
        match summary {
            Some(summary) => {
                let ghost before = found.deep_view();
                found.push(summary);
                proof {
                    assert(found.deep_view() =~= before.push(summary.deep_view()));
                }
            },
            None => {},
        }
    }
    proof {
        assert(views.take(files.len() as int) == views);
        lemma_newest_first_of_views(found@);
        assert(found@.map_values(|s: SessionSummary| s.deep_view()) =~= found.deep_view());
    }
    let sessions = sort_newest_first(found);
    proof {
        assert(sessions@.map_values(|s: SessionSummary| s.deep_view()) =~= sessions.deep_view());
    }
    sessions
}

/// The newest session of a listing: its first item.
pub fn latest_session(sessions: Vec<SessionSummary>) -> (latest: Option<SessionSummary>)
    ensures
        sessions@.len() == 0 ==> latest is None,
        sessions@.len() > 0 ==> latest == Some(sessions@[0]),
{
    let mut sessions = sessions;
    if sessions.len() == 0 {
        None
    } else {
        Some(sessions.remove(0))
    }
}

/// Reads the conversation of a session out of its lines. A session that
/// belongs to a side chain is refused.
pub fn read_conversation(session_id: &str, lines: &Vec<Option<ClaudeLogEntry>>) -> (result: Result<
    Vec<ConversationMessage>,
    String,
>)
    ensures
        starts_side_chain(lines.deep_view()) ==> result is Err && result->Err_0@
            == side_chain_refusal(session_id@),
        !starts_side_chain(lines.deep_view()) ==> result is Ok && result->Ok_0.deep_view()
            == messages_of(lines.deep_view()),
{
    if file_starts_side_chain(lines) {
        let mut refusal = String::from_str("Session ");
        refusal.append(session_id);
        refusal.append(" is a sidechain session and cannot be resumed");
        return Err(refusal);
    }
    let mut messages: Vec<ConversationMessage> = Vec::new();
    let ghost views = lines.deep_view();
    for i in 0..lines.len()
        invariant
            views == lines.deep_view(),
            messages.deep_view() == messages_of(views.take(i as int)),
    {
        proof {
            assert(views.take(i + 1).drop_last() == views.take(i as int));
            assert(views.take(i + 1).last() == lines[i as int].deep_view());
        }
        match &lines[i] {
            Some(entry) => {
                if entry_is_turn(entry) {
                    match &entry.message {
                        Some(m) => match extract_text_content(&m.content) {
                            Some(text) => {
                                let role = match &m.role {
                                    Some(role) => role.clone(),
                                    None => match &entry.entry_type {
                                        Some(kind) => kind.clone(),
                                        None => String::from_str("unknown"),
                                    },
                                };
                                let timestamp = match &entry.timestamp {
                                    Some(t) => t.clone(),
                                    None => String::new(),
                                };
                                let message = ConversationMessage {
                                    role,
                                    content: text,
                                    timestamp,
                                };
                                let ghost before = messages.deep_view();
                                let ghost shown = message.deep_view();
                                messages.push(message);
                                proof {
                                    assert(messages.deep_view() =~= before.push(shown));
                                }
                            },
                            None => {},
                        },
                        None => {},
                    }
                }
            },
            None => {},
        }
    }
    proof {
        assert(views.take(lines.len() as int) == views);
    }
    Ok(messages)
}

} // verus!

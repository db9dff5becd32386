//! One line of a session file, and the text that a message carries.

use vstd::prelude::*;
use crate::text::{joined, same_text};

verus! {

/// One block of a message whose content is a list. `kind` is the block's
/// `type` and `text` its `text`, each where the block is an object that holds
/// a string under that key.
#[derive(Debug)]
pub struct ContentBlock {
    pub kind: Option<String>,
    pub text: Option<String>,
}

/// Mathematical form of a [`ContentBlock`].
pub struct ContentBlockView {
    pub kind: Option<Seq<char>>,
    pub text: Option<Seq<char>>,
}

impl DeepView for ContentBlock {
    type V = ContentBlockView;

    open spec fn deep_view(&self) -> ContentBlockView {
        ContentBlockView { kind: self.kind.deep_view(), text: self.text.deep_view() }
    }
}

/// The content of a message: plain text, a list of blocks, or anything else.
#[derive(Debug)]
pub enum MessageContent {
    Text(String),
    Blocks(Vec<ContentBlock>),
    Other,
}

/// Mathematical form of a [`MessageContent`].
pub enum MessageContentView {
    Text(Seq<char>),
    Blocks(Seq<ContentBlockView>),
    Other,
}

impl DeepView for MessageContent {
    type V = MessageContentView;

    open spec fn deep_view(&self) -> MessageContentView {
        match self {
            MessageContent::Text(s) => MessageContentView::Text(s@),
            MessageContent::Blocks(blocks) => MessageContentView::Blocks(blocks.deep_view()),
            MessageContent::Other => MessageContentView::Other,
        }
    }
}

/// The message of a log entry.
#[derive(Debug)]
pub struct ClaudeMessage {
    pub role: Option<String>,
    pub content: Option<MessageContent>,
}

/// Mathematical form of a [`ClaudeMessage`].
pub struct ClaudeMessageView {
    pub role: Option<Seq<char>>,
    pub content: Option<MessageContentView>,
}

impl DeepView for ClaudeMessage {
    type V = ClaudeMessageView;

    open spec fn deep_view(&self) -> ClaudeMessageView {
        ClaudeMessageView { role: self.role.deep_view(), content: self.content.deep_view() }
    }
}

/// One entry of a session log.
#[derive(Debug)]
pub struct ClaudeLogEntry {
    pub entry_type: Option<String>,
    pub session_id: Option<String>,
    pub message: Option<ClaudeMessage>,
    pub timestamp: Option<String>,
    pub cwd: Option<String>,
    pub git_branch: Option<String>,
    pub uuid: Option<String>,
    /// Sessions of sub-agents are side chains; they cannot be resumed.
    pub is_sidechain: Option<bool>,
}

/// Mathematical form of a [`ClaudeLogEntry`].
pub struct ClaudeLogEntryView {
    pub entry_type: Option<Seq<char>>,
    pub session_id: Option<Seq<char>>,
    pub message: Option<ClaudeMessageView>,
    pub timestamp: Option<Seq<char>>,
    pub cwd: Option<Seq<char>>,
    pub git_branch: Option<Seq<char>>,
    pub uuid: Option<Seq<char>>,
    pub is_sidechain: Option<bool>,
}

impl DeepView for ClaudeLogEntry {
    type V = ClaudeLogEntryView;

    open spec fn deep_view(&self) -> ClaudeLogEntryView {
        ClaudeLogEntryView {
            entry_type: self.entry_type.deep_view(),
            session_id: self.session_id.deep_view(),
            message: self.message.deep_view(),
            timestamp: self.timestamp.deep_view(),
            cwd: self.cwd.deep_view(),
            git_branch: self.git_branch.deep_view(),
            uuid: self.uuid.deep_view(),
            is_sidechain: self.is_sidechain,
        }
    }
}

/// The kind of block that carries text.
pub open spec fn text_kind() -> Seq<char> {
    seq!['t', 'e', 'x', 't']
}

/// The text of one block: that of a block of kind `text`, if it has any.
pub open spec fn block_text(block: ContentBlockView) -> Option<Seq<char>> {
    if block.kind == Some(text_kind()) {
        block.text
    } else {
        None
    }
}

/// The texts of the blocks that carry one, in their order.
pub open spec fn block_texts(blocks: Seq<ContentBlockView>) -> Seq<Seq<char>>
    decreases blocks.len(),
{
    if blocks.len() == 0 {
        Seq::empty()
    } else {
        let before = block_texts(blocks.drop_last());
        match block_text(blocks.last()) {
            Some(text) => before.push(text),
            None => before,
        }
    }
}

/// The text of a message: the content itself where it is a string; the texts
/// of its blocks, one per line, where it is a list with at least one text.
pub open spec fn text_content(content: Option<MessageContentView>) -> Option<Seq<char>> {
    match content {
        Some(MessageContentView::Text(s)) => Some(s),
        Some(MessageContentView::Blocks(blocks)) => if block_texts(blocks).len() == 0 {
            None
        } else {
            Some(joined(block_texts(blocks), seq!['\n']))
        },
        _ => None,
    }
}

/// Whether `kind` names a block of text.
fn is_text_kind(kind: &Option<String>) -> (yes: bool)
    ensures
        yes == (kind.deep_view() == Some(text_kind())),
{
    match kind {
        Some(k) => {
            proof {
                reveal_strlit("text");
                assert("text"@ =~= text_kind());
            }
            same_text(k.as_str(), "text")
        },
        None => false,
    }
}

/// Extracts the text of a message, whether its content is a string or a list
/// of blocks.
pub fn extract_text_content(content: &Option<MessageContent>) -> (text: Option<String>)
    ensures
        text.deep_view() == text_content(content.deep_view()),
{
    match content {
        Some(MessageContent::Text(s)) => Some(s.clone()),
        Some(MessageContent::Blocks(blocks)) => {
            let mut out = String::new();
            let mut any = false;
            let ghost views = blocks.deep_view();
            for i in 0..blocks.len()
                invariant
                    views == blocks.deep_view(),
                    any == (block_texts(views.take(i as int)).len() > 0),
                    any ==> out@ == joined(block_texts(views.take(i as int)), seq!['\n']),
            {
                proof {
                    assert(views.take(i + 1).drop_last() == views.take(i as int));
                    assert(views.take(i + 1).last() == blocks[i as int].deep_view());
                }
                let block = &blocks[i];
                if is_text_kind(&block.kind) {
                    match &block.text {
                        Some(t) => {
                            if any {
                                proof {
                                    reveal_strlit("\n");
                                    assert("\n"@ =~= seq!['\n']);
                                }
                                out.append("\n");
                                out.append(t.as_str());
                            } else {
                                out = t.clone();
                                any = true;
                            }
                            proof {
                                let before = block_texts(views.take(i as int));
                                assert(before.push(t@).drop_last() == before);
                            }
                        },
                        None => {},
                    }
                }
            }
            proof {
                assert(views.take(blocks.len() as int) == views);
            }
            if any {
                Some(out)
            } else {
                None
            }
        },
        _ => None,
    }
}

} // verus!

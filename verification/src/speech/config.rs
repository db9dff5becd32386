//! Settings, states and results of speech recognition.

use vstd::prelude::*;

verus! {

/// What the recognition is doing.
#[derive(Clone, Copy, Debug, PartialEq, Eq, Structural)]
pub enum SpeechRecognitionState {
    /// Stopped.
    Idle,
    Listening,
    Processing,
    Error,
}

impl Default for SpeechRecognitionState {
    fn default() -> (state: SpeechRecognitionState)
        ensures
            state == SpeechRecognitionState::Idle,
    {
        SpeechRecognitionState::Idle
    }
}

/// Settings of the recognition.
#[derive(Debug)]
pub struct SpeechConfig {
    pub enabled: bool,
    /// The language that is listened for, such as `ja-JP`.
    pub language: String,
}

/// Mathematical form of a [`SpeechConfig`].
pub struct SpeechConfigView {
    pub enabled: bool,
    pub language: Seq<char>,
}

impl View for SpeechConfig {
    type V = SpeechConfigView;

    open spec fn view(&self) -> SpeechConfigView {
        SpeechConfigView { enabled: self.enabled, language: self.language@ }
    }
}

/// The language that is listened for unless another is set.
pub open spec fn default_language() -> Seq<char> {
    seq!['j', 'a', '-', 'J', 'P']
}

impl Default for SpeechConfig {
    fn default() -> (config: SpeechConfig)
        ensures
            config@ == (SpeechConfigView { enabled: true, language: default_language() }),
    {
        proof {
            reveal_strlit("ja-JP");
            assert("ja-JP"@ =~= default_language());
        }
        SpeechConfig { enabled: true, language: String::from_str("ja-JP") }
    }
}

impl Clone for SpeechConfig {
    fn clone(&self) -> (copy: SpeechConfig)
        ensures
            copy@ == self@,
    {
        SpeechConfig { enabled: self.enabled, language: self.language.clone() }
    }
}

/// What was recognized.
#[derive(Debug)]
pub struct RecognitionResult {
    pub text: String,
    /// Whether the text is settled, or may still change.
    pub is_final: bool,
}

} // verus!

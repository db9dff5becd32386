//! The manager of speech recognition.
//!
//! The recognizer itself belongs to the host. The manager says what is to be
//! done with it, and takes note of what has been done.

use vstd::prelude::*;
use crate::speech::config::{SpeechConfig, SpeechConfigView, SpeechRecognitionState};

verus! {

/// What it takes to start listening.
#[derive(Debug)]
pub struct StartPlan {
    /// The language to listen for.
    pub language: String,
    /// Whether a recognizer has to be made first.
    pub create_recognizer: bool,
}

/// Mathematical form of a [`StartPlan`].
pub struct StartPlanView {
    pub language: Seq<char>,
    pub create_recognizer: bool,
}

impl View for StartPlan {
    type V = StartPlanView;

    open spec fn view(&self) -> StartPlanView {
        StartPlanView { language: self.language@, create_recognizer: self.create_recognizer }
    }
}

/// Settings and state of the recognition, and whether the host holds a
/// recognizer for the language that is set.
#[derive(Debug)]
pub struct SpeechManager {
    config: SpeechConfig,
    state: SpeechRecognitionState,
    has_recognizer: bool,
}

/// Mathematical form of a [`SpeechManager`].
pub struct SpeechManagerView {
    pub config: SpeechConfigView,
    pub state: SpeechRecognitionState,
    pub has_recognizer: bool,
}

impl View for SpeechManager {
    type V = SpeechManagerView;

    closed spec fn view(&self) -> SpeechManagerView {
        SpeechManagerView {
            config: self.config@,
            state: self.state,
            has_recognizer: self.has_recognizer,
        }
    }
}

/// What a request to start listening is answered with: a refusal while the
/// recognition is listening already, the plan otherwise.
pub open spec fn start_plan(m: SpeechManagerView) -> Result<StartPlanView, Seq<char>> {
    if m.state == SpeechRecognitionState::Listening {
        Err("Already listening"@)
    } else {
        Ok(StartPlanView { language: m.config.language, create_recognizer: !m.has_recognizer })
    }
}

impl SpeechManager {
    /// A manager with the default settings, stopped, without a recognizer.
    pub fn new() -> (manager: SpeechManager)
        ensures
            manager@ == (SpeechManagerView {
                config: SpeechConfigView {
                    enabled: true,
                    language: crate::speech::config::default_language(),
                },
                state: SpeechRecognitionState::Idle,
                has_recognizer: false,
            }),
    {
        SpeechManager {
            config: SpeechConfig::default(),
            state: SpeechRecognitionState::Idle,
            has_recognizer: false,
        }
    }

    /// Plans the start of the recognition.
    pub fn start_recognition(&self) -> (result: Result<StartPlan, String>)
        ensures
            match result {
                Ok(plan) => Ok(plan@),
                Err(e) => Err(e@),
            } == start_plan(self@),
    {
        match self.state {
            SpeechRecognitionState::Listening => Err(String::from_str("Already listening")),
            _ => Ok(
                StartPlan {
                    language: self.config.language.clone(),
                    create_recognizer: !self.has_recognizer,
                },
            ),
        }
    }

    /// Takes note that the host has made a recognizer.
    pub fn recognizer_created(&mut self)
        ensures
            final(self)@ == (SpeechManagerView { has_recognizer: true, ..old(self)@ }),
    {
        self.has_recognizer = true;
    }

    /// Takes note that the recognizer listens, and says which state is to be
    /// announced.
    pub fn started(&mut self) -> (announce: SpeechRecognitionState)
        ensures
            final(self)@ == (SpeechManagerView {
                state: SpeechRecognitionState::Listening,
                ..old(self)@
            }),
            announce == SpeechRecognitionState::Listening,
    {
        self.state = SpeechRecognitionState::Listening;
        SpeechRecognitionState::Listening
    }

    /// Says whether there is a recognizer for the host to stop.
    pub fn stop_recognition(&self) -> (stop_recognizer: bool)
        ensures
            stop_recognizer == self@.has_recognizer,
    {
        self.has_recognizer
    }

    /// Takes note that the recognizer has stopped, or that there was none, and
    /// says which state is to be announced.
    pub fn stopped(&mut self) -> (announce: SpeechRecognitionState)
        ensures
            final(self)@ == (SpeechManagerView {
                state: SpeechRecognitionState::Idle,
                ..old(self)@
            }),
            announce == SpeechRecognitionState::Idle,
    {
        self.state = SpeechRecognitionState::Idle;
        SpeechRecognitionState::Idle
    }

    /// The state of the recognition.
    pub fn get_state(&self) -> (state: SpeechRecognitionState)
        ensures
            state == self@.state,
    {
        self.state
    }

    /// The settings.
    pub fn get_config(&self) -> (config: SpeechConfig)
        ensures
            config@ == self@.config,
    {
        self.config.clone()
    }

    /// Sets the language. The recognizer that the host holds was made for
    /// another language and is given up; the next start makes a new one.
    pub fn set_language(&mut self, language: String)
        ensures
            final(self)@ == (SpeechManagerView {
                config: SpeechConfigView { language: language@, ..old(self)@.config },
                has_recognizer: false,
                ..old(self)@
            }),
    {
        self.config.language = language;
        self.has_recognizer = false;
    }
}

} // verus!

//! Whether the recognizer is listening: the guard around the calls into the
//! system's speech framework, which the host makes.

use vstd::prelude::*;

verus! {

/// Whether the recognizer is listening.
#[derive(Clone, Copy, Debug, PartialEq, Eq, Structural)]
pub struct ListeningState {
    pub listening: bool,
}

/// What a request to listen is answered with: a refusal while the recognizer
/// is listening already.
pub open spec fn listen_answer(listening: bool) -> Result<(), Seq<char>> {
    if listening {
        Err("Already listening"@)
    } else {
        Ok(())
    }
}

impl ListeningState {
    /// The state of a recognizer that has just been made.
    pub fn new() -> (state: ListeningState)
        ensures
            !state.listening,
    {
        ListeningState { listening: false }
    }

    /// Says whether listening may start.
    pub fn start_listening(&self) -> (answer: Result<(), String>)
        ensures
            match answer {
                Ok(()) => Ok(()),
                Err(e) => Err(e@),
            } == listen_answer(self.listening),
    {
        if self.listening {
            Err(String::from_str("Already listening"))
        } else {
            Ok(())
        }
    }

    /// Takes note that the recognizer listens.
    pub fn started(&mut self)
        ensures
            final(self).listening,
    {
        self.listening = true;
    }

    /// Says whether there is anything to stop: a recognizer that does not
    /// listen is left alone.
    pub fn stop_listening(&self) -> (stop: bool)
        ensures
            stop == self.listening,
    {
        self.listening
    }

    /// Takes note that the recognizer has stopped.
    pub fn stopped(&mut self)
        ensures
            !final(self).listening,
    {
        self.listening = false;
    }

    pub fn is_listening(&self) -> (listening: bool)
        ensures
            listening == self.listening,
    {
        self.listening
    }
}

} // verus!

//! The decisions of the reader loop.
//!
//! One loop per session reads the master side in chunks and hands every chunk
//! on as text, in the order read, until the stream ends or fails.

use vstd::prelude::*;
use vstd::slice::slice_subrange;
use vstd::utf8::{decode_utf8, valid_utf8};
use crate::text::{decode_lossy, lossy_text};

verus! {

/// The most bytes that one read asks for.
pub const READ_CHUNK_SIZE: usize = 1024;

/// What the loop does after a read.
#[derive(Debug)]
pub enum ReaderStep {
    /// Hand this text to the event sink, then read again.
    Emit(String),
    /// Leave the loop and see to the shell's exit status.
    Stop,
}

/// Mathematical form of a [`ReaderStep`].
pub enum ReaderStepView {
    Emit(Seq<char>),
    Stop,
}

impl View for ReaderStep {
    type V = ReaderStepView;

    open spec fn view(&self) -> ReaderStepView {
        match self {
            ReaderStep::Emit(text) => ReaderStepView::Emit(text@),
            ReaderStep::Stop => ReaderStepView::Stop,
        }
    }
}

/// The bytes that a read has put into `buffer`, if it has put any: nothing
/// for the end of the stream, for a failed read, and for a count that the
/// buffer cannot hold.
pub open spec fn chunk_read(buffer: Seq<u8>, read: Result<usize, String>) -> Option<Seq<u8>> {
    match read {
        Ok(n) if 0 < n <= buffer.len() => Some(buffer.take(n as int)),
        _ => None,
    }
}

/// What the loop does after a read into `buffer`.
pub open spec fn reader_step(buffer: Seq<u8>, read: Result<usize, String>) -> ReaderStepView {
    match chunk_read(buffer, read) {
        Some(bytes) => ReaderStepView::Emit(lossy_text(bytes)),
        None => ReaderStepView::Stop,
    }
}

/// Decides what follows a read into `buffer`: the bytes read are handed on as
/// text, and the loop stops at the end of the stream and on a failed read.
pub fn on_read(buffer: &[u8], read: Result<usize, String>) -> (step: ReaderStep)
    ensures
        step@ == reader_step(buffer@, read),
        chunk_read(buffer@, read) matches Some(bytes) ==> (valid_utf8(bytes) ==> step@
            == ReaderStepView::Emit(decode_utf8(bytes))),
{
    match read {
        Ok(n) => {
            if 0 < n && n <= buffer.len() {
                let chunk = slice_subrange(buffer, 0, n);
                assert(chunk@ == buffer@.take(n as int));
                ReaderStep::Emit(decode_lossy(chunk))
            } else {
                ReaderStep::Stop
            }
        },
        Err(_) => ReaderStep::Stop,
    }
}

} // verus!

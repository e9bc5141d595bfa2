//! What a session's background loops publish: output chunks, read from the
//! pseudo-terminal in order, and one exit notice per session.
use vstd::prelude::*;

use crate::pty::{decode_lossy, id_text, lossy_text, uuid_text};

verus! {

/// One chunk of a session's output, decoded as text.
#[derive(Debug, Clone)]
pub struct TerminalOutput {
    pub id: String,
    pub data: String,
}

/// What the reader loop does after one read.
#[derive(Debug)]
pub enum ReaderStep {
    /// Publish this chunk and read again.
    Publish(TerminalOutput),
    /// The stream ended or failed: the loop stops.
    Close,
}

/// The reader loop's decision on one read of session `id`: `Some(bytes)`
/// is a read that returned `bytes` (none at the end of the stream), `None`
/// a read that failed.
pub fn reader_step(id: u128, read: Option<&[u8]>) -> (r: ReaderStep)
    ensures
        match read {
            Some(b) if b@.len() > 0 => r matches ReaderStep::Publish(o)
                && o.id@ == uuid_text(id) && o.data@ == lossy_text(b@) && o.data@.len() > 0,
            _ => r is Close,
        },
{
    match read {
        Some(b) => {
            if b.len() == 0 {
                ReaderStep::Close
            } else {
                let data = decode_lossy(b);
                ReaderStep::Publish(TerminalOutput { id: id_text(id), data })
            }
        },
        None => ReaderStep::Close,
    }
}

/// Watches one session's process for its exit and reports it once.
pub struct ExitWatch {
    id: u128,
    reported: bool,
}

impl ExitWatch {
    /// The session this watch belongs to.
    pub closed spec fn session(&self) -> u128 {
        self.id
    }

    /// Whether the exit has been reported.
    pub closed spec fn has_reported(&self) -> bool {
        self.reported
    }

    /// A watch on session `id` that has reported nothing.
    pub fn new(id: u128) -> (r: Self)
        ensures
            r.session() == id,
            !r.has_reported(),
    {
        ExitWatch { id, reported: false }
    }

    /// The exit notice to publish now that the process has ended: the
    /// session's id text the first time, nothing after that.
    pub fn on_exit(&mut self) -> (r: Option<String>)
        ensures
            r is Some <==> !old(self).has_reported(),
            r matches Some(t) ==> t@ == uuid_text(old(self).session()),
            final(self).has_reported(),
            final(self).session() == old(self).session(),
    {
        if self.reported {
            None
        } else {
            self.reported = true;
            Some(id_text(self.id))
        }
    }
}

/// A run of `on_exit` calls on one watch: `reported[i]` is the watch's state
/// before call `i`, `notices[i]` whether that call gave a notice.
pub open spec fn exit_run(reported: Seq<bool>, notices: Seq<bool>) -> bool {
    &&& reported.len() == notices.len() + 1
    &&& !reported[0]
    &&& forall|i: int| 0 <= i < notices.len() ==> (#[trigger] notices[i] <==> !reported[i]) && reported[i + 1]
}

/// However often a process's exit is handled, at most one exit notice comes
/// out for its session.
pub proof fn lemma_exit_notice_at_most_once(reported: Seq<bool>, notices: Seq<bool>)
    requires
        exit_run(reported, notices),
    ensures
        forall|i: int, j: int| 0 <= i < notices.len() && 0 <= j < notices.len() && notices[i] && notices[j] ==> i == j,
{
    assert forall|i: int| 0 < i < notices.len() implies !notices[i] by {
        assert(notices[i - 1] <==> !reported[i - 1]);
    }
}

} // verus!

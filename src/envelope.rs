//! Envelopes and the envelope-level synchronization hunks.

use vstd::prelude::*;

use crate::flag::{FlagView, Flags};
use crate::sync::SyncDestination;

verus! {

/// Header-level summary of a message, keyed logically by its Message-ID.
#[derive(Debug)]
pub struct Envelope {
    /// The backend-specific identifier.
    pub id: String,
    /// The canonical Message-ID (lowercase, without angle brackets).
    pub message_id: String,
    pub flags: Flags,
    pub from: String,
    pub to: String,
    pub subject: String,
    /// Seconds since the Unix epoch, UTC.
    pub date: i64,
}

/// The part of an envelope the synchronization engine reasons about.
pub ghost struct EnvelopeView {
    pub id: Seq<char>,
    pub message_id: Seq<char>,
    pub flags: Set<FlagView>,
}

impl View for Envelope {
    type V = EnvelopeView;

    open spec fn view(&self) -> EnvelopeView {
        EnvelopeView { id: self.id@, message_id: self.message_id@, flags: self.flags@ }
    }
}

/// The envelope `e` carrying the flags `m` instead of its own.
pub open spec fn with_flags(e: EnvelopeView, m: Set<FlagView>) -> EnvelopeView {
    EnvelopeView { flags: m, ..e }
}

impl Envelope {
    /// A copy of the envelope whose flags are a copy of `flags`.
    pub fn with_flags(&self, flags: &Flags) -> (r: Envelope)
        ensures
            r@ == with_flags(self@, flags@),
    {
        Envelope {
            id: self.id.clone(),
            message_id: self.message_id.clone(),
            flags: flags.duplicate(),
            from: self.from.clone(),
            to: self.to.clone(),
            subject: self.subject.clone(),
            date: self.date,
        }
    }

    /// A copy of the envelope.
    pub fn duplicate(&self) -> (r: Envelope)
        ensures
            r@ == self@,
    {
        self.with_flags(&self.flags)
    }
}

/// One atomic envelope change.
#[derive(Debug)]
pub enum EmailSyncHunk {
    /// Read the envelope `id` of the folder from the backend of the side,
    /// and write it to that side's cache.
    GetThenCache(String, String, SyncDestination),
    /// Copy the message from the source side to the target side with the
    /// envelope's flags, caching it on the target; when the flag is set,
    /// refresh the source cache with the envelope first.
    CopyThenCache(String, Envelope, SyncDestination, SyncDestination, bool),
    /// Write the envelope's flags to the backend of the side.
    UpdateFlags(String, Envelope, SyncDestination),
    /// Write the envelope's flags to the cache of the side.
    UpdateCachedFlags(String, Envelope, SyncDestination),
    /// Mark the message `id` deleted on the backend of the side.
    Delete(String, String, SyncDestination),
    /// Mark the message `id` deleted in the cache of the side.
    Uncache(String, String, SyncDestination),
}

/// The mathematical value of an [`EmailSyncHunk`].
pub ghost enum EmailHunkView {
    GetThenCache(Seq<char>, Seq<char>, SyncDestination),
    CopyThenCache(Seq<char>, EnvelopeView, SyncDestination, SyncDestination, bool),
    UpdateFlags(Seq<char>, EnvelopeView, SyncDestination),
    UpdateCachedFlags(Seq<char>, EnvelopeView, SyncDestination),
    Delete(Seq<char>, Seq<char>, SyncDestination),
    Uncache(Seq<char>, Seq<char>, SyncDestination),
}

impl View for EmailSyncHunk {
    type V = EmailHunkView;

    open spec fn view(&self) -> EmailHunkView {
        match self {
            EmailSyncHunk::GetThenCache(f, id, s) => EmailHunkView::GetThenCache(f@, id@, *s),
            EmailSyncHunk::CopyThenCache(f, e, a, b, x) => EmailHunkView::CopyThenCache(
                f@,
                e@,
                *a,
                *b,
                *x,
            ),
            EmailSyncHunk::UpdateFlags(f, e, s) => EmailHunkView::UpdateFlags(f@, e@, *s),
            EmailSyncHunk::UpdateCachedFlags(f, e, s) => EmailHunkView::UpdateCachedFlags(
                f@,
                e@,
                *s,
            ),
            EmailSyncHunk::Delete(f, id, s) => EmailHunkView::Delete(f@, id@, *s),
            EmailSyncHunk::Uncache(f, id, s) => EmailHunkView::Uncache(f@, id@, *s),
        }
    }
}

/// The view of a list of email hunks.
pub open spec fn email_hunks_view(v: Seq<EmailSyncHunk>) -> Seq<EmailHunkView> {
    v.map_values(|h: EmailSyncHunk| h@)
}

impl EmailSyncHunk {
    /// A copy of the hunk.
    pub fn duplicate(&self) -> (r: EmailSyncHunk)
        ensures
            r@ == self@,
    {
        match self {
            EmailSyncHunk::GetThenCache(f, id, s) => EmailSyncHunk::GetThenCache(
                f.clone(),
                id.clone(),
                *s,
            ),
            EmailSyncHunk::CopyThenCache(f, e, a, b, x) => EmailSyncHunk::CopyThenCache(
                f.clone(),
                e.duplicate(),
                *a,
                *b,
                *x,
            ),
            EmailSyncHunk::UpdateFlags(f, e, s) => EmailSyncHunk::UpdateFlags(
                f.clone(),
                e.duplicate(),
                *s,
            ),
            EmailSyncHunk::UpdateCachedFlags(f, e, s) => EmailSyncHunk::UpdateCachedFlags(
                f.clone(),
                e.duplicate(),
                *s,
            ),
            EmailSyncHunk::Delete(f, id, s) => EmailSyncHunk::Delete(f.clone(), id.clone(), *s),
            EmailSyncHunk::Uncache(f, id, s) => EmailSyncHunk::Uncache(f.clone(), id.clone(), *s),
        }
    }
}

} // verus!

//! Running envelope hunks: the backend and cache calls each hunk makes,
//! in order, and the envelopes a folder listing hands to the diff.

use vstd::prelude::*;

use crate::email_patch::{
    has_message, has_message_key, is_email_patches, message_ids_unique, EmailSyncPatches,
};
use crate::envelope::{EmailHunkView, EmailSyncHunk, Envelope};
use crate::interpreter::{
    headers_view, mml_of, render_mml, FilterHeaders, FilterView, MimeHeader, MimeHeaderView,
};
use crate::sync::SyncDestination;

verus! {

/// One of the four places a message is kept.
#[derive(Clone, Copy, Debug, PartialEq, Eq, Structural)]
pub enum Corner {
    Backend(SyncDestination),
    Cache(SyncDestination),
}

/// One call made while running an email hunk. The runner keeps the
/// current envelope (at first the hunk's own, if it carries one), the last
/// message read and the last id a backend gave back.
#[derive(Debug, PartialEq, Eq)]
pub enum EmailCall {
    /// Fetch an envelope from the backend of the side, by the given id or
    /// else by the id the last `AddMessage` gave back; it becomes current.
    GetEnvelope(SyncDestination, Option<String>),
    /// Write the current envelope, rendered, to the cache of the side
    /// with its flags.
    CacheEnvelope(SyncDestination),
    /// Read message `id` from the backend of the side without marking it
    /// seen.
    PeekMessage(SyncDestination, String),
    /// Store the last message read on the backend of the side with the
    /// hunk envelope's flags.
    AddMessage(SyncDestination),
    /// Replace the flags of message `id` at the corner with the hunk
    /// envelope's flags.
    SetFlags(Corner, String),
    /// Add the Deleted flag to message `id` at the corner.
    FlagDeleted(Corner, String),
}

/// The mathematical value of an [`EmailCall`].
pub ghost enum EmailCallView {
    GetEnvelope(SyncDestination, Option<Seq<char>>),
    CacheEnvelope(SyncDestination),
    PeekMessage(SyncDestination, Seq<char>),
    AddMessage(SyncDestination),
    SetFlags(Corner, Seq<char>),
    FlagDeleted(Corner, Seq<char>),
}

impl View for EmailCall {
    type V = EmailCallView;

    open spec fn view(&self) -> EmailCallView {
        match self {
            EmailCall::GetEnvelope(s, id) => EmailCallView::GetEnvelope(
                *s,
                match id {
                    Some(i) => Some(i@),
                    None => None,
                },
            ),
            EmailCall::CacheEnvelope(s) => EmailCallView::CacheEnvelope(*s),
            EmailCall::PeekMessage(s, id) => EmailCallView::PeekMessage(*s, id@),
            EmailCall::AddMessage(s) => EmailCallView::AddMessage(*s),
            EmailCall::SetFlags(c, id) => EmailCallView::SetFlags(*c, id@),
            EmailCall::FlagDeleted(c, id) => EmailCallView::FlagDeleted(*c, id@),
        }
    }
}

/// The views of a list of calls.
pub open spec fn calls_view(v: Seq<EmailCall>) -> Seq<EmailCallView> {
    v.map_values(|c: EmailCall| c@)
}

/// The calls hunk `h` makes, in order:
/// - reading then caching: fetch the envelope, cache it;
/// - copying: refresh the source cache if asked, read the message from the
///   source, store it on the target, fetch the stored envelope, cache it
///   on the target;
/// - flag updates: set the flags at the backend or the cache;
/// - deletions: add the Deleted flag at the backend or the cache.
pub open spec fn email_calls(h: EmailHunkView) -> Seq<EmailCallView> {
    match h {
        EmailHunkView::GetThenCache(_, id, side) => seq![
            EmailCallView::GetEnvelope(side, Some(id)),
            EmailCallView::CacheEnvelope(side),
        ],
        EmailHunkView::CopyThenCache(_, e, source, target, refresh) => {
            let copy = seq![
                EmailCallView::PeekMessage(source, e.id),
                EmailCallView::AddMessage(target),
                EmailCallView::GetEnvelope(target, None),
                EmailCallView::CacheEnvelope(target),
            ];
            if refresh {
                seq![EmailCallView::CacheEnvelope(source)] + copy
            } else {
                copy
            }
        },
        EmailHunkView::UpdateFlags(_, e, side) => seq![
            EmailCallView::SetFlags(Corner::Backend(side), e.id),
        ],
        EmailHunkView::UpdateCachedFlags(_, e, side) => seq![
            EmailCallView::SetFlags(Corner::Cache(side), e.id),
        ],
        EmailHunkView::Delete(_, id, side) => seq![
            EmailCallView::FlagDeleted(Corner::Backend(side), id),
        ],
        EmailHunkView::Uncache(_, id, side) => seq![
            EmailCallView::FlagDeleted(Corner::Cache(side), id),
        ],
    }
}

fn push_call(v: &mut Vec<EmailCall>, c: EmailCall)
    ensures
        calls_view(final(v)@) == calls_view(old(v)@).push(c@),
{
    let ghost v0 = v@;
    v.push(c);
    assert(calls_view(v@) =~= calls_view(v0).push(c@));
}

/// The calls hunk `h` makes, in order; none in a dry run, which changes
/// nothing and reports the hunk as done.
pub fn email_hunk_calls(h: &EmailSyncHunk, dry_run: bool) -> (r: Vec<EmailCall>)
    ensures
        calls_view(r@) == if dry_run {
            Seq::<EmailCallView>::empty()
        } else {
            email_calls(h@)
        },
{
    let mut v: Vec<EmailCall> = Vec::new();
    if dry_run {
        assert(calls_view(v@) =~= Seq::<EmailCallView>::empty());
        return v;
    }
    match h {
        EmailSyncHunk::GetThenCache(_, id, side) => {
            push_call(&mut v, EmailCall::GetEnvelope(*side, Some(id.clone())));
            push_call(&mut v, EmailCall::CacheEnvelope(*side));
        },
        EmailSyncHunk::CopyThenCache(_, e, source, target, refresh) => {
            if *refresh {
                push_call(&mut v, EmailCall::CacheEnvelope(*source));
            }
            push_call(&mut v, EmailCall::PeekMessage(*source, e.id.clone()));
            push_call(&mut v, EmailCall::AddMessage(*target));
            push_call(&mut v, EmailCall::GetEnvelope(*target, None));
            push_call(&mut v, EmailCall::CacheEnvelope(*target));
        },
        EmailSyncHunk::UpdateFlags(_, e, side) => {
            push_call(&mut v, EmailCall::SetFlags(Corner::Backend(*side), e.id.clone()));
        },
        EmailSyncHunk::UpdateCachedFlags(_, e, side) => {
            push_call(&mut v, EmailCall::SetFlags(Corner::Cache(*side), e.id.clone()));
        },
        EmailSyncHunk::Delete(_, id, side) => {
            push_call(&mut v, EmailCall::FlagDeleted(Corner::Backend(*side), id.clone()));
        },
        EmailSyncHunk::Uncache(_, id, side) => {
            push_call(&mut v, EmailCall::FlagDeleted(Corner::Cache(*side), id.clone()));
        },
    }
    assert(calls_view(v@) =~= email_calls(h@));
    v
}

fn find_message(v: &Vec<Envelope>, m: &String) -> (r: Option<usize>)
    ensures
        match r {
            Some(j) => j < v@.len() && v@[j as int].message_id@ == m@,
            None => forall|t: int| 0 <= t < v@.len() ==> v@[t].message_id@ != m@,
        },
{
    let mut j: usize = 0;
    while j < v.len()
        invariant
            0 <= j <= v.len(),
            forall|t: int| 0 <= t < j ==> v@[t].message_id@ != m@,
        decreases v.len() - j,
    {
        if v[j].message_id == *m {
            return Some(j);
        }
        j = j + 1;
    }
    None
}

/// `r[j]` is the last accepted envelope of `listed` with its Message-ID:
/// it is `listed[i]` for an accepted `i` that no later accepted envelope
/// with the same Message-ID follows.
pub open spec fn is_last_accepted(listed: Seq<(Envelope, bool)>, e: Envelope, i: int) -> bool {
    &&& 0 <= i < listed.len()
    &&& listed[i].1
    &&& listed[i].0@ == e@
    &&& forall|k: int|
        i < k < listed.len() && #[trigger] listed[k].1 ==> listed[k].0.message_id@
            != e.message_id@
}

/// Every envelope of `r` is the last accepted one of `listed` with its
/// Message-ID.
pub open spec fn all_last_accepted(listed: Seq<(Envelope, bool)>, r: Seq<Envelope>) -> bool {
    forall|j: int| 0 <= j < r.len() ==> #[trigger] has_last_accepted(listed, r[j])
}

/// Some accepted envelope of `listed` is `e` and is the last accepted one
/// with its Message-ID.
pub open spec fn has_last_accepted(listed: Seq<(Envelope, bool)>, e: Envelope) -> bool {
    exists|i: int| #[trigger] is_last_accepted(listed, e, i)
}

/// The envelopes a listing hands to the diff: those the envelope filter
/// accepted (the flag beside each), one per Message-ID, the last listed
/// winning, as a map from Message-ID to envelope.
pub fn select_envelopes(listed: &Vec<(Envelope, bool)>) -> (r: Vec<Envelope>)
    ensures
        message_ids_unique(r@),
        all_last_accepted(listed@, r@),
        forall|i: int|
            0 <= i < listed@.len() && #[trigger] listed@[i].1 ==> has_message(
                r@,
                listed@[i].0.message_id@,
            ),
{
    let mut r: Vec<Envelope> = Vec::new();
    let ghost mut src: Seq<int> = Seq::empty();
    let mut i: usize = 0;
    while i < listed.len()
        invariant
            0 <= i <= listed.len(),
            message_ids_unique(r@),
            src.len() == r@.len(),
            forall|j: int|
                0 <= j < r@.len() ==> {
                    let k = #[trigger] src[j];
                    &&& 0 <= k < i
                    &&& listed@[k].1
                    &&& listed@[k].0@ == r@[j]@
                    &&& forall|k2: int|
                        k < k2 < i && #[trigger] listed@[k2].1 ==> listed@[k2].0.message_id@
                            != r@[j].message_id@
                },
            forall|k: int|
                0 <= k < i && #[trigger] listed@[k].1 ==> has_message(r@, listed@[k].0.message_id@),
        decreases listed.len() - i,
    {
        if listed[i].1 {
            let e = &listed[i].0;
            let found = find_message(&r, &e.message_id);
            let d = e.duplicate();
            let ghost r0 = r@;
            let ghost s0 = src;
            match found {
                Some(j) => {
                    r.set(j, d);
                    proof {
                        src = src.update(j as int, i as int);
                    }
                    assert(r@[j as int].message_id@ == e.message_id@);
                    assert forall|a: int, b: int|
                        0 <= a < r@.len() && 0 <= b < r@.len() && a != b implies r@[a].message_id@
                            != r@[b].message_id@ by {
                        if a != j && b != j {
                            assert(r@[a] == r0[a] && r@[b] == r0[b]);
                        } else if a == j {
                            assert(r@[b] == r0[b]);
                            assert(r0[j as int].message_id@ != r0[b].message_id@);
                        } else {
                            assert(r@[a] == r0[a]);
                            assert(r0[j as int].message_id@ != r0[a].message_id@);
                        }
                    }
                    assert forall|k: int|
                        0 <= k <= i && #[trigger] listed@[k].1 implies has_message(
                            r@,
                            listed@[k].0.message_id@,
                        ) by {
                        if k < i {
                            let t = choose|t: int|
                                0 <= t < r0.len() && #[trigger] r0[t].message_id@
                                    == listed@[k].0.message_id@;
                            if t != j {
                                assert(r@[t] == r0[t]);
                            }
                            assert(r@[t].message_id@ == listed@[k].0.message_id@);
                        } else {
                            assert(r@[j as int].message_id@ == listed@[k].0.message_id@);
                        }
                    }
                    assert forall|j2: int|
                        0 <= j2 < r@.len() implies {
                            let k = #[trigger] src[j2];
                            &&& 0 <= k < i + 1
                            &&& listed@[k].1
                            &&& listed@[k].0@ == r@[j2]@
                            &&& forall|k2: int|
                                k < k2 < i + 1 && #[trigger] listed@[k2].1
                                    ==> listed@[k2].0.message_id@ != r@[j2].message_id@
                        } by {
                        if j2 != j {
                            assert(r@[j2] == r0[j2]);
                            assert(s0[j2] == src[j2]);
                            assert(r0[j as int].message_id@ != r0[j2].message_id@);
                        }
                    }
                },
                None => {
                    r.push(d);
                    proof {
                        src = src.push(i as int);
                    }
                    assert forall|a: int, b: int|
                        0 <= a < r@.len() && 0 <= b < r@.len() && a != b implies r@[a].message_id@
                            != r@[b].message_id@ by {
                        if a < r0.len() && b < r0.len() {
                            assert(r@[a] == r0[a] && r@[b] == r0[b]);
                        } else if a < r0.len() {
                            assert(r@[a] == r0[a]);
                        } else {
                            assert(r@[b] == r0[b]);
                        }
                    }
                    assert forall|k: int|
                        0 <= k <= i && #[trigger] listed@[k].1 implies has_message(
                            r@,
                            listed@[k].0.message_id@,
                        ) by {
                        if k < i {
                            let t = choose|t: int|
                                0 <= t < r0.len() && #[trigger] r0[t].message_id@
                                    == listed@[k].0.message_id@;
                            assert(r@[t] == r0[t]);
                        } else {
                            assert(r@[r0.len() as int].message_id@ == listed@[k].0.message_id@);
                        }
                    }
                    assert forall|j2: int|
                        0 <= j2 < r@.len() implies {
                            let k = #[trigger] src[j2];
                            &&& 0 <= k < i + 1
                            &&& listed@[k].1
                            &&& listed@[k].0@ == r@[j2]@
                            &&& forall|k2: int|
                                k < k2 < i + 1 && #[trigger] listed@[k2].1
                                    ==> listed@[k2].0.message_id@ != r@[j2].message_id@
                        } by {
                        if j2 < r0.len() {
                            assert(r@[j2] == r0[j2]);
                            assert(s0[j2] == src[j2]);
                        }
                    }
                },
            }
        } else {
            assert forall|j2: int|
                0 <= j2 < r@.len() implies {
                    let k = #[trigger] src[j2];
                    &&& 0 <= k < i + 1
                    &&& listed@[k].1
                    &&& listed@[k].0@ == r@[j2]@
                    &&& forall|k2: int|
                        k < k2 < i + 1 && #[trigger] listed@[k2].1 ==> listed@[k2].0.message_id@
                            != r@[j2].message_id@
                } by {}
        }
        i = i + 1;
    }
    assert forall|j: int| 0 <= j < r@.len() implies #[trigger] has_last_accepted(listed@, r@[j]) by {
        let k = src[j];
        assert(i == listed@.len());
        assert(0 <= k < listed@.len() && listed@[k].1 && listed@[k].0@ == r@[j]@);
        assert forall|k2: int|
            k < k2 < listed@.len() && #[trigger] listed@[k2].1 implies listed@[k2].0.message_id@
                != r@[j].message_id@ by {}
        assert(is_last_accepted(listed@, r@[j], k));
    }
    assert(all_last_accepted(listed@, r@));
    r
}

/// Whether the envelope filter accepted an envelope of `listed` with
/// Message-ID `m`.
pub open spec fn accepted_in(listed: Seq<(Envelope, bool)>, m: Seq<char>) -> bool {
    exists|i: int| 0 <= i < listed.len() && listed[i].1 && #[trigger] listed[i].0.message_id@ == m
}

proof fn lemma_selected_message_accepted(listed: Seq<(Envelope, bool)>, sel: Seq<Envelope>, m: Seq<char>)
    requires
        all_last_accepted(listed, sel),
        has_message(sel, m),
    ensures
        accepted_in(listed, m),
{
    let j = choose|j: int| 0 <= j < sel.len() && #[trigger] sel[j].message_id@ == m;
    assert(has_last_accepted(listed, sel[j]));
    let i = choose|i: int| #[trigger] is_last_accepted(listed, sel[j], i);
    assert(listed[i].0.message_id@ == m);
}

/// An envelope patch built from the selections of four listings only
/// touches Message-IDs of envelopes the envelope filter accepted.
pub proof fn lemma_patch_respects_envelope_filter(
    folder: Seq<char>,
    p: EmailSyncPatches,
    listed_lc: Seq<(Envelope, bool)>,
    listed_l: Seq<(Envelope, bool)>,
    listed_rc: Seq<(Envelope, bool)>,
    listed_r: Seq<(Envelope, bool)>,
    lc: Seq<Envelope>,
    l: Seq<Envelope>,
    rc: Seq<Envelope>,
    r: Seq<Envelope>,
)
    requires
        all_last_accepted(listed_lc, lc),
        all_last_accepted(listed_l, l),
        all_last_accepted(listed_rc, rc),
        all_last_accepted(listed_r, r),
        is_email_patches(folder, p@, lc, l, rc, r),
    ensures
        forall|i: int|
            0 <= i < p@.len() ==> {
                let m = #[trigger] p@[i].0@;
                accepted_in(listed_lc, m) || accepted_in(listed_l, m) || accepted_in(listed_rc, m)
                    || accepted_in(listed_r, m)
            },
{
    assert forall|i: int| 0 <= i < p@.len() implies {
        let m = #[trigger] p@[i].0@;
        accepted_in(listed_lc, m) || accepted_in(listed_l, m) || accepted_in(listed_rc, m)
            || accepted_in(listed_r, m)
    } by {
        let m = p@[i].0@;
        assert(has_message_key(p@, m));
        if has_message(lc, m) {
            lemma_selected_message_accepted(listed_lc, lc, m);
        } else if has_message(l, m) {
            lemma_selected_message_accepted(listed_l, l, m);
        } else if has_message(rc, m) {
            lemma_selected_message_accepted(listed_rc, rc, m);
        } else {
            lemma_selected_message_accepted(listed_r, r, m);
        }
    }
}

/// A header with a raw value and no parsed address.
pub open spec fn text_header(name: Seq<char>, raw: Seq<char>) -> MimeHeaderView {
    MimeHeaderView { name, raw_value: raw, addresses: None }
}

/// The headers the cache record of envelope `e` shows.
pub open spec fn cache_headers(e: Envelope) -> Seq<MimeHeaderView> {
    seq![
        text_header("Message-ID"@, "<"@ + e.message_id@ + ">"@),
        text_header("From"@, e.from@),
        text_header("To"@, e.to@),
        text_header("Subject"@, e.subject@),
    ]
}

fn text_header_exec(name: &str, raw: String) -> (r: MimeHeader)
    ensures
        r@ == text_header(name@, raw@),
{
    MimeHeader { name: name.to_owned(), raw_value: raw, addresses: None }
}

/// The cache record of envelope `e`: the MML render, with every header
/// shown, of a message holding its headers and no body.
pub fn sync_cache_message(e: &Envelope) -> (r: String)
    ensures
        r@ == mml_of(FilterView::All, cache_headers(*e), Seq::<char>::empty()),
{
    let mut id = "<".to_owned();
    id.append(e.message_id.as_str());
    id.append(">");
    let headers = vec![
        text_header_exec("Message-ID", id),
        text_header_exec("From", e.from.clone()),
        text_header_exec("To", e.to.clone()),
        text_header_exec("Subject", e.subject.clone()),
    ];
    assert(headers_view(headers@) =~= cache_headers(*e));
    let body = String::new();
    let all = FilterHeaders::All;
    render_mml(&all, &headers, &body)
}

} // verus!

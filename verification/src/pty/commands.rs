//! The rules behind the requests on sessions: registering, finding and
//! closing a session, and what the reader of a session does with each read.

use crate::error::Failure;
use crate::state::{AppStateData, PtySession};
use crate::trusted::{decode_lossy, is_hyphenated_uuid, random_uuid, utf8_lossy};
use std::sync::atomic::AtomicBool;
use std::sync::atomic::Ordering;
use std::sync::Arc;
use vstd::prelude::*;
use vstd::string::StrSliceExecFns;
use vstd::utf8::encode_utf8;

verus! {

/// A session around the handles of a pseudo-terminal whose shell has just
/// been spawned. Its shutdown flag is new and not raised.
pub fn new_session<M, C, W>(master: M, child: C, writer: W, sandboxed: bool) -> (session:
    PtySession<M, C, W>)
    ensures
        session.master == master,
        session.child == child,
        session.writer == writer,
        session.sandboxed == sandboxed,
{
    PtySession { master, child, writer, shutdown: Arc::new(AtomicBool::new(false)), sandboxed }
}

/// A new identifier for a session: a random UUID in hyphenated form.
pub fn new_session_id() -> (id: String)
    ensures
        is_hyphenated_uuid(id@),
{
    random_uuid()
}

/// Enters `session` in the registry under `session_id`. A session that was
/// entered under the same identifier before is displaced and handed back.
pub fn register_session<M, C, W>(
    state: &mut AppStateData<M, C, W>,
    session_id: String,
    session: PtySession<M, C, W>,
) -> (displaced: Option<PtySession<M, C, W>>)
    requires
        old(state).wf(),
    ensures
        final(state).wf(),
        final(state).pty_sessions@ == old(state).pty_sessions@.insert(session_id@, session),
        final(state).git_cache == old(state).git_cache,
        displaced == (if old(state).pty_sessions@.contains_key(session_id@) {
            Some(old(state).pty_sessions@[session_id@])
        } else {
            None
        }),
{
    state.pty_sessions.insert(session_id, session)
}

/// The session with the identifier `session_id`, for writing to it or
/// resizing it; the failure `SessionNotFound` where there is none.
pub fn find_session<'a, M, C, W>(state: &'a mut AppStateData<M, C, W>, session_id: &str) -> (found:
    Result<&'a mut PtySession<M, C, W>, Failure>)
    requires
        old(state).wf(),
    ensures
        final(state).wf(),
        final(state).git_cache == old(state).git_cache,
        match found {
            Ok(session) => {
                &&& old(state).pty_sessions@.contains_key(session_id@)
                &&& *session == old(state).pty_sessions@[session_id@]
                &&& final(state).pty_sessions@ == old(state).pty_sessions@.insert(
                    session_id@,
                    *final(session),
                )
            },
            Err(failure) => {
                &&& !old(state).pty_sessions@.contains_key(session_id@)
                &&& failure matches Failure::SessionNotFound(id) && id@ == session_id@
                &&& final(state).pty_sessions@ == old(state).pty_sessions@
            },
        },
{
    match state.pty_sessions.get_mut(session_id) {
        Some(session) => Ok(session),
        None => Err(Failure::SessionNotFound(session_id.to_owned())),
    }
}

/// The registry after the session `session_id` was closed.
pub open spec fn closed<S>(sessions: Map<Seq<char>, S>, session_id: Seq<char>) -> Map<
    Seq<char>,
    S,
> {
    sessions.remove(session_id)
}

/// Whether closing `session_id` ends a session, so that its end is announced.
pub open spec fn close_announces<S>(sessions: Map<Seq<char>, S>, session_id: Seq<char>) -> bool {
    sessions.contains_key(session_id)
}

/// Closes the session `session_id`: takes it out of the registry and raises
/// its shutdown flag. The session is handed back so that its child can be
/// killed and its end announced. Where there is no such session nothing
/// happens and nothing is handed back: there is nothing to announce.
pub fn close_session<M, C, W>(state: &mut AppStateData<M, C, W>, session_id: &str) -> (ended:
    Option<PtySession<M, C, W>>)
    requires
        old(state).wf(),
    ensures
        final(state).wf(),
        final(state).pty_sessions@ == closed(old(state).pty_sessions@, session_id@),
        final(state).git_cache == old(state).git_cache,
        (ended is Some) == close_announces(old(state).pty_sessions@, session_id@),
        ended matches Some(session) ==> session == old(state).pty_sessions@[session_id@],
{
    match state.pty_sessions.remove(session_id) {
        Some(session) => {
            session.shutdown.store(true, Ordering::SeqCst);
            Some(session)
        },
        None => None,
    }
}

/// Takes the session `session_id` out of the registry and hands it back,
/// without raising its shutdown flag: for a session whose reader has seen
/// the end of its stream.
pub fn forget_session<M, C, W>(state: &mut AppStateData<M, C, W>, session_id: &str) -> (ended:
    Option<PtySession<M, C, W>>)
    requires
        old(state).wf(),
    ensures
        final(state).wf(),
        final(state).pty_sessions@ == closed(old(state).pty_sessions@, session_id@),
        final(state).git_cache == old(state).git_cache,
        ended == (if old(state).pty_sessions@.contains_key(session_id@) {
            Some(old(state).pty_sessions@[session_id@])
        } else {
            None
        }),
{
    state.pty_sessions.remove(session_id)
}

/// Closing is idempotent. Once a session is closed its identifier names no
/// session, so closing it again announces nothing and leaves the registry as
/// it is; the same holds of an identifier that never named a session.
pub proof fn lemma_close_is_idempotent<S>(sessions: Map<Seq<char>, S>, session_id: Seq<char>)
    ensures
        !close_announces(closed(sessions, session_id), session_id),
        closed(closed(sessions, session_id), session_id) == closed(sessions, session_id),
        !sessions.contains_key(session_id) ==> closed(sessions, session_id) == sessions
            && !close_announces(sessions, session_id),
{
    assert(closed(closed(sessions, session_id), session_id) =~= closed(sessions, session_id));
    if !sessions.contains_key(session_id) {
        assert(closed(sessions, session_id) =~= sessions);
    }
}

/// Closing one session leaves every other session in the registry.
pub proof fn lemma_close_leaves_others<S>(
    sessions: Map<Seq<char>, S>,
    session_id: Seq<char>,
    other: Seq<char>,
)
    requires
        other != session_id,
    ensures
        closed(sessions, session_id).contains_key(other) == sessions.contains_key(other),
        sessions.contains_key(other) ==> closed(sessions, session_id)[other] == sessions[other],
{
}

/// Two sessions that are entered under different identifiers are two
/// entries: each is found under its own identifier, and where both
/// identifiers are new the registry grows by two.
pub proof fn lemma_distinct_ids_distinct_entries<S>(
    sessions: Map<Seq<char>, S>,
    first_id: Seq<char>,
    first: S,
    second_id: Seq<char>,
    second: S,
)
    requires
        sessions.dom().finite(),
        first_id != second_id,
    ensures
        sessions.insert(first_id, first).insert(second_id, second)[first_id] == first,
        sessions.insert(first_id, first).insert(second_id, second)[second_id] == second,
        sessions.insert(first_id, first).insert(second_id, second) == sessions.insert(
            second_id,
            second,
        ).insert(first_id, first),
        !sessions.contains_key(first_id) && !sessions.contains_key(second_id) ==> sessions.insert(
            first_id,
            first,
        ).insert(second_id, second).len() == sessions.len() + 2,
{
    assert(sessions.insert(first_id, first).insert(second_id, second) =~= sessions.insert(
        second_id,
        second,
    ).insert(first_id, first));
}

/// The bytes that are written to the child for the text `data`: its UTF-8
/// encoding, whole.
pub fn write_payload(data: &str) -> (payload: Vec<u8>)
    ensures
        payload@ == encode_utf8(data@),
{
    data.as_bytes_vec()
}

/// The bytes that a run of writes hands to the child, one write after the other.
pub open spec fn written(writes: Seq<Seq<char>>) -> Seq<u8>
    decreases writes.len(),
{
    if writes.len() == 0 {
        Seq::empty()
    } else {
        written(writes.drop_last()) + encode_utf8(writes.last())
    }
}

/// The texts of a run of writes, one after the other.
pub open spec fn typed(writes: Seq<Seq<char>>) -> Seq<char>
    decreases writes.len(),
{
    if writes.len() == 0 {
        Seq::empty()
    } else {
        typed(writes.drop_last()) + writes.last()
    }
}

/// The encoding of two texts, one after the other, is the encoding of the
/// first followed by the encoding of the second.
pub proof fn lemma_encode_concat(a: Seq<char>, b: Seq<char>)
    ensures
        encode_utf8(a + b) == encode_utf8(a) + encode_utf8(b),
    decreases a.len(),
{
    if a.len() == 0 {
        assert(a + b =~= b);
        assert(encode_utf8(a) + encode_utf8(b) =~= encode_utf8(b));
    } else {
        lemma_encode_concat(a.drop_first(), b);
        assert((a + b).drop_first() =~= a.drop_first() + b);
        assert((a + b)[0] == a[0]);
        assert(encode_utf8(a + b) =~= encode_utf8(a) + encode_utf8(b));
    }
}

/// Writes keep their order and their content: what a run of writes hands to
/// the child is the encoding of the texts in the order in which they were
/// written, with nothing left out, added or moved.
pub proof fn lemma_writes_keep_order(writes: Seq<Seq<char>>)
    ensures
        written(writes) == encode_utf8(typed(writes)),
    decreases writes.len(),
{
    if writes.len() > 0 {
        lemma_writes_keep_order(writes.drop_last());
        lemma_encode_concat(typed(writes.drop_last()), writes.last());
    }
}

/// The notice that ends the output of a session whose process has exited.
pub open spec fn exit_notice() -> Seq<char> {
    "\r\n[Process exited]\r\n"@
}

/// What the reader of a session does after a read.
pub enum ReaderStep {
    /// Hand the text on as output of the session, and read again.
    Emit(String),
    /// Hand the text on as output of the session, and stop.
    EmitAndStop(String),
    /// Stop without a word.
    Stop,
}

/// Whether the reader of a session goes on to read; `cancelled` is the
/// shutdown flag as the reader finds it before the read.
pub fn reader_continues(cancelled: bool) -> (go_on: bool)
    ensures
        go_on == !cancelled,
{
    !cancelled
}

/// Decides what the reader of a session does after a read. `read` is what
/// the read gave: the bytes, none at the end of the stream, or an error;
/// `cancelled` is the shutdown flag as the reader finds it after the read.
/// Once the flag is raised nothing more is handed on, whatever was read.
/// Otherwise bytes are handed on as text, with U+FFFD for what is not
/// UTF-8; the end of the stream is told by the exit notice; an error ends
/// the reader without a word.
pub fn reader_step(read: Result<Vec<u8>, String>, cancelled: bool) -> (step: ReaderStep)
    ensures
        match step {
            ReaderStep::Emit(text) => {
                &&& !cancelled
                &&& read matches Ok(bytes) && bytes@.len() > 0 && text@ == utf8_lossy(bytes@)
            },
            ReaderStep::EmitAndStop(text) => {
                &&& !cancelled
                &&& read matches Ok(bytes) && bytes@.len() == 0
                &&& text@ == exit_notice()
            },
            ReaderStep::Stop => cancelled || read is Err,
        },
        cancelled ==> step is Stop,
{
    if cancelled {
        return ReaderStep::Stop;
    }
    match read {
        Ok(bytes) => {
            if bytes.len() > 0 {
                ReaderStep::Emit(decode_lossy(bytes.as_slice()))
            } else {
                ReaderStep::EmitAndStop("\r\n[Process exited]\r\n".to_owned())
            }
        },
        Err(_) => ReaderStep::Stop,
    }
}

/// What the reader of a hidden terminal does after a read.
pub enum HiddenReaderStep {
    /// Hand the text on as output of the terminal, and read again.
    Emit(String),
    /// Announce the end of the terminal, take its session out of the
    /// registry, and stop; `error` says whether a failed read ended it.
    Close { error: bool },
    /// Stop without a word.
    Stop,
}

/// Decides what the reader of a hidden terminal does after a read. Bytes
/// are handed on as text unless the shutdown flag is raised, which ends the
/// reader. The end of the stream and a failed read both end the terminal.
pub fn hidden_reader_step(read: Result<Vec<u8>, String>, cancelled: bool) -> (step:
    HiddenReaderStep)
    ensures
        match step {
            HiddenReaderStep::Emit(text) => {
                &&& !cancelled
                &&& read matches Ok(bytes) && bytes@.len() > 0 && text@ == utf8_lossy(bytes@)
            },
            HiddenReaderStep::Close { error } => {
                &&& error == (read is Err)
                &&& read matches Ok(bytes) ==> bytes@.len() == 0
            },
            HiddenReaderStep::Stop => {
                &&& cancelled
                &&& read matches Ok(bytes) && bytes@.len() > 0
            },
        },
        cancelled ==> !(step is Emit),
{
    match read {
        Ok(bytes) => {
            if bytes.len() > 0 {
                if cancelled {
                    HiddenReaderStep::Stop
                } else {
                    HiddenReaderStep::Emit(decode_lossy(bytes.as_slice()))
                }
            } else {
                HiddenReaderStep::Close { error: false }
            }
        },
        Err(_) => HiddenReaderStep::Close { error: true },
    }
}

} // verus!

//! The stream relay: a per-exchange adapter that receives text fragments
//! from the producer thread driving the remote exchange, forwards them as
//! ordered events over a channel to the consuming renderer, accumulates the
//! full reply in a buffer, and treats a send failure as expected noise when
//! the shared cancellation signal is set.

use crate::abort::SharedAbortSignal;
use crate::errors::ReplError;
use crate::text::str_eq;
use vstd::prelude::*;

verus! {

/// One event of a streaming exchange, in the order produced: any number of
/// `Text` fragments, then `Done`.
#[derive(Debug, PartialEq, Eq)]
pub enum ReplyStreamEvent {
    Text(String),
    Done,
}

/// The abstract form of one forwarded event, used by the relay's ghost
/// record of what it handed to the channel.
pub enum StreamEventView {
    Text(Seq<char>),
    Done,
}

/// Declares crossbeam's channel `Sender` so the relay can hold its sending
/// endpoint; the type stays opaque.
#[verifier::external_type_specification]
#[verifier::external_body]
#[verifier::reject_recursive_types(T)]
pub struct ExSender<T>(crossbeam::channel::Sender<T>);

/// Relies on crossbeam's channel `Sender::send`: it places the message in
/// the channel, or hands the message back unchanged when every receiver of
/// the channel has been dropped.
#[verifier::external_body]
fn send_event(sender: &crossbeam::channel::Sender<ReplyStreamEvent>, event: ReplyStreamEvent) -> (r:
    Result<(), ReplyStreamEvent>)
    ensures
        r matches Err(e) ==> e == event,
{
    match sender.send(event) {
        Ok(()) => Ok(()),
        Err(crossbeam::channel::SendError(e)) => Err(e),
    }
}

/// The ordered concatenation of a sequence of fragments.
pub open spec fn concat_fragments(fs: Seq<Seq<char>>) -> Seq<char>
    decreases fs.len(),
{
    if fs.len() == 0 {
        Seq::empty()
    } else {
        concat_fragments(fs.drop_last()) + fs.last()
    }
}

pub proof fn lemma_concat_push(fs: Seq<Seq<char>>, f: Seq<char>)
    ensures
        concat_fragments(fs.push(f)) == concat_fragments(fs) + f,
{
    assert(fs.push(f).drop_last() =~= fs);
    assert(fs.push(f).last() == f);
}

pub proof fn lemma_concat_member_len(fs: Seq<Seq<char>>, i: int)
    requires
        0 <= i < fs.len(),
    ensures
        concat_fragments(fs).len() >= fs[i].len(),
    decreases fs.len(),
{
    if i < fs.len() - 1 {
        lemma_concat_member_len(fs.drop_last(), i);
        assert(fs.drop_last()[i] == fs[i]);
    }
}

/// The per-exchange relay. `accepted` is the ghost record of the fragments
/// appended to the buffer, `forwarded` the ghost record of the events handed
/// to the channel, and `closed` whether `done` has been called.
pub struct ReplyStreamHandler {
    pub sender: crossbeam::channel::Sender<ReplyStreamEvent>,
    pub buffer: String,
    pub abort: SharedAbortSignal,
    pub accepted: Ghost<Seq<Seq<char>>>,
    pub forwarded: Ghost<Seq<StreamEventView>>,
    pub closed: Ghost<bool>,
}

impl ReplyStreamHandler {
    /// The buffer is always the ordered concatenation of the accepted
    /// fragments.
    pub open spec fn wf(self) -> bool {
        self.buffer@ == concat_fragments(self.accepted@)
    }

    /// Whether the relay drops `fragment` without appending or forwarding:
    /// only a double newline arriving while the buffer is still empty.
    pub open spec fn suppresses(self, fragment: Seq<char>) -> bool {
        self.buffer@.len() == 0 && fragment == "\n\n"@
    }

    /// A fresh relay for one exchange: empty buffer, nothing forwarded.
    pub fn new(sender: crossbeam::channel::Sender<ReplyStreamEvent>, abort: SharedAbortSignal) -> (h:
        Self)
        ensures
            h.wf(),
            h.buffer@ == Seq::<char>::empty(),
            h.accepted@ == Seq::<Seq<char>>::empty(),
            h.forwarded@ == Seq::<StreamEventView>::empty(),
            h.closed@ == false,
            h.sender == sender,
            h.abort == abort,
    {
        let h = ReplyStreamHandler {
            sender,
            buffer: String::new(),
            abort,
            accepted: Ghost(Seq::empty()),
            forwarded: Ghost(Seq::empty()),
            closed: Ghost(false),
        };
        proof {
            assert(concat_fragments(h.accepted@) =~= Seq::<char>::empty());
        }
        h
    }

    /// What one `text` call does, relating the relay before and after the
    /// call to the fragment and the result.
    pub open spec fn text_post(
        pre: ReplyStreamHandler,
        post: ReplyStreamHandler,
        fragment: Seq<char>,
        r: Result<(), ReplError>,
    ) -> bool {
        &&& post.closed@ == false
        &&& post.sender == pre.sender
        &&& post.abort == pre.abort
        &&& (pre.suppresses(fragment) ==> r is Ok && post == pre)
        &&& (!pre.suppresses(fragment) ==> {
            &&& post.accepted@ == pre.accepted@.push(fragment)
            &&& post.buffer@ == pre.buffer@ + fragment
            &&& post.forwarded@ == pre.forwarded@.push(StreamEventView::Text(fragment))
            &&& (r is Err ==> r == Err::<(), ReplError>(ReplError::SendTextFailed))
        })
    }

    /// Receive one fragment from the producer. A double newline on a still
    /// empty buffer is dropped; any other fragment is appended to the buffer
    /// and forwarded as a `Text` event. A forwarding failure is surfaced
    /// only while no cancellation is pending.
    pub fn text(&mut self, fragment: &str) -> (r: Result<(), ReplError>)
        requires
            old(self).wf(),
            !old(self).closed@,
        ensures
            final(self).wf(),
            Self::text_post(*old(self), *final(self), fragment@, r),
    {
        if self.buffer.as_str().is_empty() && str_eq(fragment, "\n\n") {
            return Ok(());
        }
        self.buffer.append(fragment);
        proof {
            lemma_concat_push(self.accepted@, fragment@);
        }
        self.accepted = Ghost(self.accepted@.push(fragment@));
        self.forwarded = Ghost(self.forwarded@.push(StreamEventView::Text(fragment@)));
        let ret: Result<(), ReplError> = match send_event(
            &self.sender,
            ReplyStreamEvent::Text(fragment.to_owned()),
        ) {
            Ok(()) => Ok(()),
            Err(_) => Err(ReplError::SendTextFailed),
        };
        self.safe_ret(ret)
    }

    /// Tell the consumer that the exchange has finished. The `Done` event is
    /// terminal: afterwards no further `text` call is valid for this relay.
    /// A forwarding failure is surfaced only while no cancellation is
    /// pending.
    pub fn done(&mut self) -> (r: Result<(), ReplError>)
        requires
            old(self).wf(),
        ensures
            final(self).wf(),
            final(self).closed@ == true,
            final(self).sender == old(self).sender,
            final(self).abort == old(self).abort,
            final(self).buffer == old(self).buffer,
            final(self).accepted@ == old(self).accepted@,
            final(self).forwarded@ == old(self).forwarded@.push(StreamEventView::Done),
            r is Err ==> r == Err::<(), ReplError>(ReplError::SendDoneFailed),
    {
        self.closed = Ghost(true);
        self.forwarded = Ghost(self.forwarded@.push(StreamEventView::Done));
        let ret: Result<(), ReplError> = match send_event(&self.sender, ReplyStreamEvent::Done) {
            Ok(()) => Ok(()),
            Err(_) => Err(ReplError::SendDoneFailed),
        };
        self.safe_ret(ret)
    }

    /// The text accumulated so far: every accepted fragment in order.
    pub fn get_buffer(&self) -> (r: &str)
        ensures
            r@ == self.buffer@,
    {
        self.buffer.as_str()
    }

    /// Another handle to the shared cancellation signal, for producer-side
    /// polling.
    pub fn get_abort(&self) -> (r: SharedAbortSignal)
        ensures
            r == self.abort,
    {
        self.abort.share()
    }

    /// Resolve a forwarding outcome against the cancellation signal read at
    /// this moment: a failure while a cancellation is pending is expected
    /// noise and becomes success.
    fn safe_ret(&self, ret: Result<(), ReplError>) -> (r: Result<(), ReplError>)
        ensures
            ret is Ok ==> r is Ok,
            r is Err ==> r == ret,
    {
        let aborted = self.abort.aborted();
        resolve_send(ret, aborted)
    }
}

/// The cancellation-suppression rule on its own: a failed send while the
/// abort signal was read as set resolves to success, while the same failure
/// with the signal unset surfaces unchanged; a successful send is never
/// altered.
pub fn resolve_send(ret: Result<(), ReplError>, aborted: bool) -> (r: Result<(), ReplError>)
    ensures
        r == (if ret is Err && aborted {
            Ok::<(), ReplError>(())
        } else {
            ret
        }),
{
    if ret.is_err() && aborted {
        return Ok(());
    }
    ret
}

/// The buffer returned by `get_buffer` always equals the ordered
/// concatenation of all non-suppressed fragments passed to `text`.
pub proof fn lemma_buffer_is_concat(h: ReplyStreamHandler)
    requires
        h.wf(),
    ensures
        h.buffer@ == concat_fragments(h.accepted@),
{
}

/// Once any non-empty fragment has been accepted the buffer is non-empty,
/// so the relay suppresses nothing any more.
pub proof fn lemma_accepted_nonempty_not_suppressed(h: ReplyStreamHandler, i: int)
    requires
        h.wf(),
        0 <= i < h.accepted@.len(),
        h.accepted@[i].len() > 0,
    ensures
        forall|f: Seq<char>| !h.suppresses(f),
{
    lemma_concat_member_len(h.accepted@, i);
}

/// A double newline handed to `text` first, on a fresh relay, appends
/// nothing and forwards nothing: the call succeeds and leaves the relay as
/// it was.
pub proof fn lemma_fresh_blank_chunk_suppressed(
    pre: ReplyStreamHandler,
    post: ReplyStreamHandler,
    r: Result<(), ReplError>,
)
    requires
        pre.wf(),
        pre.accepted@ == Seq::<Seq<char>>::empty(),
        ReplyStreamHandler::text_post(pre, post, "\n\n"@, r),
    ensures
        r is Ok,
        post == pre,
        post.buffer@ == pre.buffer@,
        post.forwarded@ == pre.forwarded@,
{
    assert(concat_fragments(pre.accepted@) =~= Seq::<char>::empty());
    assert(pre.suppresses("\n\n"@));
}

/// A double newline handed to `text` after an earlier accepted non-empty
/// fragment is appended to the buffer and forwarded as a `Text` event. (A
/// prior `text("\n\n")` on a fresh relay is itself suppressed, so it does
/// not lift the suppression.)
pub proof fn lemma_blank_chunk_after_text_appended(
    pre: ReplyStreamHandler,
    mid: ReplyStreamHandler,
    post: ReplyStreamHandler,
    fragment: Seq<char>,
    r1: Result<(), ReplError>,
    r2: Result<(), ReplError>,
)
    requires
        pre.wf(),
        mid.wf(),
        fragment.len() > 0,
        !pre.suppresses(fragment),
        ReplyStreamHandler::text_post(pre, mid, fragment, r1),
        ReplyStreamHandler::text_post(mid, post, "\n\n"@, r2),
    ensures
        post.accepted@ == mid.accepted@.push("\n\n"@),
        post.buffer@ == mid.buffer@ + "\n\n"@,
        post.forwarded@ == mid.forwarded@.push(StreamEventView::Text("\n\n"@)),
{
    lemma_accepted_nonempty_not_suppressed(mid, mid.accepted@.len() - 1);
}

} // verus!

use std::collections::VecDeque;
use vstd::prelude::*;

use crate::error::Error;

verus! {

/// What one pull on the output path yields.
pub enum Pull<T> {
    /// The oldest frame that is still queued.
    Frame(T),
    /// Nothing is queued and the session has ended: the error is at
    /// [`OutputBridge::terminal_error`].
    Closed,
    /// Nothing is queued, the signal is open and the session is released:
    /// no frame will ever come.
    Ended,
    /// Nothing is queued and the session is open: wait for the next event.
    Pending,
}

/// The abstract state of a bridge: the frames queued in arrival order, the
/// termination signal (`None` while open), whether a consumer still reads,
/// and whether the session that feeds it has been released.
pub struct BridgeState<T> {
    pub queued: Seq<T>,
    pub terminal: Option<Error>,
    pub attached: bool,
    pub finished: bool,
}

impl<T> BridgeState<T> {
    pub open spec fn initial() -> BridgeState<T> {
        BridgeState { queued: Seq::empty(), terminal: None, attached: true, finished: false }
    }

    /// The signal closes with `e` unless it is closed already.
    pub open spec fn close_with(self, e: Error) -> Option<Error> {
        if self.terminal is Some {
            self.terminal
        } else {
            Some(e)
        }
    }

    /// The engine hands over a produced frame.
    pub open spec fn deliver(self, frame: T) -> BridgeState<T> {
        if self.attached {
            BridgeState { queued: self.queued.push(frame), ..self }
        } else {
            BridgeState { terminal: self.close_with(Error::Dropped), ..self }
        }
    }

    /// The frame that `deliver` gives back because nobody can take it.
    pub open spec fn refused(self, frame: T) -> Option<T> {
        if self.attached {
            None
        } else {
            Some(frame)
        }
    }

    /// The engine reports a fatal error.
    pub open spec fn fail(self, e: Error) -> BridgeState<T> {
        BridgeState { terminal: self.close_with(e), ..self }
    }

    /// Queued frames come first; then a closed signal; then the end of a
    /// released session; else there is nothing yet.
    pub open spec fn pull_outcome(self) -> Pull<T> {
        if self.queued.len() > 0 {
            Pull::Frame(self.queued[0])
        } else if self.terminal is Some {
            Pull::Closed
        } else if self.finished {
            Pull::Ended
        } else {
            Pull::Pending
        }
    }

    pub open spec fn after_pull(self) -> BridgeState<T> {
        if self.queued.len() > 0 {
            BridgeState { queued: self.queued.drop_first(), ..self }
        } else {
            self
        }
    }

    /// The consumer goes away; what it left queued is handed back.
    pub open spec fn detach(self) -> BridgeState<T> {
        BridgeState { queued: Seq::empty(), attached: false, ..self }
    }

    /// The session that feeds the bridge is released.
    pub open spec fn finish(self) -> BridgeState<T> {
        BridgeState { finished: true, ..self }
    }

    /// The outcomes of `n` pulls in a row.
    pub open spec fn drain(self, n: nat) -> Seq<Pull<T>>
        decreases n,
    {
        if n == 0 {
            Seq::empty()
        } else {
            seq![self.pull_outcome()] + self.after_pull().drain((n - 1) as nat)
        }
    }

    /// The state after the frames `frames` are delivered one by one.
    pub open spec fn deliver_all(self, frames: Seq<T>) -> BridgeState<T>
        decreases frames.len(),
    {
        if frames.len() == 0 {
            self
        } else {
            self.deliver(frames[0]).deliver_all(frames.drop_first())
        }
    }
}

pub open spec fn as_pulls<T>(frames: Seq<T>) -> Seq<Pull<T>> {
    frames.map_values(|f: T| Pull::Frame(f))
}

/// Turns frames and a fatal error, pushed at any time by the engine's
/// callbacks, into one ordered sequence for a single reader.
pub struct OutputBridge<T> {
    frames: VecDeque<T>,
    terminal: Option<Error>,
    attached: bool,
    finished: bool,
}

impl<T> View for OutputBridge<T> {
    type V = BridgeState<T>;

    closed spec fn view(&self) -> BridgeState<T> {
        BridgeState {
            queued: self.frames@,
            terminal: self.terminal,
            attached: self.attached,
            finished: self.finished,
        }
    }
}

impl<T> OutputBridge<T> {
    /// An open bridge with an empty queue and its consumer in place.
    pub fn new() -> (r: OutputBridge<T>)
        ensures
            r@ == BridgeState::<T>::initial(),
    {
        OutputBridge { frames: VecDeque::new(), terminal: None, attached: true, finished: false }
    }

    /// Called by the output callback. Queues `frame` while a consumer reads;
    /// otherwise closes the signal with `Error::Dropped` (if still open) and
    /// gives the frame back, so that the caller releases it.
    pub fn deliver(&mut self, frame: T) -> (r: Option<T>)
        ensures
            final(self)@ == old(self)@.deliver(frame),
            r == old(self)@.refused(frame),
    {
        if self.attached {
            self.frames.push_back(frame);
            None
        } else {
            if self.terminal.is_none() {
                self.terminal = Some(Error::Dropped);
            }
            Some(frame)
        }
    }

    /// Called by the error callback: closes the signal with `e`. A signal
    /// that is closed already keeps its first error.
    pub fn fail(&mut self, e: Error)
        ensures
            final(self)@ == old(self)@.fail(e),
    {
        if self.terminal.is_none() {
            self.terminal = Some(e);
        }
    }

    /// Called when the session that feeds the bridge is released.
    pub fn finish(&mut self)
        ensures
            final(self)@ == old(self)@.finish(),
    {
        self.finished = true;
    }

    /// One step of the reader: the oldest queued frame, else `Closed` if the
    /// signal is closed, else `Ended` if the session is released, else
    /// `Pending`.
    pub fn pull(&mut self) -> (r: Pull<T>)
        ensures
            r == old(self)@.pull_outcome(),
            final(self)@ == old(self)@.after_pull(),
    {
        match self.frames.pop_front() {
            Some(frame) => Pull::Frame(frame),
            None => {
                if self.terminal.is_some() {
                    Pull::Closed
                } else if self.finished {
                    Pull::Ended
                } else {
                    Pull::Pending
                }
            },
        }
    }

    /// The consumer leaves: every frame still queued is handed back, in
    /// order, and later deliveries are refused.
    pub fn detach(&mut self) -> (r: Vec<T>)
        ensures
            r@ == old(self)@.queued,
            final(self)@ == old(self)@.detach(),
    {
        let mut out: Vec<T> = Vec::new();
        while self.frames.len() > 0
            invariant
                out@ + self.frames@ == old(self)@.queued,
                self.terminal == old(self).terminal,
                self.attached == old(self).attached,
                self.finished == old(self).finished,
            decreases self.frames@.len(),
        {
            let frame = self.frames.pop_front();
            match frame {
                Some(f) => out.push(f),
                None => {},
            }
        }
        self.attached = false;
        proof {
            assert(out@ == old(self)@.queued);
            assert(self.frames@ =~= Seq::<T>::empty());
        }
        out
    }

    /// The error that closed the signal, if it is closed.
    pub fn terminal_error(&self) -> (r: Option<&Error>)
        ensures
            r is Some <==> self@.terminal is Some,
            r is Some ==> self@.terminal == Some(*r.unwrap()),
    {
        match &self.terminal {
            Some(e) => Some(e),
            None => None,
        }
    }

    /// Whether the signal is closed.
    pub fn is_closed(&self) -> (r: bool)
        ensures
            r <==> self@.terminal is Some,
    {
        self.terminal.is_some()
    }

    /// The number of frames waiting to be pulled.
    pub fn queued_len(&self) -> (r: usize)
        ensures
            r == self@.queued.len(),
    {
        self.frames.len()
    }
}

/// Delivering `frames` to an attached bridge appends them to the queue and
/// leaves the signal and the consumer as they were.
proof fn lemma_deliver_all_attached<T>(s: BridgeState<T>, frames: Seq<T>)
    requires
        s.attached,
    ensures
        s.deliver_all(frames).queued == s.queued + frames,
        s.deliver_all(frames).terminal == s.terminal,
        s.deliver_all(frames).attached,
    decreases frames.len(),
{
    if frames.len() > 0 {
        let t = s.deliver(frames[0]);
        lemma_deliver_all_attached(t, frames.drop_first());
        assert(s.queued.push(frames[0]) + frames.drop_first() =~= s.queued + frames);
    } else {
        assert(s.queued + frames =~= s.queued);
    }
}

/// Pulling no more times than there are queued frames yields them in order.
proof fn lemma_drain_queued<T>(s: BridgeState<T>, n: nat)
    requires
        n <= s.queued.len(),
    ensures
        s.drain(n) == as_pulls(s.queued.take(n as int)),
    decreases n,
{
    if n > 0 {
        let t = s.after_pull();
        lemma_drain_queued(t, (n - 1) as nat);
        assert(as_pulls(s.queued.take(n as int)) =~= seq![Pull::Frame(s.queued[0])] + as_pulls(
            t.queued.take(n - 1),
        ));
    } else {
        assert(as_pulls(s.queued.take(0)) =~= Seq::<Pull<T>>::empty());
    }
}

/// Frames come out in the order the engine delivered them, after those
/// already queued: nothing is reordered, duplicated or lost.
pub proof fn law_frames_in_order<T>(s: BridgeState<T>, frames: Seq<T>)
    requires
        s.attached,
    ensures
        s.deliver_all(frames).drain(s.queued.len() + frames.len()) == as_pulls(s.queued + frames),
{
    lemma_deliver_all_attached(s, frames);
    let t = s.deliver_all(frames);
    lemma_drain_queued(t, (s.queued.len() + frames.len()) as nat);
    assert(t.queued.take(t.queued.len() as int) =~= t.queued);
}

/// Once the signal is closed, no event changes its error, and every pull
/// after the queued frames are drained reports the closed signal.
pub proof fn law_terminal_is_permanent<T>(s: BridgeState<T>, frame: T, e: Error, n: nat)
    requires
        s.terminal is Some,
        s.queued.len() <= n,
    ensures
        s.deliver(frame).terminal == s.terminal,
        s.fail(e).terminal == s.terminal,
        s.after_pull().terminal == s.terminal,
        s.detach().terminal == s.terminal,
        s.finish().terminal == s.terminal,
        s.drain(n) == as_pulls(s.queued) + Seq::new(
            (n - s.queued.len()) as nat,
            |i: int| Pull::<T>::Closed,
        ),
    decreases n,
{
    if n > 0 {
        let t = s.after_pull();
        law_terminal_is_permanent(t, frame, e, (n - 1) as nat);
        if s.queued.len() > 0 {
            assert(as_pulls(s.queued) =~= seq![Pull::Frame(s.queued[0])] + as_pulls(t.queued));
            assert(s.drain(n) =~= as_pulls(s.queued) + Seq::new(
                (n - s.queued.len()) as nat,
                |i: int| Pull::<T>::Closed,
            ));
        } else {
            assert(as_pulls(s.queued) =~= Seq::<Pull<T>>::empty());
            assert(s.drain(n) =~= as_pulls(s.queued) + Seq::new(
                (n - s.queued.len()) as nat,
                |i: int| Pull::<T>::Closed,
            ));
        }
    } else {
        assert(as_pulls(s.queued) =~= Seq::<Pull<T>>::empty());
        assert(s.drain(n) =~= as_pulls(s.queued) + Seq::new(
            (n - s.queued.len()) as nat,
            |i: int| Pull::<T>::Closed,
        ));
    }
}

/// Every frame has exactly one holder at each step: a delivered frame is
/// either queued or handed back, a pulled frame leaves the queue as it is
/// handed out, and a detached consumer's frames are all handed back.
pub proof fn law_each_frame_has_one_holder<T>(s: BridgeState<T>, frame: T)
    ensures
        s.attached ==> s.deliver(frame).queued == s.queued.push(frame) && s.refused(frame) is None,
        !s.attached ==> s.deliver(frame).queued == s.queued && s.refused(frame) == Some(frame),
        s.pull_outcome() is Frame ==> seq![s.pull_outcome()->Frame_0] + s.after_pull().queued
            == s.queued,
        !(s.pull_outcome() is Frame) ==> s.after_pull().queued == s.queued && s.queued.len() == 0,
        s.detach().queued.len() == 0,
{
    if s.queued.len() > 0 {
        assert(seq![s.queued[0]] + s.queued.drop_first() =~= s.queued);
    }
}

} // verus!

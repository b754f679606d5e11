//! Bounded mailboxes shared between the session loops: the control-command
//! queue and the single-slot sink toward the display actuator.
use vstd::prelude::*;

use crate::pixel::PixelFrame;
use crate::session::Control;

verus! {

/// How many control commands may wait in the queue at once.
pub const CONTROL_QUEUE_DEPTH: usize = 32;

/// Bounded FIFO of control commands. Enqueue never blocks: a full queue
/// refuses the command. Commands leave in arrival order.
#[derive(Debug)]
pub struct ControlQueue {
    items: Vec<Control>,
}

impl View for ControlQueue {
    type V = Seq<Control>;

    closed spec fn view(&self) -> Seq<Control> {
        self.items@
    }
}

impl ControlQueue {
    /// The depth invariant: never more than `CONTROL_QUEUE_DEPTH` waiting.
    pub closed spec fn wf(&self) -> bool {
        self.items@.len() <= CONTROL_QUEUE_DEPTH
    }

    /// A fresh, empty queue.
    pub fn new() -> (q: ControlQueue)
        ensures
            q@ =~= Seq::<Control>::empty(),
            q.wf(),
    {
        ControlQueue { items: Vec::new() }
    }

    /// Number of commands waiting.
    pub fn len(&self) -> (n: usize)
        ensures
            n == self@.len(),
    {
        self.items.len()
    }

    /// Non-blocking enqueue: appends the command when there is room and
    /// reports whether it was accepted; a full queue is left unchanged.
    pub fn try_send(&mut self, c: Control) -> (accepted: bool)
        requires
            old(self).wf(),
        ensures
            final(self).wf(),
            accepted <==> old(self)@.len() < CONTROL_QUEUE_DEPTH,
            accepted ==> final(self)@ =~= old(self)@.push(c),
            !accepted ==> final(self)@ =~= old(self)@,
    {
        if self.items.len() < CONTROL_QUEUE_DEPTH {
            self.items.push(c);
            true
        } else {
            false
        }
    }

    /// Non-blocking dequeue: removes and returns the oldest command, or
    /// reports an empty queue unchanged.
    pub fn try_receive(&mut self) -> (r: Option<Control>)
        requires
            old(self).wf(),
        ensures
            final(self).wf(),
            r is Some <==> old(self)@.len() > 0,
            r matches Some(c) ==> c == old(self)@[0] && final(self)@ =~= old(self)@.skip(1),
            r is None ==> final(self)@ =~= old(self)@,
    {
        if self.items.len() > 0 {
            Some(self.items.remove(0))
        } else {
            None
        }
    }

    /// Discard everything waiting in the queue. The send loop runs this on
    /// entry so that commands enqueued before a reconnection completed are
    /// never sent over the new connection.
    pub fn drain(&mut self)
        requires
            old(self).wf(),
        ensures
            final(self).wf(),
            final(self)@ =~= Seq::<Control>::empty(),
    {
        self.items.clear();
    }
}

/// Single-slot, non-blocking channel toward the display actuator. When the
/// consumer has not drained the previous frame, the newest frame is refused
/// rather than blocking or overwriting: worst-case staleness is one frame.
#[derive(Debug)]
pub struct DisplaySink {
    slot: Option<PixelFrame>,
}

impl View for DisplaySink {
    type V = Option<Seq<crate::pixel::Rgb>>;

    closed spec fn view(&self) -> Option<Seq<crate::pixel::Rgb>> {
        match self.slot {
            None => None,
            Some(f) => Some(f@),
        }
    }
}

impl DisplaySink {
    /// A fresh, empty sink.
    pub fn new() -> (s: DisplaySink)
        ensures
            s@ is None,
    {
        DisplaySink { slot: None }
    }

    /// Non-blocking enqueue: stores the frame when the slot is free and
    /// reports whether it was accepted; a full sink is left unchanged.
    pub fn try_enqueue(&mut self, frame: PixelFrame) -> (accepted: bool)
        ensures
            accepted <==> old(self)@ is None,
            accepted ==> final(self)@ == Some(frame@),
            !accepted ==> final(self)@ == old(self)@,
    {
        match self.slot {
            None => {
                self.slot = Some(frame);
                true
            },
            Some(_) => false,
        }
    }

    /// Consumer side: remove and return the pending frame, if any.
    pub fn take(&mut self) -> (r: Option<PixelFrame>)
        ensures
            final(self)@ is None,
            r is Some <==> old(self)@ is Some,
            r matches Some(f) ==> old(self)@ == Some(f@),
    {
        self.slot.take()
    }
}

} // verus!

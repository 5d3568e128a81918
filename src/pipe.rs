//! The rendezvous slot of one path.
//!
//! A pipe holds at most one waiting sender and at most one waiting receiver,
//! never both: whichever party arrives second is matched with the first at
//! once and both leave the slot. A second party of a kind already waiting is
//! turned away and the slot keeps what it held.

use vstd::prelude::*;

verus! {

/// The slot of one path. `S` is what a waiting sender leaves behind, `R` what
/// a waiting receiver leaves behind.
pub struct Pipe<S, R> {
    pub data_sender: Option<S>,
    pub data_receiver: Option<R>,
}

/// What became of a sender that entered a pipe.
pub enum SenderEntry<S, R> {
    /// No receiver was waiting: the sender now waits in the pipe.
    Waiting,
    /// A receiver was waiting: both leave the pipe, to be wired together.
    Matched(S, R),
    /// Another sender is waiting: this one is turned away.
    Rejected(S),
}

/// What became of a receiver that entered a pipe.
pub enum ReceiverEntry<S, R> {
    /// No sender was waiting: the receiver now waits in the pipe.
    Waiting,
    /// A sender was waiting: both leave the pipe, to be wired together.
    Matched(S, R),
    /// Another receiver is waiting: this one is turned away.
    Rejected(R),
}

impl<S, R> Pipe<S, R> {
    /// A sender and a receiver never wait in the same pipe.
    pub open spec fn wf(&self) -> bool {
        !(self.data_sender is Some && self.data_receiver is Some)
    }

    pub open spec fn is_empty(&self) -> bool {
        self.data_sender is None && self.data_receiver is None
    }

    /// An empty pipe.
    pub fn new() -> (r: Self)
        ensures
            r.is_empty(),
            r.wf(),
    {
        Pipe { data_sender: None, data_receiver: None }
    }

    /// Whether a sender is waiting.
    pub fn has_sender(&self) -> (r: bool)
        ensures
            r == self.data_sender is Some,
    {
        self.data_sender.is_some()
    }

    /// Whether a receiver is waiting.
    pub fn has_receiver(&self) -> (r: bool)
        ensures
            r == self.data_receiver is Some,
    {
        self.data_receiver.is_some()
    }

    /// A sender `s` enters the pipe.
    pub fn enter_sender(&mut self, s: S) -> (r: SenderEntry<S, R>)
        ensures
            (*final(self), r) == sender_step(*old(self), s),
    {
        if self.data_sender.is_some() {
            return SenderEntry::Rejected(s);
        }
        match self.data_receiver.take() {
            Some(receiver) => SenderEntry::Matched(s, receiver),
            None => {
                self.data_sender = Some(s);
                SenderEntry::Waiting
            },
        }
    }

    /// A receiver `r` enters the pipe.
    pub fn enter_receiver(&mut self, r: R) -> (out: ReceiverEntry<S, R>)
        ensures
            (*final(self), out) == receiver_step(*old(self), r),
    {
        if self.data_receiver.is_some() {
            return ReceiverEntry::Rejected(r);
        }
        match self.data_sender.take() {
            Some(sender) => ReceiverEntry::Matched(sender, r),
            None => {
                self.data_receiver = Some(r);
                ReceiverEntry::Waiting
            },
        }
    }
}

/// The pipe after sender `s` enters `p`, and what became of `s`.
pub open spec fn sender_step<S, R>(p: Pipe<S, R>, s: S) -> (Pipe<S, R>, SenderEntry<S, R>) {
    match p.data_sender {
        Some(_) => (p, SenderEntry::Rejected(s)),
        None => match p.data_receiver {
            Some(r) => (Pipe { data_sender: None, data_receiver: None }, SenderEntry::Matched(s, r)),
            None => (Pipe { data_sender: Some(s), data_receiver: None }, SenderEntry::Waiting),
        },
    }
}

/// The pipe after receiver `r` enters `p`, and what became of `r`.
pub open spec fn receiver_step<S, R>(p: Pipe<S, R>, r: R) -> (Pipe<S, R>, ReceiverEntry<S, R>) {
    match p.data_receiver {
        Some(_) => (p, ReceiverEntry::Rejected(r)),
        None => match p.data_sender {
            Some(s) => (
                Pipe { data_sender: None, data_receiver: None },
                ReceiverEntry::Matched(s, r),
            ),
            None => (Pipe { data_sender: None, data_receiver: Some(r) }, ReceiverEntry::Waiting),
        },
    }
}

/// Entering a pipe keeps a sender and a receiver from waiting in it together,
/// and a match leaves the pipe empty.
pub proof fn lemma_steps_keep_wf<S, R>(p: Pipe<S, R>, s: S, r: R)
    requires
        p.wf(),
    ensures
        sender_step(p, s).0.wf(),
        receiver_step(p, r).0.wf(),
        sender_step(p, s).1 is Matched ==> sender_step(p, s).0.is_empty(),
        receiver_step(p, r).1 is Matched ==> receiver_step(p, r).0.is_empty(),
        sender_step(p, s).1 is Rejected ==> sender_step(p, s).0 == p,
        receiver_step(p, r).1 is Rejected ==> receiver_step(p, r).0 == p,
{
}

/// One sender and one receiver on an empty pipe are matched with each other,
/// in either order of arrival, and leave the pipe empty: the first waits, the
/// second finds it.
pub proof fn lemma_any_order_matches<S, R>(p: Pipe<S, R>, s: S, r: R)
    requires
        p.is_empty(),
    ensures
        sender_step(p, s).1 is Waiting,
        receiver_step(sender_step(p, s).0, r).1 == ReceiverEntry::<S, R>::Matched(s, r),
        receiver_step(sender_step(p, s).0, r).0.is_empty(),
        receiver_step(p, r).1 is Waiting,
        sender_step(receiver_step(p, r).0, s).1 == SenderEntry::<S, R>::Matched(s, r),
        sender_step(receiver_step(p, r).0, s).0.is_empty(),
{
}

/// Of two senders on a pipe where no receiver waits, in either order, the
/// first is accepted to wait and the second is turned away.
pub proof fn lemma_second_sender_rejected<S, R>(p: Pipe<S, R>, s1: S, s2: S)
    requires
        p.is_empty(),
    ensures
        sender_step(p, s1).1 is Waiting,
        sender_step(sender_step(p, s1).0, s2).1 == SenderEntry::<S, R>::Rejected(s2),
        sender_step(sender_step(p, s1).0, s2).0 == sender_step(p, s1).0,
        sender_step(p, s1).0.data_sender == Some(s1),
{
}

/// Of two receivers on a pipe where no sender waits, the first waits and the
/// second is turned away; the sender that comes next is matched with the first.
pub proof fn lemma_second_receiver_rejected<S, R>(p: Pipe<S, R>, r1: R, r2: R, s: S)
    requires
        p.is_empty(),
    ensures
        receiver_step(p, r1).1 is Waiting,
        receiver_step(receiver_step(p, r1).0, r2).1 == ReceiverEntry::<S, R>::Rejected(r2),
        sender_step(receiver_step(receiver_step(p, r1).0, r2).0, s).1 == SenderEntry::<
            S,
            R,
        >::Matched(s, r1),
{
}

} // verus!

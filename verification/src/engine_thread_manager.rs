//! The queue of control messages from the command reader to the search
//! worker.
//!
//! The command reader never waits for the worker: a command only puts a
//! message at the back of the queue. The worker takes messages from the
//! front, so they reach it in the order in which they were sent, each once.

use std::collections::VecDeque;
use vstd::prelude::*;

verus! {

/// A control signal for the search worker.
#[derive(Clone, Copy, Debug, PartialEq, Eq, Structural)]
pub enum MessageToEngine {
    /// Answer with a readiness acknowledgment once queued work is done.
    IsReady,
    /// The move that the worker was pondering on has been played.
    PonderHit,
    /// Abandon the search and report the best result so far.
    Stop,
}

/// The command reader's end of the queue, with the messages that the worker
/// has not taken yet.
pub struct EngineThreadManager {
    outbox: VecDeque<MessageToEngine>,
}

impl View for EngineThreadManager {
    type V = Seq<MessageToEngine>;

    /// The messages sent and not yet taken, oldest first.
    closed spec fn view(&self) -> Seq<MessageToEngine> {
        self.outbox@
    }
}

impl EngineThreadManager {
    /// A manager with nothing queued.
    pub fn new() -> (r: EngineThreadManager)
        ensures
            r@ == Seq::<MessageToEngine>::empty(),
    {
        EngineThreadManager { outbox: VecDeque::new() }
    }

    /// Takes the tokens of a `go` command. Search requests are not passed on
    /// to the worker yet: the queue stays as it is.
    pub fn cmd_go(&mut self, _tokens: &[String])
        ensures
            final(self)@ == old(self)@,
    {
    }

    /// Queues a readiness check.
    pub fn cmd_isready(&mut self)
        ensures
            final(self)@ == old(self)@.push(MessageToEngine::IsReady),
    {
        self.outbox.push_back(MessageToEngine::IsReady);
    }

    /// Queues the notice that the pondered move was played.
    pub fn cmd_ponderhit(&mut self)
        ensures
            final(self)@ == old(self)@.push(MessageToEngine::PonderHit),
    {
        self.outbox.push_back(MessageToEngine::PonderHit);
    }

    /// Takes the tokens of a `position` command. Positions are not passed on
    /// to the worker yet: the queue stays as it is.
    pub fn cmd_position(&mut self, _tokens: &[String])
        ensures
            final(self)@ == old(self)@,
    {
    }

    /// Takes the tokens of a `setoption` command. Options are not passed on
    /// to the worker yet: the queue stays as it is.
    pub fn cmd_setoption(&mut self, _tokens: &[String])
        ensures
            final(self)@ == old(self)@,
    {
    }

    /// Queues the request to stop searching.
    pub fn cmd_stop(&mut self)
        ensures
            final(self)@ == old(self)@.push(MessageToEngine::Stop),
    {
        self.outbox.push_back(MessageToEngine::Stop);
    }

    /// How many messages wait for the worker.
    pub fn pending(&self) -> (r: usize)
        ensures
            r == self@.len(),
    {
        self.outbox.len()
    }

    /// Hands the oldest waiting message to the worker and removes it from
    /// the queue; none where nothing waits.
    pub fn next_message(&mut self) -> (r: Option<MessageToEngine>)
        ensures
            match r {
                Some(message) => old(self)@.len() > 0 && message == old(self)@[0] && final(self)@
                    == old(self)@.skip(1),
                None => old(self)@.len() == 0 && final(self)@ == old(self)@,
            },
    {
        let r = self.outbox.pop_front();
        assert(old(self)@.len() > 0 ==> old(self)@.subrange(1, old(self)@.len() as int) =~= old(
            self,
        )@.skip(1));
        r
    }
}

/// Messages leave the queue in the order in which they were sent: after a
/// message is queued behind others, taking as many messages as waited
/// before leaves exactly that message at the front.
pub proof fn lemma_queue_is_fifo(queue: Seq<MessageToEngine>, message: MessageToEngine)
    ensures
        queue.push(message).skip(queue.len() as int) == seq![message],
        forall|i: int| 0 <= i < queue.len() ==> queue.push(message)[i] == queue[i],
{
    assert(queue.push(message).skip(queue.len() as int) =~= seq![message]);
}

} // verus!

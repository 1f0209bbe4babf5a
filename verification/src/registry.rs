//! The session registry: the process-wide shared state tracking the active
//! sessions' outbound message channels and the registered player identities.
//!
//! The two sequences are insertion ordered and deliberately uncorrelated: a
//! registered identity is not bound to a particular session index. Each
//! outbound channel is a FIFO queue: producers append at the back, the
//! session's writer takes from the front.

use vstd::prelude::*;

use crate::message::Message;
use crate::message::MessageModel;

verus! {

/// Shared state of the server: one outbound message queue per session, in
/// the order the sessions were registered, and the player identities, in the
/// order they were registered.
pub struct SessionRegistry {
    channels: Vec<Vec<Message>>,
    identities: Vec<String>,
}

impl SessionRegistry {
    /// The outbound channels as a sequence of message-model queues, front of
    /// each queue first.
    pub closed spec fn spec_channels(&self) -> Seq<Seq<MessageModel>> {
        self.channels@.map_values(|queue: Vec<Message>| queue@.map_values(|m: Message| m@))
    }

    /// The registered player identities, in registration order.
    pub closed spec fn spec_identities(&self) -> Seq<Seq<char>> {
        self.identities@.map_values(|name: String| name@)
    }

    /// A registry with no sessions and no identities.
    pub fn new() -> (registry: SessionRegistry)
        ensures
            registry.spec_channels() == Seq::<Seq<MessageModel>>::empty(),
            registry.spec_identities() == Seq::<Seq<char>>::empty(),
    {
        let registry = SessionRegistry { channels: Vec::new(), identities: Vec::new() };
        proof {
            assert(registry.spec_channels() =~~= Seq::<Seq<MessageModel>>::empty());
            assert(registry.spec_identities() =~~= Seq::<Seq<char>>::empty());
        }
        registry
    }

    /// Registers a new session: appends a fresh, empty outbound channel and
    /// returns the new session count. The new session has received nothing.
    pub fn register_session(&mut self) -> (session_count: usize)
        ensures
            final(self).spec_channels() == old(self).spec_channels().push(
                Seq::<MessageModel>::empty(),
            ),
            final(self).spec_identities() == old(self).spec_identities(),
            session_count == final(self).spec_channels().len(),
    {
        self.channels.push(Vec::new());
        proof {
            assert(self.spec_channels() =~~= old(self).spec_channels().push(
                Seq::<MessageModel>::empty(),
            ));
        }
        self.channels.len()
    }

    /// Registers a player identity: appends the name to the identity list.
    /// No session is bound to it.
    pub fn register_identity(&mut self, name: String)
        ensures
            final(self).spec_identities() == old(self).spec_identities().push(name@),
            final(self).spec_channels() == old(self).spec_channels(),
    {
        self.identities.push(name);
        proof {
            assert(self.spec_identities() =~~= old(self).spec_identities().push(name@));
            assert(self.spec_channels() =~~= old(self).spec_channels());
        }
    }

    /// The number of registered player identities.
    pub fn identity_count(&self) -> (count: usize)
        ensures
            count == self.spec_identities().len(),
    {
        self.identities.len()
    }

    /// The registered identity at the given position.
    pub fn identity_at(&self, position: usize) -> (name: &String)
        requires
            position < self.spec_identities().len(),
        ensures
            name@ == self.spec_identities()[position as int],
    {
        &self.identities[position]
    }

    /// The number of registered sessions.
    pub fn session_count(&self) -> (count: usize)
        ensures
            count == self.spec_channels().len(),
    {
        self.channels.len()
    }

    /// The number of messages waiting on one session's outbound channel.
    pub fn channel_len(&self, session: usize) -> (length: usize)
        requires
            session < self.spec_channels().len(),
        ensures
            length == self.spec_channels()[session as int].len(),
    {
        self.channels[session].len()
    }

    /// Appends a message to the back of one session's outbound channel; no
    /// other channel and no identity changes.
    pub fn enqueue_message(&mut self, session: usize, message: Message)
        requires
            session < old(self).spec_channels().len(),
        ensures
            final(self).spec_channels() == old(self).spec_channels().update(
                session as int,
                old(self).spec_channels()[session as int].push(message@),
            ),
            final(self).spec_identities() == old(self).spec_identities(),
    {
        self.channels[session].push(message);
        proof {
            assert(self.spec_channels() =~~= old(self).spec_channels().update(
                session as int,
                old(self).spec_channels()[session as int].push(message@),
            ));
        }
    }

    /// Takes the next message from the front of one session's outbound
    /// channel, in strict FIFO order: the message returned is the oldest one
    /// enqueued, and the rest keep their relative order. Returns nothing,
    /// and changes nothing, when the channel is empty.
    pub fn next_message(&mut self, session: usize) -> (message: Option<Message>)
        requires
            session < old(self).spec_channels().len(),
        ensures
            final(self).spec_identities() == old(self).spec_identities(),
            old(self).spec_channels()[session as int].len() == 0 ==> message is None
                && final(self).spec_channels() == old(self).spec_channels(),
            old(self).spec_channels()[session as int].len() > 0 ==> {
                &&& message matches Some(m) && m@ == old(self).spec_channels()[session as int][0]
                &&& final(self).spec_channels() == old(self).spec_channels().update(
                    session as int,
                    old(self).spec_channels()[session as int].drop_first(),
                )
            },
    {
        if self.channels[session].len() == 0 {
            return None;
        }
        let message = self.channels[session].remove(0);
        proof {
            assert(self.spec_channels() =~~= old(self).spec_channels().update(
                session as int,
                old(self).spec_channels()[session as int].drop_first(),
            ));
        }
        Some(message)
    }
}

/// Law: outbound channels deliver in enqueue order. Taking a message from a
/// channel returns its front and leaves the rest, so after `k` messages have
/// been taken from a channel whose queue was `queue`, the channel holds
/// `queue.skip(k)` and the next message taken is `queue[k]`: the `k`-th one
/// enqueued.
pub proof fn lemma_channel_fifo(queue: Seq<MessageModel>, k: int)
    requires
        0 <= k < queue.len(),
    ensures
        queue.skip(k)[0] == queue[k],
        queue.skip(k).drop_first() == queue.skip(k + 1),
{
    assert(queue.skip(k).drop_first() =~= queue.skip(k + 1));
}

} // verus!

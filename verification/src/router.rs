//! The broadcast router: general-purpose fan-out of a message to every
//! registered session's outbound channel.
//!
//! The surrounding thread receives each message from the process-wide global
//! receiver and hands it here; this step copies it onto every channel that
//! is registered at that moment, so a session registered afterwards does not
//! receive it. No producer feeds the global channel in the current flows —
//! the path is kept as correct, extensible infrastructure.

use vstd::prelude::*;

use crate::message::Message;
use crate::registry::SessionRegistry;

verus! {

/// Forwards one message received from the global receiver to every
/// currently registered session's outbound channel, in session order; the
/// identities and the session count stay as they are.
pub fn forward_messages_from_global_receiver_to_all_clients(
    registry: &mut SessionRegistry,
    message: &Message,
)
    ensures
        final(registry).spec_identities() == old(registry).spec_identities(),
        final(registry).spec_channels().len() == old(registry).spec_channels().len(),
        forall|j: int|
            0 <= j < old(registry).spec_channels().len()
                ==> #[trigger] final(registry).spec_channels()[j]
                == old(registry).spec_channels()[j].push(message@),
{
    let session_count = registry.session_count();
    let mut session: usize = 0;
    while session < session_count
        invariant
            session <= session_count,
            session_count == old(registry).spec_channels().len(),
            registry.spec_channels().len() == session_count,
            registry.spec_identities() == old(registry).spec_identities(),
            forall|j: int|
                0 <= j < session ==> #[trigger] registry.spec_channels()[j]
                    == old(registry).spec_channels()[j].push(message@),
            forall|j: int|
                session <= j < session_count ==> #[trigger] registry.spec_channels()[j]
                    == old(registry).spec_channels()[j],
        decreases session_count - session,
    {
        let copy = message.duplicate();
        registry.enqueue_message(session, copy);
        session = session + 1;
    }
}

} // verus!

//! The inbound wire protocol: decoding of the fixed-size client-to-server
//! frames and their effect on the session registry.
//!
//! A client frame is 32 bytes: byte 0 is the action code, bytes 1 to 31 are
//! the UTF-8 player name when the action registers an identity. Unknown
//! action codes are silently ignored so that newer clients stay compatible.

use vstd::prelude::*;

use vstd::utf8::decode_utf8;
use vstd::utf8::valid_utf8;

use crate::registry::SessionRegistry;

verus! {

/// Total byte length of one client-to-server frame.
pub const CLIENT_FRAME_LENGTH: usize = 32;

/// Greatest byte length of a player name: the frame bytes after the action
/// code, trailing padding included.
pub const USERNAME_MAX_LENGTH: usize = 31;

/// Action code of a frame to be discarded.
pub const MESSAGE_ACTION_IGNORED: u8 = 0;

/// Action code of a frame carrying a player name to register.
pub const MESSAGE_ACTION_SEND_USERNAME: u8 = 1;

/// The name bytes of a client frame: everything after the action code, the
/// trailing padding included (padding is not stripped).
pub open spec fn spec_username_bytes(frame: Seq<u8>) -> Seq<u8> {
    frame.subrange(1, CLIENT_FRAME_LENGTH as int)
}

/// What handling one inbound frame did.
#[derive(Clone, Copy, Debug, PartialEq, Eq)]
pub enum FrameOutcome {
    /// The frame carried a no-op or unknown action and was discarded.
    Ignored,
    /// The frame carried a player name, now registered.
    IdentityRegistered,
    /// The frame carried a name that is not valid UTF-8; the session is to
    /// be dropped.
    MalformedIdentity,
}

/// Relies on String::from_utf8: it succeeds exactly on valid UTF-8 input and
/// returns the string those bytes encode.
#[verifier::external_body]
fn bytes_into_string(bytes: Vec<u8>) -> (name: Option<String>)
    ensures
        name is Some <==> valid_utf8(bytes@),
        name matches Some(s) ==> s@ == decode_utf8(bytes@),
{
    String::from_utf8(bytes).ok()
}

/// Handles one inbound client frame: a name-registration frame registers
/// the carried player name (the raw name bytes, padding included) in the
/// registry; every other frame is ignored. No outbound channel changes.
pub fn handle_client_frame(registry: &mut SessionRegistry, frame: &Vec<u8>) -> (outcome:
    FrameOutcome)
    requires
        frame@.len() == CLIENT_FRAME_LENGTH,
    ensures
        final(registry).spec_channels() == old(registry).spec_channels(),
        frame@[0] != MESSAGE_ACTION_SEND_USERNAME ==> outcome is Ignored
            && final(registry).spec_identities() == old(registry).spec_identities(),
        frame@[0] == MESSAGE_ACTION_SEND_USERNAME && valid_utf8(spec_username_bytes(frame@))
            ==> outcome is IdentityRegistered
            && final(registry).spec_identities()
            == old(registry).spec_identities().push(decode_utf8(spec_username_bytes(frame@))),
        frame@[0] == MESSAGE_ACTION_SEND_USERNAME && !valid_utf8(spec_username_bytes(frame@))
            ==> outcome is MalformedIdentity
            && final(registry).spec_identities() == old(registry).spec_identities(),
{
    let action = frame[0];
    if action != MESSAGE_ACTION_SEND_USERNAME {
        return FrameOutcome::Ignored;
    }
    let mut username_bytes: Vec<u8> = Vec::new();
    let mut i: usize = 1;
    while i < CLIENT_FRAME_LENGTH
        invariant
            1 <= i <= CLIENT_FRAME_LENGTH,
            frame@.len() == CLIENT_FRAME_LENGTH,
            username_bytes@.len() == i - 1,
            forall|k: int| 0 <= k < i - 1 ==> username_bytes@[k] == frame@[k + 1],
        decreases CLIENT_FRAME_LENGTH - i,
    {
        username_bytes.push(frame[i]);
        i = i + 1;
    }
    proof {
        assert(username_bytes@ =~= spec_username_bytes(frame@));
    }
    match bytes_into_string(username_bytes) {
        Some(username) => {
            registry.register_identity(username);
            FrameOutcome::IdentityRegistered
        },
        None => FrameOutcome::MalformedIdentity,
    }
}

} // verus!

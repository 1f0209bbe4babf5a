//! The Message structure sent from the server to the clients, and its
//! fixed-size wire encoding.

use vstd::prelude::*;

verus! {

/// Number of payload bytes carried by every server-to-client message,
/// whatever its action: the largest payload is the 400-cell tile map, and
/// the frame size is kept constant so that no length field is needed.
pub const MESSAGE_DATA_LENGTH: usize = 400;

/// Total byte length of one encoded server-to-client frame:
/// one action byte followed by the payload.
pub const SERVER_FRAME_LENGTH: usize = 401;

/// Action code of the message that pushes the full tile map to a client.
pub const PUSH_MAP_ACTION: u8 = 1;

/// Action code of the message that signals the start of the game.
pub const START_GAME_ACTION: u8 = 2;

/// Mathematical model of a message: its action code and its payload bytes.
pub ghost struct MessageModel {
    pub action: u8,
    pub data: Seq<u8>,
}

/// The unit sent over the wire to clients: an action code and a fixed-length
/// payload buffer. The action is a raw byte, not an enumeration, so that the
/// wire layout is the same on every architecture.
pub struct Message {
    action: u8,
    data: Vec<u8>,
}

impl View for Message {
    type V = MessageModel;

    closed spec fn view(&self) -> MessageModel {
        MessageModel { action: self.action, data: self.data@ }
    }
}

/// A message is well formed when its payload buffer has exactly the fixed
/// payload length.
pub open spec fn message_wf(message: Message) -> bool {
    message@.data.len() == MESSAGE_DATA_LENGTH
}

/// The model of a freshly built message: the given action and an all-zero
/// payload.
pub open spec fn spec_new_message(action: u8) -> MessageModel {
    MessageModel { action, data: Seq::new(MESSAGE_DATA_LENGTH as nat, |i: int| 0u8) }
}

impl Message {
    /// Constructor: a message with the given action and a zero-filled
    /// payload.
    pub fn new(action: u8) -> (message: Message)
        ensures
            message@ == spec_new_message(action),
            message_wf(message),
    {
        let mut data: Vec<u8> = Vec::new();
        let mut i: usize = 0;
        while i < MESSAGE_DATA_LENGTH
            invariant
                i <= MESSAGE_DATA_LENGTH,
                data@.len() == i,
                forall|k: int| 0 <= k < i ==> data@[k] == 0u8,
            decreases MESSAGE_DATA_LENGTH - i,
        {
            data.push(0);
            i = i + 1;
        }
        proof {
            assert(data@ =~= spec_new_message(action).data);
        }
        Message { action, data }
    }

    /// Sets the payload to send (the full fixed-length buffer).
    pub fn set_data(&mut self, data: Vec<u8>)
        requires
            data@.len() == MESSAGE_DATA_LENGTH,
        ensures
            final(self)@.action == old(self)@.action,
            final(self)@.data == data@,
            message_wf(*final(self)),
    {
        self.data = data;
    }

    /// The message's action code.
    pub fn action(&self) -> (action: u8)
        ensures
            action == self@.action,
    {
        self.action
    }

    /// The message's payload bytes.
    pub fn data(&self) -> (data: &Vec<u8>)
        ensures
            data@ == self@.data,
    {
        &self.data
    }

    /// A fresh message with the same action and the same payload bytes, for
    /// handing one message to several sessions' channels.
    pub fn duplicate(&self) -> (copy: Message)
        ensures
            copy@ == self@,
    {
        Message { action: self.action, data: copy_bytes(&self.data) }
    }
}

/// Copies a payload buffer byte by byte.
pub fn copy_bytes(bytes: &Vec<u8>) -> (copy: Vec<u8>)
    ensures
        copy@ == bytes@,
{
    let mut copy: Vec<u8> = Vec::new();
    let mut i: usize = 0;
    while i < bytes.len()
        invariant
            i <= bytes@.len(),
            copy@.len() == i,
            forall|k: int| 0 <= k < i ==> copy@[k] == bytes@[k],
        decreases bytes@.len() - i,
    {
        copy.push(bytes[i]);
        i = i + 1;
    }
    proof {
        assert(copy@ =~= bytes@);
    }
    copy
}

/// The wire encoding of a message: the action byte followed by the payload
/// bytes, with no length prefix.
pub open spec fn spec_encoded_frame(message: MessageModel) -> Seq<u8> {
    seq![message.action] + message.data
}

/// Encodes a message into the fixed-size server-to-client frame.
pub fn encode_message(message: &Message) -> (frame: Vec<u8>)
    requires
        message_wf(*message),
    ensures
        frame@ == spec_encoded_frame(message@),
        frame@.len() == SERVER_FRAME_LENGTH,
        frame@[0] == message@.action,
        frame@.subrange(1, SERVER_FRAME_LENGTH as int) == message@.data,
{
    let mut frame: Vec<u8> = Vec::new();
    frame.push(message.action);
    let mut i: usize = 0;
    while i < MESSAGE_DATA_LENGTH
        invariant
            i <= MESSAGE_DATA_LENGTH,
            message.data@.len() == MESSAGE_DATA_LENGTH,
            frame@.len() == i + 1,
            frame@[0] == message@.action,
            forall|k: int| 0 <= k < i ==> frame@[k + 1] == message@.data[k],
        decreases MESSAGE_DATA_LENGTH - i,
    {
        frame.push(message.data[i]);
        i = i + 1;
    }
    proof {
        assert(frame@ =~= spec_encoded_frame(message@));
        assert(frame@.subrange(1, SERVER_FRAME_LENGTH as int) =~= message@.data);
    }
    frame
}

} // verus!

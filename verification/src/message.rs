use vstd::prelude::*;

verus! {

/// A change notification as it travels inside the process: it carries the
/// value itself.
#[derive(Debug, Clone)]
pub enum Message<V> {
    /// The value that the entry under `key` now has.
    SetValue { key: String, data: V },
    /// The value that the entry under `key` has, sent because it was asked for.
    Get { key: String, data: V },
}

/// What a [`Message`] says: its variant, the key as characters, the value.
pub ghost enum Notification<V> {
    SetValue { key: Seq<char>, data: V },
    Get { key: Seq<char>, data: V },
}

impl<V> View for Message<V> {
    type V = Notification<V>;

    open spec fn view(&self) -> Notification<V> {
        match *self {
            Message::SetValue { key, data } => Notification::SetValue { key: key@, data },
            Message::Get { key, data } => Notification::Get { key: key@, data },
        }
    }
}

/// The kind of a frame on the wire.
#[derive(Debug, Clone, Copy, PartialEq, Eq, Structural)]
pub enum WSMessageType {
    SetValue,
    Emit,
    Get,
    Error,
}

impl WSMessageType {
    /// The number that stands for the kind on the wire.
    pub open spec fn number(self) -> int {
        match self {
            WSMessageType::SetValue => 1,
            WSMessageType::Emit => 2,
            WSMessageType::Get => 3,
            WSMessageType::Error => 4,
        }
    }

    /// The number that stands for the kind on the wire.
    pub fn code(self) -> (c: u8)
        ensures
            c == self.number(),
    {
        match self {
            WSMessageType::SetValue => 1,
            WSMessageType::Emit => 2,
            WSMessageType::Get => 3,
            WSMessageType::Error => 4,
        }
    }

    /// The kind that a number on the wire stands for, if it stands for one.
    pub fn from_code(code: u8) -> (r: Option<WSMessageType>)
        ensures
            match r {
                Some(kind) => kind.number() == code,
                None => code < 1 || code > 4,
            },
    {
        if code == 1 {
            Some(WSMessageType::SetValue)
        } else if code == 2 {
            Some(WSMessageType::Emit)
        } else if code == 3 {
            Some(WSMessageType::Get)
        } else if code == 4 {
            Some(WSMessageType::Error)
        } else {
            None
        }
    }
}

/// A frame on the wire. `data`, where present, is the text form of a value
/// of the concrete type that `key` was registered with.
#[derive(Debug)]
pub struct WSMessage {
    pub message_type: WSMessageType,
    pub key: Option<String>,
    pub data: Option<String>,
}

/// What a [`WSMessage`] says, with its texts as characters.
pub ghost struct Frame {
    pub message_type: WSMessageType,
    pub key: Option<Seq<char>>,
    pub data: Option<Seq<char>>,
}

impl View for WSMessage {
    type V = Frame;

    open spec fn view(&self) -> Frame {
        Frame {
            message_type: self.message_type,
            key: match self.key {
                Some(key) => Some(key@),
                None => None,
            },
            data: match self.data {
                Some(data) => Some(data@),
                None => None,
            },
        }
    }
}

} // verus!

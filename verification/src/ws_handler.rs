use crate::event_handler::EventHandler;
use crate::message::{Frame, Message, Notification, WSMessage, WSMessageType};
use crate::poca::{query_outcome, text_outcome, written, Engine, Poca};
use crate::store::{Error, Store};
use crate::synchronizable::Synchronizable;
use crate::trace::Step;
use vstd::prelude::*;

verus! {

/// The frame that carries a notification to a client: the kind of the
/// notification, its key, and the text form of its value.
pub open spec fn frame_of<V: Synchronizable>(notification: Notification<V>) -> Frame {
    match notification {
        Notification::SetValue { key, data } => Frame {
            message_type: WSMessageType::SetValue,
            key: Some(key),
            data: Some(data.text()),
        },
        Notification::Get { key, data } => Frame {
            message_type: WSMessageType::Get,
            key: Some(key),
            data: Some(data.text()),
        },
    }
}

/// The frame that tells a client that what it sent was refused: it names the
/// key that the client gave, if it gave one, and the error.
pub open spec fn error_frame(error: Error, key: Option<Seq<char>>) -> Frame {
    Frame { message_type: WSMessageType::Error, key, data: Some(error.text()) }
}

/// The frames that bring a client up to date: for each registered key, in
/// the order of registration, the value kept under it.
pub open spec fn snapshot_of<V: Synchronizable, H>(engine: Engine<V, H>) -> Seq<Frame> {
    Seq::new(
        engine.keys.len(),
        |i: int|
            Frame {
                message_type: WSMessageType::SetValue,
                key: Some(engine.keys[i]),
                data: Some(engine.store[engine.keys[i]].data.text()),
            },
    )
}

/// The frames for a session that fell behind: an error frame that tells the
/// client of the gap, then the frames that bring it up to date.
pub open spec fn resync_of<V: Synchronizable, H>(engine: Engine<V, H>) -> Seq<Frame> {
    seq![error_frame(Error::ChannelLag, None)] + snapshot_of(engine)
}

/// What the frames of a list say, in order.
pub open spec fn frames_of(frames: Seq<WSMessage>) -> Seq<Frame> {
    Seq::new(frames.len(), |i: int| frames[i]@)
}

/// The frame that carries `message` to a client.
pub fn outbound_frame<V: Synchronizable>(message: &Message<V>) -> (frame: WSMessage)
    ensures
        frame@ == frame_of(message@),
{
    match message {
        Message::SetValue { key, data } => WSMessage {
            message_type: WSMessageType::SetValue,
            key: Some(key.clone()),
            data: Some(data.serialize()),
        },
        Message::Get { key, data } => WSMessage {
            message_type: WSMessageType::Get,
            key: Some(key.clone()),
            data: Some(data.serialize()),
        },
    }
}

/// The frame that reports `error` to the client that sent `frame`.
pub fn error_reply(error: Error, frame: &WSMessage) -> (reply: WSMessage)
    ensures
        reply@ == error_frame(error, frame@.key),
{
    WSMessage {
        message_type: WSMessageType::Error,
        key: match &frame.key {
            Some(key) => Some(key.clone()),
            None => None,
        },
        data: Some(error.name().to_owned()),
    }
}

/// The frames that bring a client up to date; see [`snapshot_of`].
pub fn snapshot<V: Synchronizable + Clone, H: EventHandler<V>>(poca: &Poca<V, H>) -> (frames: Vec<
    WSMessage,
>)
    requires
        poca.wf(),
    ensures
        frames_of(frames@) == snapshot_of(poca@),
{
    let store = poca.store();
    let n: usize = store.len();
    let mut frames: Vec<WSMessage> = Vec::new();
    let mut i: usize = 0;
    while i < n
        invariant
            i <= n,
            n == store.keys().len(),
            store.wf(),
            store@ == poca@.store,
            store.keys() == poca@.keys,
            frames@.len() == i,
            forall|j: int| 0 <= j < i ==> (#[trigger] frames@[j])@ == snapshot_of(poca@)[j],
        decreases n - i,
    {
        let (key, element) = store.entry(i);
        frames.push(
            WSMessage {
                message_type: WSMessageType::SetValue,
                key: Some(key.to_owned()),
                data: Some(element.data.serialize()),
            },
        );
        i = i + 1;
    }
    assert(frames_of(frames@) =~= snapshot_of(poca@));
    frames
}

/// Why a frame that asks for a write is refused in `engine`, if it is: a
/// frame without a key, or with one that is not registered, names an unknown
/// key; one without data, or with data that does not parse in the concrete
/// type of the entry, fails to deserialize.
pub open spec fn refusal<V: Synchronizable, H>(engine: Engine<V, H>, frame: Frame) -> Option<
    Error,
> {
    match frame.key {
        None => Some(Error::UnknownKey),
        Some(key) => if !engine.store.contains_key(key) {
            Some(Error::UnknownKey)
        } else {
            match frame.data {
                None => Some(Error::DeserializationFailure),
                Some(data) => if engine.store[key].data.parse(data) is None {
                    Some(Error::DeserializationFailure)
                } else {
                    None
                },
            }
        },
    }
}

/// Whether `post` and `reply` are what a frame from a client makes of `pre`.
///
/// A frame that asks for a write and is refused changes nothing and is
/// answered with an error frame; one that is accepted is applied as
/// [`written`] says and not answered. A frame that asks for a value has the
/// value published to every subscription, or is answered with an error frame
/// where the key is unknown. Frames of the two other kinds are passed over.
pub open spec fn inbound_outcome<V: Synchronizable, H: EventHandler<V>>(
    pre: Engine<V, H>,
    frame: Frame,
    post: Engine<V, H>,
    reply: Option<Frame>,
) -> bool {
    match frame.message_type {
        WSMessageType::SetValue => match refusal(pre, frame) {
            Some(error) => post == pre && reply == Some(error_frame(error, frame.key)),
            None => reply is None && written(
                pre,
                frame.key->0,
                pre.store[frame.key->0].data.parse(frame.data->0)->0,
                post,
            ),
        },
        WSMessageType::Get => if frame.key is Some && pre.store.contains_key(frame.key->0) {
            reply is None && post == (Engine {
                trace: pre.trace.push(
                    Step::Published(
                        Notification::Get { key: frame.key->0, data: pre.store[frame.key->0].data },
                    ),
                ),
                ..pre
            })
        } else {
            post == pre && reply == Some(error_frame(Error::UnknownKey, frame.key))
        },
        WSMessageType::Emit | WSMessageType::Error => post == pre && reply is None,
    }
}

/// The view of an optional frame.
pub open spec fn reply_of(reply: Option<WSMessage>) -> Option<Frame> {
    match reply {
        Some(frame) => Some(frame@),
        None => None,
    }
}

/// Acts on a frame that a client sent and returns what is to be sent back
/// to that client, if anything; see [`inbound_outcome`].
pub fn on_frame<V: Synchronizable + Clone, H: EventHandler<V>>(
    poca: &mut Poca<V, H>,
    frame: &WSMessage,
) -> (reply: Option<WSMessage>)
    requires
        old(poca).wf(),
    ensures
        final(poca).wf(),
        inbound_outcome(old(poca)@, frame@, final(poca)@, reply_of(reply)),
{
    match frame.message_type {
        WSMessageType::SetValue => {
            let outcome = match &frame.key {
                None => Err(Error::UnknownKey),
                Some(key) => match &frame.data {
                    None => if poca.store().contains(key.as_str()) {
                        Err(Error::DeserializationFailure)
                    } else {
                        Err(Error::UnknownKey)
                    },
                    Some(data) => poca.apply_text(key.as_str(), data.as_str()),
                },
            };
            match outcome {
                Ok(_) => None,
                Err(error) => Some(error_reply(error, frame)),
            }
        },
        WSMessageType::Get => {
            let outcome = match &frame.key {
                None => Err(Error::UnknownKey),
                Some(key) => poca.query(key.as_str()),
            };
            match outcome {
                Ok(_) => None,
                Err(error) => Some(error_reply(error, frame)),
            }
        },
        WSMessageType::Emit => None,
        WSMessageType::Error => None,
    }
}

/// What the subscription of a session yields.
pub enum BusEvent<V> {
    /// A notification.
    Message(Message<V>),
    /// The session fell behind and missed this many notifications.
    Lagged(u64),
    /// The bus is gone.
    Closed,
}

/// What the connection of a session yields.
pub enum ClientEvent {
    /// A frame from the client.
    Frame(WSMessage),
    /// Something from the client that is no frame.
    Malformed,
    /// The connection ended or failed.
    End,
}

/// One session: the two halves of a connection, which end together.
pub struct Session {
    open: bool,
}

impl Session {
    /// Whether the session is still running.
    pub closed spec fn is_open(&self) -> bool {
        self.open
    }

    /// A running session.
    pub fn new() -> (session: Self)
        ensures
            session.is_open(),
    {
        Session { open: true }
    }

    /// Whether the session is still running.
    pub fn running(&self) -> (open: bool)
        ensures
            open == self.is_open(),
    {
        self.open
    }

    /// Ends the session, as after a write to the client that failed.
    pub fn close(&mut self)
        ensures
            !final(self).is_open(),
    {
        self.open = false;
    }

    /// The outbound half: what is to be written to the client for what the
    /// subscription yielded. A notification becomes its frame. A session
    /// that fell behind is told so and brought up to date with the whole
    /// current state. When the bus is gone the session ends. A session that
    /// has ended writes nothing.
    pub fn on_bus<V: Synchronizable + Clone, H: EventHandler<V>>(
        &mut self,
        poca: &Poca<V, H>,
        event: BusEvent<V>,
    ) -> (frames: Vec<WSMessage>)
        requires
            poca.wf(),
        ensures
            !old(self).is_open() ==> !final(self).is_open() && frames@.len() == 0,
            old(self).is_open() ==> match event {
                BusEvent::Message(message) => final(self).is_open() && frames_of(frames@)
                    == seq![frame_of(message@)],
                BusEvent::Lagged(_) => final(self).is_open() && frames_of(frames@) == resync_of(
                    poca@,
                ),
                BusEvent::Closed => !final(self).is_open() && frames@.len() == 0,
            },
    {
        if !self.open {
            return Vec::new();
        }
        match event {
            BusEvent::Message(message) => {
                let mut frames: Vec<WSMessage> = Vec::new();
                frames.push(outbound_frame(&message));
                assert(frames_of(frames@) =~= seq![frame_of(message@)]);
                frames
            },
            BusEvent::Lagged(_) => {
                let mut frames: Vec<WSMessage> = Vec::new();
                frames.push(
                    WSMessage {
                        message_type: WSMessageType::Error,
                        key: None,
                        data: Some(Error::ChannelLag.name().to_owned()),
                    },
                );
                let mut state = snapshot(poca);
                frames.append(&mut state);
                assert(frames_of(frames@) =~= resync_of(poca@));
                frames
            },
            BusEvent::Closed => {
                self.open = false;
                Vec::new()
            },
        }
    }

    /// The inbound half: acts on what the connection yielded and returns
    /// what is to be sent back to this client, if anything. A frame is acted
    /// on as [`inbound_outcome`] says. What is no frame is answered with an
    /// error frame and changes nothing. When the connection has ended the
    /// session ends. A session that has ended acts on nothing.
    pub fn on_client<V: Synchronizable + Clone, H: EventHandler<V>>(
        &mut self,
        poca: &mut Poca<V, H>,
        event: ClientEvent,
    ) -> (reply: Option<WSMessage>)
        requires
            old(poca).wf(),
        ensures
            final(poca).wf(),
            !old(self).is_open() ==> !final(self).is_open() && reply is None && final(poca)@
                == old(poca)@,
            old(self).is_open() ==> match event {
                ClientEvent::Frame(frame) => final(self).is_open() && inbound_outcome(
                    old(poca)@,
                    frame@,
                    final(poca)@,
                    reply_of(reply),
                ),
                ClientEvent::Malformed => final(self).is_open() && final(poca)@ == old(poca)@
                    && reply_of(reply) == Some(
                    error_frame(Error::DeserializationFailure, None),
                ),
                ClientEvent::End => !final(self).is_open() && reply is None && final(poca)@
                    == old(poca)@,
            },
    {
        if !self.open {
            return None;
        }
        match event {
            ClientEvent::Frame(frame) => on_frame(poca, &frame),
            ClientEvent::Malformed => Some(
                WSMessage {
                    message_type: WSMessageType::Error,
                    key: None,
                    data: Some(Error::DeserializationFailure.name().to_owned()),
                },
            ),
            ClientEvent::End => {
                self.open = false;
                None
            },
        }
    }
}

/// What a session waits for: whichever of its two sources yields first.
pub enum SessionEvent<V> {
    /// The subscription yielded.
    Bus(BusEvent<V>),
    /// The connection yielded.
    Client(ClientEvent),
}

/// The frames that answer a client: the reply, if there is one.
pub open spec fn answer_of(reply: Option<Frame>) -> Seq<Frame> {
    match reply {
        Some(answer) => seq![answer],
        None => Seq::empty(),
    }
}

/// Whether a session that was `open` and an engine `pre` are, after one turn
/// on `event`, a session that is `still_open` and the engine `post`, with
/// `frames` to write to the client.
pub open spec fn turn_outcome<V: Synchronizable, H: EventHandler<V>>(
    open: bool,
    pre: Engine<V, H>,
    event: SessionEvent<V>,
    still_open: bool,
    post: Engine<V, H>,
    frames: Seq<Frame>,
) -> bool {
    if !open {
        !still_open && post == pre && frames.len() == 0
    } else {
        match event {
            SessionEvent::Bus(BusEvent::Message(message)) => still_open && post == pre && frames
                == seq![frame_of(message@)],
            SessionEvent::Bus(BusEvent::Lagged(_)) => still_open && post == pre && frames
                == resync_of(pre),
            SessionEvent::Bus(BusEvent::Closed) => !still_open && post == pre && frames.len()
                == 0,
            SessionEvent::Client(ClientEvent::Frame(frame)) => still_open && exists|
                reply: Option<Frame>,
            |
                #[trigger] inbound_outcome(pre, frame@, post, reply) && frames == answer_of(
                    reply,
                ),
            SessionEvent::Client(ClientEvent::Malformed) => still_open && post == pre && frames
                == seq![error_frame(Error::DeserializationFailure, None)],
            SessionEvent::Client(ClientEvent::End) => !still_open && post == pre && frames.len()
                == 0,
        }
    }
}

/// One turn of a session: acts on what one of its two sources yielded and
/// returns the frames to write to the client of this session, in order.
///
/// What the subscription yielded is handled as [`Session::on_bus`] says and
/// leaves the engine as it is; what the connection yielded is handled as
/// [`Session::on_client`] says, and the reply, if there is one, is the one
/// frame returned. The session runs until either source ends it.
pub fn websocket_handler<V: Synchronizable + Clone, H: EventHandler<V>>(
    session: &mut Session,
    poca: &mut Poca<V, H>,
    event: SessionEvent<V>,
) -> (frames: Vec<WSMessage>)
    requires
        old(poca).wf(),
    ensures
        final(poca).wf(),
        turn_outcome(
            old(session).is_open(),
            old(poca)@,
            event,
            final(session).is_open(),
            final(poca)@,
            frames_of(frames@),
        ),
{
    match event {
        SessionEvent::Bus(event) => session.on_bus(poca, event),
        SessionEvent::Client(event) => {
            let ghost was_open = session.is_open();
            let ghost sent = event;
            let reply = session.on_client(poca, event);
            let ghost answer = reply_of(reply);
            let mut frames: Vec<WSMessage> = Vec::new();
            match reply {
                Some(frame) => {
                    frames.push(frame);
                    assert(frames_of(frames@) =~= answer_of(answer));
                },
                None => {
                    assert(frames_of(frames@) =~= answer_of(answer));
                },
            }
            proof {
                if was_open {
                    match sent {
                        ClientEvent::Frame(frame) => {
                            assert(inbound_outcome(old(poca)@, frame@, poca@, answer));
                        },
                        ClientEvent::Malformed => {},
                        ClientEvent::End => {},
                    }
                }
            }
            frames
        },
    }
}

} // verus!

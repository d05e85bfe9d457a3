use crate::app_routes::AppRoutes;
use crate::bus::{send, CHANNEL_SIZE};
use crate::event_handler::{fire, fired, EventHandler, Write};
use crate::message::{Message, Notification};
use crate::store::{DataElementInner, Element, Error, Store};
use crate::data_handle::DataHandle;
use crate::synchronizable::{DataToAny, Synchronizable};
use crate::trace::{calls_of, published_of, Step};
use tokio::sync::broadcast::{Receiver, Sender};
use vstd::prelude::*;

verus! {

/// How the window that shows the served page is to look.
pub struct WindowOptions {
    title: String,
    size: (u32, u32),
    resizable: bool,
}

impl WindowOptions {
    /// The title of the window.
    pub closed spec fn spec_title(&self) -> Seq<char> {
        self.title@
    }

    /// The width and the height of the window.
    pub closed spec fn spec_size(&self) -> (u32, u32) {
        self.size
    }

    /// Whether the size of the window can be changed.
    pub closed spec fn spec_resizable(&self) -> bool {
        self.resizable
    }

    /// Window options with the given title, size and resizability.
    pub fn new(title: &str, size: (u32, u32), resizable: bool) -> (options: Self)
        ensures
            options.spec_title() == title@,
            options.spec_size() == size,
            options.spec_resizable() == resizable,
    {
        WindowOptions { title: title.to_owned(), size, resizable }
    }

    /// The width and the height of the window.
    #[verifier::when_used_as_spec(spec_size)]
    pub fn size(&self) -> (size: (u32, u32))
        ensures
            size == self.spec_size(),
    {
        self.size
    }

    /// Whether the size of the window can be changed.
    #[verifier::when_used_as_spec(spec_resizable)]
    pub fn resizable(&self) -> (resizable: bool)
        ensures
            resizable == self.spec_resizable(),
    {
        self.resizable
    }

    /// The title of the window.
    pub fn title(&self) -> (title: &str)
        ensures
            title@ == self.spec_title(),
    {
        self.title.as_str()
    }
}

impl Default for WindowOptions {
    /// A fixed window of 640 by 480 with the title `Poca App`.
    fn default() -> (options: WindowOptions)
        ensures
            options.spec_title() == "Poca App"@,
            options.spec_size() == (640u32, 480u32),
            !options.spec_resizable(),
    {
        WindowOptions { title: "Poca App".to_owned(), size: (640, 480), resizable: false }
    }
}

/// Whether the server is accepting connections.
#[derive(Clone, Copy, PartialEq, Eq, Structural, Debug)]
pub enum ServerState {
    Up,
    Down,
}

/// The synchronization engine: the store, the bus, and the writes that
/// listeners have asked for and that are not applied yet.
///
/// `V` is the type of the stored values and `H` that of the listeners.
#[verifier::reject_recursive_types(V)]
pub struct Poca<V, H> {
    state: ServerState,
    store: Store<V, H>,
    broadcast: (Sender<Message<V>>, Receiver<Message<V>>),
    pending: Vec<Write<V>>,
    app_routes: AppRoutes<'static>,
    window_options: WindowOptions,
    window_shown: bool,
    trace: Ghost<Seq<Step<V>>>,
}

/// What a [`Poca`] holds, as far as synchronization goes.
pub ghost struct Engine<V, H> {
    pub state: ServerState,
    /// Whether the window is shown.
    pub window_shown: bool,
    /// What is kept under each registered key.
    pub store: Map<Seq<char>, Element<V, H>>,
    /// The registered keys, in the order of their registration.
    pub keys: Seq<Seq<char>>,
    /// The writes that listeners have asked for, oldest first.
    pub pending: Seq<Write<V>>,
    /// What the engine did towards the outside so far, oldest first: each
    /// call of a listener and each notification handed to the bus.
    pub trace: Seq<Step<V>>,
}

impl<V, H> Engine<V, H> {
    /// Every notification handed to the bus so far, oldest first.
    pub open spec fn published(self) -> Seq<Notification<V>> {
        published_of(self.trace)
    }
}

/// Whether `post` is `pre` after `value` was written under `key`: the value
/// stands in the entry, with the entry's listeners and all other entries as
/// they were; then each listener of the entry was handed the value once, in
/// the order of registration, and what they returned is queued behind what
/// was pending, in that order; and after the last listener one notification
/// of the new value was handed to the bus. Nothing else has changed.
pub open spec fn written<V, H: EventHandler<V>>(
    pre: Engine<V, H>,
    key: Seq<char>,
    value: V,
    post: Engine<V, H>,
) -> bool {
    &&& pre.store.contains_key(key)
    &&& post == (Engine {
        store: pre.store.insert(key, Element { data: value, on_change: pre.store[key].on_change }),
        trace: (pre.trace + calls_of(key, pre.store[key].on_change.len(), value)).push(
            Step::Published(Notification::SetValue { key, data: value }),
        ),
        pending: post.pending,
        ..pre
    })
    &&& exists|reactions: Seq<Seq<Write<V>>>| #[trigger]
        fired(pre.store[key].on_change, value, reactions) && post.pending == pre.pending
            + reactions.flatten()
}

/// Whether `post` and `refusal` are what a registration of `key` with
/// `value` makes of `pre`. A key that is registered already is refused as a
/// conflict, and everything stays as it was; any other key is entered behind
/// the registered ones, with `value` and no listeners.
pub open spec fn register_outcome<V, H>(
    pre: Engine<V, H>,
    key: Seq<char>,
    value: V,
    post: Engine<V, H>,
    refusal: Option<Error>,
) -> bool {
    if pre.store.contains_key(key) {
        refusal == Some(Error::RegistrationConflict) && post == pre
    } else {
        refusal is None && post == (Engine {
            store: pre.store.insert(key, Element { data: value, on_change: Seq::empty() }),
            keys: pre.keys.push(key),
            ..pre
        })
    }
}

/// Whether `post` and `r` are what a write of `value` under `key` makes of
/// `pre`. A key that is not registered is refused as unknown and a value
/// that is not of the concrete type of the entry as a mismatch, both leaving
/// everything as it was; any other write goes through as [`written`] says.
pub open spec fn write_outcome<V: Synchronizable, H: EventHandler<V>>(
    pre: Engine<V, H>,
    key: Seq<char>,
    value: V,
    post: Engine<V, H>,
    r: Result<usize, Error>,
) -> bool {
    if !pre.store.contains_key(key) {
        r == Err::<usize, Error>(Error::UnknownKey) && post == pre
    } else if !pre.store[key].data.same_type(&value) {
        r == Err::<usize, Error>(Error::TypeMismatch) && post == pre
    } else {
        r is Ok && written(pre, key, value, post)
    }
}

/// Whether `post` and `r` are what a write under `key` of the value that
/// the text `data` stands for makes of `pre`. The text is read in the
/// concrete type of the entry, never in one that the text names. A key that
/// is not registered is refused as unknown and a text that does not parse as
/// a failure to deserialize, both leaving everything as it was; any other
/// write goes through as [`written`] says.
pub open spec fn text_outcome<V: Synchronizable, H: EventHandler<V>>(
    pre: Engine<V, H>,
    key: Seq<char>,
    data: Seq<char>,
    post: Engine<V, H>,
    r: Result<usize, Error>,
) -> bool {
    if !pre.store.contains_key(key) {
        r == Err::<usize, Error>(Error::UnknownKey) && post == pre
    } else {
        match pre.store[key].data.parse(data) {
            None => r == Err::<usize, Error>(Error::DeserializationFailure) && post == pre,
            Some(value) => r is Ok && written(pre, key, value, post),
        }
    }
}

/// Whether `post` and `r` are what a query for `key` makes of `pre`: one
/// notification of the value kept under the key is handed to the bus, and
/// nothing else changes. A key that is not registered is refused as unknown.
pub open spec fn query_outcome<V, H>(
    pre: Engine<V, H>,
    key: Seq<char>,
    post: Engine<V, H>,
    r: Result<usize, Error>,
) -> bool {
    if !pre.store.contains_key(key) {
        r == Err::<usize, Error>(Error::UnknownKey) && post == pre
    } else {
        r is Ok && post == (Engine {
            trace: pre.trace.push(
                Step::Published(Notification::Get { key, data: pre.store[key].data }),
            ),
            ..pre
        })
    }
}

impl<V: Synchronizable + Clone, H: EventHandler<V>> Poca<V, H> {
    /// What the engine holds.
    pub closed spec fn view(&self) -> Engine<V, H> {
        Engine {
            state: self.state,
            window_shown: self.window_shown,
            store: self.store@,
            keys: self.store.keys(),
            pending: self.pending@,
            trace: self.trace@,
        }
    }

    /// Whether a value of the type is a valid engine.
    pub closed spec fn wf(self) -> bool {
        self.store.wf()
    }

    /// The keys of the store are the registered keys, each once.
    pub proof fn keys_are_the_domain(self)
        requires
            self.wf(),
        ensures
            self@.keys.no_duplicates(),
            forall|key: Seq<char>| self@.store.contains_key(key) <==> self@.keys.contains(key),
    {
        self.store.keys_are_the_domain();
    }

    /// An engine with an empty store and a new bus, the server being down.
    /// Without window options the default ones are taken.
    pub fn new(app_routes: AppRoutes<'static>, window_options: Option<WindowOptions>) -> (poca:
        Self)
        ensures
            poca.wf(),
            poca@.state == ServerState::Down,
            !poca@.window_shown,
            poca@.store == Map::<Seq<char>, Element<V, H>>::empty(),
            poca@.keys == Seq::<Seq<char>>::empty(),
            poca@.pending == Seq::<Write<V>>::empty(),
            poca@.trace == Seq::<Step<V>>::empty(),
            poca.routes() == app_routes,
            match window_options {
                Some(options) => poca.options() == options,
                None => poca.options().spec_title() == "Poca App"@ && poca.options().spec_size()
                    == (640u32, 480u32) && !poca.options().spec_resizable(),
            },
    {
        let channel = tokio::sync::broadcast::channel(CHANNEL_SIZE);
        let window_options = match window_options {
            Some(options) => options,
            None => WindowOptions::default(),
        };
        Poca {
            state: ServerState::Down,
            store: Store::new(),
            broadcast: channel,
            pending: Vec::new(),
            app_routes,
            window_options,
            window_shown: false,
            trace: Ghost(Seq::empty()),
        }
    }

    /// Whether the server is up.
    pub fn get_state(&self) -> (state: ServerState)
        ensures
            state == self@.state,
    {
        self.state
    }

    /// The route tree that static requests are served from.
    pub closed spec fn routes(&self) -> AppRoutes<'static> {
        self.app_routes
    }

    /// How the window is to look.
    pub closed spec fn options(&self) -> WindowOptions {
        self.window_options
    }

    /// The route tree that static requests are served from.
    pub fn app_routes(&self) -> (routes: &AppRoutes<'static>)
        ensures
            *routes == self.routes(),
    {
        &self.app_routes
    }

    /// How the window is to look.
    pub fn window_options(&self) -> (options: &WindowOptions)
        ensures
            *options == self.options(),
    {
        &self.window_options
    }

    /// The store, to read from.
    pub fn store(&self) -> (store: &Store<V, H>)
        ensures
            store@ == self@.store,
            store.keys() == self@.keys,
            self.wf() ==> store.wf(),
    {
        &self.store
    }

    /// A new subscription to the bus, for one session. It receives what is
    /// published from now on.
    pub fn subscribe(&self) -> Receiver<Message<V>> {
        self.broadcast.0.subscribe()
    }

    /// Marks the server as accepting connections.
    pub fn start(&mut self)
        ensures
            final(self)@ == (Engine { state: ServerState::Up, ..old(self)@ }),
            final(self).wf() == old(self).wf(),
    {
        self.state = ServerState::Up;
    }

    /// Stops a server that is up, and says whether it was: if so, the window
    /// is marked as gone too, and the caller has the window, the accept task
    /// and every session to end. A server that is down stays as it is.
    pub fn stop(&mut self) -> (was_up: bool)
        ensures
            was_up == (old(self)@.state == ServerState::Up),
            was_up ==> final(self)@ == (Engine {
                state: ServerState::Down,
                window_shown: false,
                ..old(self)@
            }),
            !was_up ==> final(self)@ == old(self)@,
            final(self).wf() == old(self).wf(),
    {
        if self.state == ServerState::Up {
            self.kill_window();
            self.state = ServerState::Down;
            true
        } else {
            false
        }
    }

    /// Whether the window is shown.
    pub fn window_shown(&self) -> (shown: bool)
        ensures
            shown == self@.window_shown,
    {
        self.window_shown
    }

    /// Marks the window as shown. There is one window at most: it must not
    /// be shown already.
    pub fn show_window(&mut self)
        requires
            !old(self)@.window_shown,
        ensures
            final(self)@ == (Engine { window_shown: true, ..old(self)@ }),
            final(self).wf() == old(self).wf(),
    {
        self.window_shown = true;
    }

    /// Marks the window as gone, and says whether it was shown: if so, the
    /// caller has it to close.
    pub fn kill_window(&mut self) -> (was_shown: bool)
        ensures
            was_shown == old(self)@.window_shown,
            final(self)@ == (Engine { window_shown: false, ..old(self)@ }),
            final(self).wf() == old(self).wf(),
    {
        let was_shown = self.window_shown;
        self.window_shown = false;
        was_shown
    }

    /// Hands `message` to the bus and returns the number of subscriptions
    /// that the bus counted.
    fn publish(&mut self, message: Message<V>) -> (receivers: usize)
        ensures
            final(self)@ == (Engine {
                trace: old(self)@.trace.push(Step::Published(message@)),
                ..old(self)@
            }),
            final(self).wf() == old(self).wf(),
    {
        proof {
            self.trace@ = self.trace@.push(Step::Published(message@));
        }
        match send(&self.broadcast.0, message) {
            Ok(receivers) => receivers,
            Err(_) => 0,
        }
    }

    /// Writes `value` under `key`, hands it to the listeners of the entry and
    /// publishes it; see [`write_outcome`]. On success the result is the
    /// number of subscriptions that the bus counted.
    pub fn apply(&mut self, key: &str, value: V) -> (r: Result<usize, Error>)
        requires
            old(self).wf(),
        ensures
            final(self).wf(),
            write_outcome(old(self)@, key@, value, final(self)@, r),
    {
        let same = match self.store.lookup(key) {
            Ok(element) => element.data.is_same_type(&value),
            Err(e) => {
                return Err(e);
            },
        };
        if !same {
            return Err(Error::TypeMismatch);
        }
        let copy = value.clone_synchronizable();
        let ghost pre = self@;
        let _ = self.store.write(key, value);
        match self.store.lookup(key) {
            Ok(element) => {
                fire(
                    &element.on_change,
                    &element.data,
                    &mut self.pending,
                    Ghost(key@),
                    &mut self.trace,
                );
            },
            Err(_) => {},
        }
        let receivers = self.publish(Message::SetValue { key: key.to_owned(), data: copy });
        proof {
            let reactions = choose|reactions: Seq<Seq<Write<V>>>| #[trigger]
                fired(pre.store[key@].on_change, value, reactions) && self@.pending
                    == pre.pending + reactions.flatten();
            assert(fired(pre.store[key@].on_change, value, reactions));
        }
        Ok(receivers)
    }

    /// Applies the oldest pending write, if there is one, as [`Poca::apply`]
    /// would, and says how that went.
    pub fn step(&mut self) -> (r: Option<Result<usize, Error>>)
        requires
            old(self).wf(),
        ensures
            final(self).wf(),
            match r {
                None => old(self)@.pending.len() == 0 && final(self)@ == old(self)@,
                Some(outcome) => old(self)@.pending.len() > 0 && write_outcome(
                    Engine { pending: old(self)@.pending.drop_first(), ..old(self)@ },
                    old(self)@.pending[0].key@,
                    old(self)@.pending[0].value,
                    final(self)@,
                    outcome,
                ),
            },
    {
        if self.pending.len() == 0 {
            return None;
        }
        let next = self.pending.remove(0);
        assert(self@.pending =~= old(self)@.pending.drop_first());
        let Write { key, value } = next;
        Some(self.apply(key.as_str(), value))
    }

    /// How many writes are pending.
    pub fn pending(&self) -> (n: usize)
        ensures
            n == self@.pending.len(),
    {
        self.pending.len()
    }

    /// Registers `key` with `data` as its value and hands out the typed
    /// handle to the entry. A key that is registered already is refused, and
    /// everything stays as it was. Entries are registered before the server
    /// goes up.
    pub fn data<T: DataToAny<V>>(&mut self, key: &str, data: T) -> (r: Result<
        DataHandle<T>,
        Error,
    >)
        requires
            old(self).wf(),
            old(self)@.state == ServerState::Down,
        ensures
            final(self).wf(),
            register_outcome(
                old(self)@,
                key@,
                data.erased(),
                final(self)@,
                match r {
                    Ok(_) => None,
                    Err(e) => Some(e),
                },
            ),
            r matches Ok(handle) ==> handle.key() == key@ && T::recovered(
                &final(self)@.store[key@].data,
            ) == Some(data),
    {
        match self.store.register(key, data.to_any()) {
            Ok(()) => Ok(DataHandle::new(key.to_owned())),
            Err(e) => Err(e),
        }
    }

    /// Adds `handler` behind the listeners of the entry under `key`. It will
    /// be handed the values written from now on, none of the earlier ones.
    pub fn on_change(&mut self, key: &str, handler: H) -> (r: Result<(), Error>)
        requires
            old(self).wf(),
        ensures
            final(self).wf(),
            match r {
                Ok(()) => old(self)@.store.contains_key(key@) && final(self)@ == (Engine {
                    store: old(self)@.store.insert(
                        key@,
                        Element {
                            data: old(self)@.store[key@].data,
                            on_change: old(self)@.store[key@].on_change.push(handler),
                        },
                    ),
                    ..old(self)@
                }),
                Err(e) => e == Error::UnknownKey && !old(self)@.store.contains_key(key@)
                    && final(self)@ == old(self)@,
            },
    {
        self.store.add_listener(key, handler)
    }

    /// Writes under `key` the value that the text `data` stands for in the
    /// concrete type of the entry; see [`text_outcome`].
    pub fn apply_text(&mut self, key: &str, data: &str) -> (r: Result<usize, Error>)
        requires
            old(self).wf(),
        ensures
            final(self).wf(),
            text_outcome(old(self)@, key@, data@, final(self)@, r),
    {
        let parsed = match self.store.lookup(key) {
            Ok(element) => element.data.deserialize(data),
            Err(e) => {
                return Err(e);
            },
        };
        match parsed {
            Some(value) => self.apply(key, value),
            None => Err(Error::DeserializationFailure),
        }
    }

    /// Publishes the value kept under `key` as the answer to a query; see
    /// [`query_outcome`]. The answer goes to every subscription.
    pub fn query(&mut self, key: &str) -> (r: Result<usize, Error>)
        requires
            old(self).wf(),
        ensures
            final(self).wf(),
            query_outcome(old(self)@, key@, final(self)@, r),
    {
        let copy = match self.store.lookup(key) {
            Ok(element) => element.data.clone_synchronizable(),
            Err(e) => {
                return Err(e);
            },
        };
        Ok(self.publish(Message::Get { key: key.to_owned(), data: copy }))
    }
}

} // verus!

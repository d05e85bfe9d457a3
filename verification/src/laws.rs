use crate::data_handle::read_outcome;
use crate::event_handler::{fired, EventHandler, Write};
use crate::message::{Frame, Notification, WSMessageType};
use crate::poca::{register_outcome, write_outcome, written, Engine};
use crate::store::Error;
use crate::synchronizable::{DataToAny, Synchronizable};
use crate::trace::{calls_of, calls_publish_nothing, publication_is_last, published_of, Step};
use crate::ws_handler::{error_frame, inbound_outcome};
use vstd::prelude::*;

verus! {

/// A read that follows a write through a handle finds the value written,
/// given that the stored form of the value holds the value, as every stored
/// form that `to_any` makes does.
pub proof fn set_then_get<V: Synchronizable, H: EventHandler<V>, T: DataToAny<V>>(
    pre: Engine<V, H>,
    key: Seq<char>,
    value: T,
    post: Engine<V, H>,
    r: Result<usize, Error>,
)
    requires
        write_outcome(pre, key, value.erased(), post, r),
        r is Ok,
        T::recovered(&value.erased()) == Some(value),
    ensures
        read_outcome::<V, H, T>(post, key) == Ok::<T, Error>(value),
{
}

/// A key that has been registered cannot be registered again: the second
/// registration is refused as a conflict, and the entry keeps the value of
/// the first.
pub proof fn second_registration_is_refused<V, H>(
    pre: Engine<V, H>,
    key: Seq<char>,
    first: V,
    mid: Engine<V, H>,
    second: V,
    post: Engine<V, H>,
    refusal: Option<Error>,
)
    requires
        register_outcome(pre, key, first, mid, None),
        register_outcome(mid, key, second, post, refusal),
    ensures
        refusal == Some(Error::RegistrationConflict),
        post == mid,
        post.store[key].data == first,
        post.store[key].on_change == Seq::<H>::empty(),
{
}

/// A write hands the value to each listener of the entry exactly once, in
/// the order of registration: what is queued by it is what the first
/// listener returned for the value, then what the second returned, and so
/// on, one reaction for each listener.
pub proof fn write_calls_each_listener_once<V: Synchronizable, H: EventHandler<V>>(
    pre: Engine<V, H>,
    key: Seq<char>,
    value: V,
    post: Engine<V, H>,
)
    requires
        written(pre, key, value, post),
    ensures
        post.store[key].data == value,
        post.store[key].on_change == pre.store[key].on_change,
        exists|reactions: Seq<Seq<Write<V>>>|
            {
                &&& reactions.len() == pre.store[key].on_change.len()
                &&& forall|i: int|
                    0 <= i < reactions.len() ==> (#[trigger] pre.store[key].on_change[i]).reacts(
                        &value,
                        reactions[i],
                    )
                &&& post.pending == pre.pending + reactions.flatten()
            },
{
    let reactions = choose|reactions: Seq<Seq<Write<V>>>| #[trigger]
        fired(pre.store[key].on_change, value, reactions) && post.pending == pre.pending
            + reactions.flatten();
    assert(reactions.len() == pre.store[key].on_change.len());
}

/// A write hands the value to the listeners before it hands it to the bus:
/// what it adds to what the engine did is the calls of the listeners of the
/// entry, each once and in the order of registration, and behind them the
/// one publication. So it publishes exactly one notification, that of the
/// value written.
pub proof fn write_calls_listeners_before_it_publishes<V: Synchronizable, H: EventHandler<V>>(
    pre: Engine<V, H>,
    key: Seq<char>,
    value: V,
    post: Engine<V, H>,
)
    requires
        written(pre, key, value, post),
    ensures
        post.trace == pre.trace + calls_of(key, pre.store[key].on_change.len(), value)
            + seq![Step::Published(Notification::SetValue { key, data: value })],
        post.published() == pre.published().push(Notification::SetValue { key, data: value }),
{
    let calls = calls_of(key, pre.store[key].on_change.len(), value);
    let publication = Notification::SetValue { key, data: value };
    assert((pre.trace + calls).push(Step::Published(publication)) =~= pre.trace + calls
        + seq![Step::Published(publication)]);
    publication_is_last(pre.trace + calls, publication);
    calls_publish_nothing(pre.trace, key, pre.store[key].on_change.len(), value);
}

/// A write that names a key and a value.
pub ghost struct Put<V> {
    pub key: Seq<char>,
    pub value: V,
}

/// Whether `states` are the states that an engine goes through while
/// `writes` are made one after the other: each write leads from one state to
/// the next.
pub open spec fn written_in_order<V: Synchronizable, H: EventHandler<V>>(
    states: Seq<Engine<V, H>>,
    writes: Seq<Put<V>>,
) -> bool {
    &&& states.len() == writes.len() + 1
    &&& forall|i: int|
        0 <= i < writes.len() ==> written(
            #[trigger] states[i],
            writes[i].key,
            writes[i].value,
            states[i + 1],
        )
}

/// The value of the last of `writes` that names `key`, if any does.
pub open spec fn last_written<V>(writes: Seq<Put<V>>, key: Seq<char>) -> Option<V>
    decreases writes.len(),
{
    if writes.len() == 0 {
        None
    } else if writes.last().key == key {
        Some(writes.last().value)
    } else {
        last_written(writes.drop_last(), key)
    }
}

/// The notifications of `writes`, one for each, in their order.
pub open spec fn notifications_of<V>(writes: Seq<Put<V>>) -> Seq<Notification<V>> {
    Seq::new(
        writes.len(),
        |i: int| Notification::SetValue { key: writes[i].key, data: writes[i].value },
    )
}

/// Writes are made one after the other, and the bus is handed them in that
/// one order: after any number of writes, what has been published is what
/// had been published before, followed by one notification for each write,
/// in the order of the writes; and each entry holds the value of the last
/// write that named its key, or what it held before where none did.
pub proof fn writes_take_effect_in_one_order<V: Synchronizable, H: EventHandler<V>>(
    states: Seq<Engine<V, H>>,
    writes: Seq<Put<V>>,
    key: Seq<char>,
)
    requires
        written_in_order(states, writes),
    ensures
        states.last().published() == states[0].published() + notifications_of(writes),
        states.last().keys == states[0].keys,
        states.last().store.dom() == states[0].store.dom(),
        states[0].store.contains_key(key) ==> states.last().store[key].data == match last_written(
            writes,
            key,
        ) {
            Some(value) => value,
            None => states[0].store[key].data,
        },
    decreases writes.len(),
{
    if writes.len() == 0 {
        assert(states[0].published() + notifications_of(writes) =~= states[0].published());
    } else {
        let n = writes.len() as int;
        let fewer_states = states.drop_last();
        let fewer = writes.drop_last();
        assert(written_in_order(fewer_states, fewer)) by {
            assert forall|i: int| 0 <= i < fewer.len() implies written(
                #[trigger] fewer_states[i],
                fewer[i].key,
                fewer[i].value,
                fewer_states[i + 1],
            ) by {
                assert(written(states[i], writes[i].key, writes[i].value, states[i + 1]));
            }
        }
        writes_take_effect_in_one_order(fewer_states, fewer, key);
        assert(fewer_states.last() == states[n - 1]);
        assert(written(states[n - 1], writes[n - 1].key, writes[n - 1].value, states[n]));
        write_calls_listeners_before_it_publishes(
            states[n - 1],
            writes[n - 1].key,
            writes[n - 1].value,
            states[n],
        );
        assert(states[0].published() + notifications_of(writes) =~= (states[0].published()
            + notifications_of(fewer)).push(
            Notification::SetValue { key: writes[n - 1].key, data: writes[n - 1].value },
        ));
        assert(states[n].store.dom() =~= states[n - 1].store.dom());
    }
}

/// A frame that asks for a write or for a value under a key that is not
/// registered, or under no key, is answered with an error frame that names
/// the unknown key, and changes nothing: neither the store nor what any
/// other session is sent.
pub proof fn unknown_key_changes_nothing<V: Synchronizable, H: EventHandler<V>>(
    pre: Engine<V, H>,
    frame: Frame,
    post: Engine<V, H>,
    reply: Option<Frame>,
)
    requires
        inbound_outcome(pre, frame, post, reply),
        frame.message_type == WSMessageType::SetValue || frame.message_type
            == WSMessageType::Get,
        frame.key matches Some(key) ==> !pre.store.contains_key(key),
    ensures
        post == pre,
        reply == Some(error_frame(Error::UnknownKey, frame.key)),
{
}

/// A text that does not parse in the concrete type of the entry is answered
/// with an error frame and leaves the entry as it was.
pub proof fn bad_data_changes_nothing<V: Synchronizable, H: EventHandler<V>>(
    pre: Engine<V, H>,
    frame: Frame,
    post: Engine<V, H>,
    reply: Option<Frame>,
)
    requires
        inbound_outcome(pre, frame, post, reply),
        frame.message_type == WSMessageType::SetValue,
        frame.key is Some,
        pre.store.contains_key(frame.key->0),
        frame.data matches Some(data) ==> pre.store[frame.key->0].data.parse(data) is None,
    ensures
        post == pre,
        reply == Some(error_frame(Error::DeserializationFailure, frame.key)),
{
}

/// A write that a listener asks for while a write is under way is a write
/// of its own, made after the one under way: once it has been applied, both
/// have been published, the listener's after the other, and the entry it
/// names holds its value.
pub proof fn a_listeners_write_comes_after<V: Synchronizable, H: EventHandler<V>>(
    pre: Engine<V, H>,
    key: Seq<char>,
    value: V,
    mid: Engine<V, H>,
    post: Engine<V, H>,
    r: Result<usize, Error>,
)
    requires
        written(pre, key, value, mid),
        mid.pending.len() > 0,
        write_outcome(
            Engine { pending: mid.pending.drop_first(), ..mid },
            mid.pending[0].key@,
            mid.pending[0].value,
            post,
            r,
        ),
        r is Ok,
    ensures
        post.published() == pre.published().push(Notification::SetValue { key, data: value }).push(
            Notification::SetValue { key: mid.pending[0].key@, data: mid.pending[0].value },
        ),
        post.store[mid.pending[0].key@].data == mid.pending[0].value,
        mid.pending[0].key@ != key ==> post.store[key].data == value,
{
    let queued = Engine { pending: mid.pending.drop_first(), ..mid };
    write_calls_listeners_before_it_publishes(pre, key, value, mid);
    write_calls_listeners_before_it_publishes(
        queued,
        mid.pending[0].key@,
        mid.pending[0].value,
        post,
    );
}

} // verus!

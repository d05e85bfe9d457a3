use crate::message::Notification;
use vstd::prelude::*;

verus! {

/// One thing that the engine did towards the outside.
pub ghost enum Step<V> {
    /// It handed `value` to the listener registered as the `listener`-th
    /// for `key`.
    Called { key: Seq<char>, listener: int, value: V },
    /// It handed a notification to the bus.
    Published(Notification<V>),
}

/// The calls of the first `listeners` listeners of `key` with `value`, each
/// once, in the order of registration.
pub open spec fn calls_of<V>(key: Seq<char>, listeners: nat, value: V) -> Seq<Step<V>> {
    Seq::new(listeners, |i: int| Step::Called { key, listener: i, value })
}

/// The notifications that were handed to the bus in `trace`, oldest first.
pub open spec fn published_of<V>(trace: Seq<Step<V>>) -> Seq<Notification<V>>
    decreases trace.len(),
{
    if trace.len() == 0 {
        Seq::empty()
    } else {
        match trace.last() {
            Step::Published(notification) => published_of(trace.drop_last()).push(notification),
            Step::Called { .. } => published_of(trace.drop_last()),
        }
    }
}

/// Calls of listeners publish nothing.
pub proof fn calls_publish_nothing<V>(trace: Seq<Step<V>>, key: Seq<char>, listeners: nat, value: V)
    ensures
        published_of(trace + calls_of(key, listeners, value)) == published_of(trace),
    decreases listeners,
{
    let all = trace + calls_of(key, listeners, value);
    if listeners == 0 {
        assert(all =~= trace);
    } else {
        let fewer = (listeners - 1) as nat;
        assert(all.drop_last() =~= trace + calls_of(key, fewer, value));
        assert(all.last() == calls_of(key, listeners, value)[listeners - 1]);
        calls_publish_nothing(trace, key, fewer, value);
    }
}

/// A publication behind a trace is the last of its notifications.
pub proof fn publication_is_last<V>(trace: Seq<Step<V>>, notification: Notification<V>)
    ensures
        published_of(trace.push(Step::Published(notification))) == published_of(trace).push(
            notification,
        ),
{
    assert(trace.push(Step::Published(notification)).drop_last() =~= trace);
}

} // verus!

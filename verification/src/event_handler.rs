use crate::trace::{calls_of, Step};
use vstd::prelude::*;

verus! {

/// A write that has been asked for and not applied yet.
pub struct Write<V> {
    pub key: String,
    pub value: V,
}

/// A change listener.
///
/// A listener is handed the value that was just committed. It cannot reach
/// the store while it runs; the writes it wants made are what it returns, and
/// they are applied after the write that called it, in the order returned.
pub trait EventHandler<V> {
    /// Whether `writes` is something the listener may return when handed
    /// `value`.
    open spec fn reacts(&self, value: &V, writes: Seq<Write<V>>) -> bool {
        arbitrary()
    }

    /// Tells the listener of the value that was committed, and returns the
    /// writes that it asks for.
    fn execute(&self, value: &V) -> (writes: Vec<Write<V>>)
        ensures
            self.reacts(value, writes@),
    ;
}

/// Whether `reactions` holds, for each of `listeners` in order, something
/// that this listener may return when handed `value`.
pub open spec fn fired<V, H: EventHandler<V>>(
    listeners: Seq<H>,
    value: V,
    reactions: Seq<Seq<Write<V>>>,
) -> bool {
    &&& reactions.len() == listeners.len()
    &&& forall|i: int|
        0 <= i < listeners.len() ==> (#[trigger] listeners[i]).reacts(&value, reactions[i])
}

/// Hands `value` to each of `listeners` once, in order, and queues what they
/// return behind `pending`, in that order. The listeners are those of `key`,
/// and every call is added to `trace`.
pub(crate) fn fire<V, H: EventHandler<V>>(
    listeners: &Vec<H>,
    value: &V,
    pending: &mut Vec<Write<V>>,
    Ghost(key): Ghost<Seq<char>>,
    trace: &mut Ghost<Seq<Step<V>>>,
)
    ensures
        final(trace)@ == old(trace)@ + calls_of(key, listeners@.len(), *value),
        exists|reactions: Seq<Seq<Write<V>>>| #[trigger]
            fired(listeners@, *value, reactions) && final(pending)@ == old(pending)@
                + reactions.flatten(),
{
    let n: usize = listeners.len();
    let mut i: usize = 0;
    let ghost mut reactions: Seq<Seq<Write<V>>> = Seq::empty();
    assert(trace@ =~= old(trace)@ + calls_of(key, 0, *value));
    while i < n
        invariant
            i <= n,
            n == listeners@.len(),
            reactions.len() == i,
            forall|j: int| 0 <= j < i ==> (#[trigger] listeners@[j]).reacts(value, reactions[j]),
            pending@ == old(pending)@ + reactions.flatten_alt(),
            trace@ == old(trace)@ + calls_of(key, i as nat, *value),
        decreases n - i,
    {
        let mut writes = listeners[i].execute(value);
        proof {
            let longer = reactions.push(writes@);
            assert(longer.drop_last() == reactions);
            assert(longer.flatten_alt() == reactions.flatten_alt() + writes@);
            assert(old(pending)@ + reactions.flatten_alt() + writes@ == old(pending)@
                + (reactions.flatten_alt() + writes@));
            reactions = longer;
            let called = Step::Called { key, listener: i as int, value: *value };
            assert(trace@.push(called) =~= old(trace)@ + calls_of(key, (i + 1) as nat, *value));
            *trace = Ghost(trace@.push(called));
        }
        pending.append(&mut writes);
        i = i + 1;
    }
    proof {
        reactions.lemma_flatten_and_flatten_alt_are_equivalent();
        assert(fired(listeners@, *value, reactions));
    }
}

} // verus!

use crate::event_handler::EventHandler;
use crate::poca::{write_outcome, Engine, Poca};
use crate::store::Error;
use crate::synchronizable::{DataToAny, Synchronizable};
use std::marker::PhantomData;
use vstd::prelude::*;

verus! {

/// The typed way to one entry of the store: it knows the key and the
/// concrete type `T` of the value kept under it.
pub struct DataHandle<T> {
    key: String,
    data_type: PhantomData<T>,
}

/// What a read through a handle of type `T` for `key` finds in `engine`:
/// the value of type `T` kept under the key. A key that is not registered is
/// unknown, and a value of another concrete type is a mismatch.
pub open spec fn read_outcome<V, H, T: DataToAny<V>>(engine: Engine<V, H>, key: Seq<char>) -> Result<
    T,
    Error,
> {
    if !engine.store.contains_key(key) {
        Err(Error::UnknownKey)
    } else {
        match T::recovered(&engine.store[key].data) {
            Some(value) => Ok(value),
            None => Err(Error::TypeMismatch),
        }
    }
}

impl<T> DataHandle<T> {
    /// The key of the entry.
    pub closed spec fn key(&self) -> Seq<char> {
        self.key@
    }

    /// A handle to the entry under `key`.
    pub fn new(key: String) -> (handle: Self)
        ensures
            handle.key() == key@,
    {
        DataHandle { key, data_type: PhantomData }
    }

    /// The key of the entry.
    pub fn get_key(&self) -> (key: &str)
        ensures
            key@ == self.key(),
    {
        self.key.as_str()
    }

    /// Writes `value` to the entry: the value replaces the one kept there,
    /// each listener of the entry is handed it, in the order of registration,
    /// and then it is published. A read that follows finds `value`.
    pub fn set<V: Synchronizable + Clone, H: EventHandler<V>>(
        &self,
        poca: &mut Poca<V, H>,
        value: T,
    ) -> (r: Result<usize, Error>) where T: DataToAny<V>
        requires
            old(poca).wf(),
        ensures
            final(poca).wf(),
            write_outcome(old(poca)@, self.key(), value.erased(), final(poca)@, r),
            r is Ok ==> read_outcome::<V, H, T>(final(poca)@, self.key()) == Ok::<T, Error>(value),
    {
        poca.apply(self.key.as_str(), value.to_any())
    }

    /// The value kept in the entry; see [`read_outcome`].
    pub fn get<V: Synchronizable + Clone, H: EventHandler<V>>(&self, poca: &Poca<V, H>) -> (r:
        Result<T, Error>) where T: DataToAny<V>
        requires
            poca.wf(),
        ensures
            r == read_outcome::<V, H, T>(poca@, self.key()),
    {
        match poca.store().lookup(self.key.as_str()) {
            Ok(element) => match T::from_any(&element.data) {
                Some(value) => Ok(value),
                None => Err(Error::TypeMismatch),
            },
            Err(e) => Err(e),
        }
    }

    /// Adds `handler` behind the listeners of the entry; see
    /// [`Poca::on_change`].
    pub fn on_change<V: Synchronizable + Clone, H: EventHandler<V>>(
        &self,
        poca: &mut Poca<V, H>,
        handler: H,
    ) -> (r: Result<(), Error>)
        requires
            old(poca).wf(),
        ensures
            final(poca).wf(),
            match r {
                Ok(()) => old(poca)@.store.contains_key(self.key()) && final(poca)@ == (Engine {
                    store: old(poca)@.store.insert(
                        self.key(),
                        crate::store::Element {
                            data: old(poca)@.store[self.key()].data,
                            on_change: old(poca)@.store[self.key()].on_change.push(handler),
                        },
                    ),
                    ..old(poca)@
                }),
                Err(e) => e == Error::UnknownKey && !old(poca)@.store.contains_key(self.key())
                    && final(poca)@ == old(poca)@,
            },
    {
        poca.on_change(self.key.as_str(), handler)
    }
}

} // verus!

use crate::strings::same_str;
use vstd::prelude::*;

verus! {

/// Why an operation on the store or on a session did not go through.
#[derive(Debug, Clone, Copy, PartialEq, Eq, Structural)]
pub enum Error {
    /// The key is registered already.
    RegistrationConflict,
    /// No entry is registered under the key.
    UnknownKey,
    /// The text is no text form of the concrete type of the entry.
    DeserializationFailure,
    /// The value is not of the concrete type of the entry.
    TypeMismatch,
    /// A session fell behind the bus and missed notifications.
    ChannelLag,
}

impl Error {
    /// The name of the error, as an error frame carries it.
    pub open spec fn text(self) -> Seq<char> {
        match self {
            Error::RegistrationConflict => "RegistrationConflict"@,
            Error::UnknownKey => "UnknownKey"@,
            Error::DeserializationFailure => "DeserializationFailure"@,
            Error::TypeMismatch => "TypeMismatch"@,
            Error::ChannelLag => "ChannelLag"@,
        }
    }

    /// The name of the error.
    pub fn name(&self) -> (name: &'static str)
        ensures
            name@ == self.text(),
    {
        match self {
            Error::RegistrationConflict => "RegistrationConflict",
            Error::UnknownKey => "UnknownKey",
            Error::DeserializationFailure => "DeserializationFailure",
            Error::TypeMismatch => "TypeMismatch",
            Error::ChannelLag => "ChannelLag",
        }
    }
}

/// What is kept under one key: the current value and the change listeners,
/// in the order in which they were registered.
pub struct DataElementInner<V, H> {
    pub data: V,
    pub on_change: Vec<H>,
}

/// What a [`DataElementInner`] holds, with the listeners as a sequence.
pub ghost struct Element<V, H> {
    pub data: V,
    pub on_change: Seq<H>,
}

impl<V, H> View for DataElementInner<V, H> {
    type V = Element<V, H>;

    open spec fn view(&self) -> Element<V, H> {
        Element { data: self.data, on_change: self.on_change@ }
    }
}

struct Entry<V, H> {
    key: String,
    element: DataElementInner<V, H>,
}

/// The keyed store. No key occurs twice in it, and nothing is ever removed.
pub struct Store<V, H> {
    entries: Vec<Entry<V, H>>,
}

impl<V, H> Store<V, H> {
    /// Whether a value of the type is a valid store: no key occurs twice.
    pub closed spec fn wf(self) -> bool {
        forall|i: int, j: int|
            0 <= i < j < self.entries@.len() ==> self.entries@[i].key@ != self.entries@[j].key@
    }

    /// The registered keys, in the order of their registration.
    pub closed spec fn keys(self) -> Seq<Seq<char>> {
        Seq::new(self.entries@.len(), |i: int| self.entries@[i].key@)
    }

    /// The place of `key` among the registered keys.
    spec fn place(self, key: Seq<char>) -> int {
        choose|i: int| 0 <= i < self.entries@.len() && self.entries@[i].key@ == key
    }

    /// The store as a map from key to what is kept under it.
    pub closed spec fn view(&self) -> Map<Seq<char>, Element<V, H>> {
        Map::new(
            |key: Seq<char>|
                exists|i: int| 0 <= i < self.entries@.len() && self.entries@[i].key@ == key,
            |key: Seq<char>| self.entries@[self.place(key)].element@,
        )
    }

    proof fn place_is_unique(self, i: int)
        requires
            self.wf(),
            0 <= i < self.entries@.len(),
        ensures
            self@.contains_key(self.entries@[i].key@),
            self.place(self.entries@[i].key@) == i,
            self@[self.entries@[i].key@] == self.entries@[i].element@,
    {
        let key = self.entries@[i].key@;
        let p = self.place(key);
        assert(0 <= p < self.entries@.len() && self.entries@[p].key@ == key);
        if p < i {
            assert(self.entries@[p].key@ != self.entries@[i].key@);
        }
        if i < p {
            assert(self.entries@[i].key@ != self.entries@[p].key@);
        }
    }

    proof fn same_keys_same_places(self, other: Self)
        requires
            self.wf(),
            self.entries@.len() == other.entries@.len(),
            forall|i: int|
                0 <= i < self.entries@.len() ==> self.entries@[i].key@ == other.entries@[i].key@,
        ensures
            other.wf(),
            other.keys() == self.keys(),
            other@.dom() == self@.dom(),
            forall|key: Seq<char>| #[trigger]
                self@.contains_key(key) ==> other.place(key) == self.place(key) && other@[key]
                    == other.entries@[self.place(key)].element@,
    {
        assert(other.wf()) by {
            assert forall|i: int, j: int| 0 <= i < j < other.entries@.len() implies other.entries@[i].key@
                != other.entries@[j].key@ by {
                assert(self.entries@[i].key@ != self.entries@[j].key@);
            }
        }
        assert(other.keys() =~= self.keys());
        assert forall|key: Seq<char>| self@.contains_key(key) <==> other@.contains_key(key) by {
            if self@.contains_key(key) {
                let i = choose|i: int|
                    0 <= i < self.entries@.len() && self.entries@[i].key@ == key;
                assert(other.entries@[i].key@ == key);
            }
            if other@.contains_key(key) {
                let i = choose|i: int|
                    0 <= i < other.entries@.len() && other.entries@[i].key@ == key;
                assert(self.entries@[i].key@ == key);
            }
        }
        assert(other@.dom() =~= self@.dom());
        assert forall|key: Seq<char>| #[trigger]
            self@.contains_key(key) implies other.place(key) == self.place(key) && other@[key]
            == other.entries@[self.place(key)].element@ by {
            let i = self.place(key);
            assert(other.entries@[i].key@ == key);
            other.place_is_unique(i);
        }
    }

    /// The keys of the map are the registered keys, each once.
    pub proof fn keys_are_the_domain(self)
        requires
            self.wf(),
        ensures
            self.keys().no_duplicates(),
            forall|key: Seq<char>| self@.contains_key(key) <==> self.keys().contains(key),
    {
        assert forall|key: Seq<char>| self@.contains_key(key) <==> self.keys().contains(
            key,
        ) by {
            if self@.contains_key(key) {
                let i = choose|i: int|
                    0 <= i < self.entries@.len() && self.entries@[i].key@ == key;
                assert(self.keys()[i] == key);
            }
        }
    }

    /// An empty store.
    pub fn new() -> (store: Self)
        ensures
            store@ == Map::<Seq<char>, Element<V, H>>::empty(),
            store.keys() == Seq::<Seq<char>>::empty(),
            store.wf(),
    {
        let store = Store { entries: Vec::new() };
        assert(store@ =~= Map::<Seq<char>, Element<V, H>>::empty());
        assert(store.keys() =~= Seq::<Seq<char>>::empty());
        store
    }

    fn find(&self, key: &str) -> (r: Option<usize>)
        requires
            self.wf(),
        ensures
            match r {
                Some(i) => i < self.entries@.len() && self.entries@[i as int].key@ == key@
                    && self@.contains_key(key@) && self.place(key@) == i,
                None => !self@.contains_key(key@),
            },
    {
        let n: usize = self.entries.len();
        let mut i: usize = 0;
        while i < n
            invariant
                i <= n,
                n == self.entries@.len(),
                self.wf(),
                forall|j: int| 0 <= j < i ==> self.entries@[j].key@ != key@,
            decreases n - i,
        {
            if same_str(self.entries[i].key.as_str(), key) {
                proof {
                    self.place_is_unique(i as int);
                }
                return Some(i);
            }
            i = i + 1;
        }
        None
    }

    /// Whether an entry is registered under `key`.
    pub fn contains(&self, key: &str) -> (b: bool)
        requires
            self.wf(),
        ensures
            b == self@.contains_key(key@),
    {
        self.find(key).is_some()
    }

    /// How many entries are registered.
    pub fn len(&self) -> (n: usize)
        ensures
            n == self.keys().len(),
    {
        self.entries.len()
    }

    /// The key registered as the `i`-th, and what is kept under it.
    pub fn entry(&self, i: usize) -> (r: (&str, &DataElementInner<V, H>))
        requires
            self.wf(),
            i < self.keys().len(),
        ensures
            r.0@ == self.keys()[i as int],
            self@.contains_key(r.0@),
            r.1@ == self@[r.0@],
    {
        let e = &self.entries[i];
        (e.key.as_str(), &e.element)
    }

    /// Registers `key` with `initial` as its value and no listeners. A key
    /// that is registered already is refused, and the store stays as it is.
    pub fn register(&mut self, key: &str, initial: V) -> (r: Result<(), Error>)
        requires
            old(self).wf(),
        ensures
            final(self).wf(),
            match r {
                Ok(()) => !old(self)@.contains_key(key@) && final(self)@ == old(self)@.insert(
                    key@,
                    Element { data: initial, on_change: Seq::empty() },
                ) && final(self).keys() == old(self).keys().push(key@),
                Err(e) => e == Error::RegistrationConflict && old(self)@.contains_key(key@)
                    && *final(self) == *old(self),
            },
    {
        if self.find(key).is_some() {
            return Err(Error::RegistrationConflict);
        }
        let ghost before = *self;
        let entry = Entry {
            key: key.to_owned(),
            element: DataElementInner { data: initial, on_change: Vec::new() },
        };
        self.entries.push(entry);
        proof {
            let n = before.entries@.len() as int;
            assert(self.entries@[n].key@ == key@);
            assert forall|k: Seq<char>| self@.contains_key(k) <==> (k == key@
                || before@.contains_key(k)) by {
                if before@.contains_key(k) {
                    let i = choose|i: int|
                        0 <= i < before.entries@.len() && before.entries@[i].key@ == k;
                    assert(self.entries@[i].key@ == k);
                }
            }
            assert forall|k: Seq<char>| before@.contains_key(k) implies self@[k] == before@[k] by {
                let i = before.place(k);
                assert(self.entries@[i].key@ == k);
                assert(self.place(k) == i);
            }
            assert(self.place(key@) == n);
            assert(self@ =~= before@.insert(
                key@,
                Element { data: initial, on_change: Seq::empty() },
            ));
            assert(self.keys() =~= before.keys().push(key@));
        }
        Ok(())
    }

    /// What is kept under `key`.
    pub fn lookup(&self, key: &str) -> (r: Result<&DataElementInner<V, H>, Error>)
        requires
            self.wf(),
        ensures
            match r {
                Ok(element) => self@.contains_key(key@) && element@ == self@[key@],
                Err(e) => e == Error::UnknownKey && !self@.contains_key(key@),
            },
    {
        match self.find(key) {
            Some(i) => Ok(&self.entries[i].element),
            None => Err(Error::UnknownKey),
        }
    }

    /// Puts `value` in the place of the value kept under `key`. The listeners
    /// stay, and so does every other entry.
    pub fn write(&mut self, key: &str, value: V) -> (r: Result<(), Error>)
        requires
            old(self).wf(),
        ensures
            final(self).wf(),
            final(self).keys() == old(self).keys(),
            match r {
                Ok(()) => old(self)@.contains_key(key@) && final(self)@ == old(self)@.insert(
                    key@,
                    Element { data: value, on_change: old(self)@[key@].on_change },
                ),
                Err(e) => e == Error::UnknownKey && !old(self)@.contains_key(key@) && *final(self)
                    == *old(self),
            },
    {
        match self.find(key) {
            Some(i) => {
                let ghost before = *self;
                self.entries[i].element.data = value;
                proof {
                    before.same_keys_same_places(*self);
                    assert(self@ =~= before@.insert(
                        key@,
                        Element { data: value, on_change: before@[key@].on_change },
                    ));
                }
                Ok(())
            },
            None => Err(Error::UnknownKey),
        }
    }

    /// Adds `handler` behind the listeners kept under `key`.
    pub fn add_listener(&mut self, key: &str, handler: H) -> (r: Result<(), Error>)
        requires
            old(self).wf(),
        ensures
            final(self).wf(),
            final(self).keys() == old(self).keys(),
            match r {
                Ok(()) => old(self)@.contains_key(key@) && final(self)@ == old(self)@.insert(
                    key@,
                    Element {
                        data: old(self)@[key@].data,
                        on_change: old(self)@[key@].on_change.push(handler),
                    },
                ),
                Err(e) => e == Error::UnknownKey && !old(self)@.contains_key(key@) && *final(self)
                    == *old(self),
            },
    {
        match self.find(key) {
            Some(i) => {
                let ghost before = *self;
                self.entries[i].element.on_change.push(handler);
                proof {
                    before.same_keys_same_places(*self);
                    assert(self@ =~= before@.insert(
                        key@,
                        Element {
                            data: before@[key@].data,
                            on_change: before@[key@].on_change.push(handler),
                        },
                    ));
                }
                Ok(())
            },
            None => Err(Error::UnknownKey),
        }
    }
}

} // verus!

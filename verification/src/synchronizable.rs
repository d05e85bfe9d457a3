use vstd::prelude::*;

verus! {

/// The way between a concrete type and the type of the stored values.
///
/// `V` stands for every concrete type that an application stores; a type
/// `T` with this trait is one of them.
pub trait DataToAny<V>: Sized {
    /// The stored form of the value.
    open spec fn erased(&self) -> V {
        arbitrary()
    }

    /// The value of this type that a stored value holds, or `None` where it
    /// holds a value of another type.
    open spec fn recovered(stored: &V) -> Option<Self> {
        arbitrary()
    }

    /// The stored form of the value, from which the value can be recovered.
    fn to_any(self) -> (stored: V)
        ensures
            stored == self.erased(),
            Self::recovered(&stored) == Some(self),
    ;

    /// The value of this type that `stored` holds, if it holds one.
    fn from_any(stored: &V) -> (r: Option<Self>)
        ensures
            r == Self::recovered(stored),
    ;
}

/// The cloning half of what a stored value can do.
pub trait SynchronizableClone: Sized {
    /// A copy of the value.
    fn clone_synchronizable(&self) -> (copy: Self)
        ensures
            copy == *self,
    ;
}

/// What a value has to offer to be kept in the store: a text form, a way
/// back from text to a new value of the same concrete type, and a test for
/// that type.
///
/// One implementing type stands for every concrete type an application
/// stores; `same_type` tells the concrete types apart.
///
/// The three specification functions say what the methods compute. An
/// implementation defines them; the engine knows of them only what the
/// methods promise.
pub trait Synchronizable: SynchronizableClone {
    /// The text form of the value.
    open spec fn text(&self) -> Seq<char> {
        arbitrary()
    }

    /// The value that `data` stands for in the concrete type of `self`, or
    /// `None` where `data` is no text form of that type.
    open spec fn parse(&self, data: Seq<char>) -> Option<Self> {
        arbitrary()
    }

    /// Whether `other` is of the concrete type of `self`.
    open spec fn same_type(&self, other: &Self) -> bool {
        arbitrary()
    }

    /// The text form of the value, which parses back to it.
    fn serialize(&self) -> (s: String)
        ensures
            s@ == self.text(),
            self.parse(s@) == Some(*self),
    ;

    /// The value that `data` stands for, of the concrete type of `self`.
    fn deserialize(&self, data: &str) -> (r: Option<Self>)
        ensures
            r == self.parse(data@),
            r matches Some(v) ==> self.same_type(&v),
    ;

    /// Whether `other` is of the concrete type of `self`; values of one type
    /// parse alike.
    fn is_same_type(&self, other: &Self) -> (b: bool)
        ensures
            b == self.same_type(other),
            b ==> forall|data: Seq<char>| self.parse(data) == other.parse(data),
    ;
}

/// Whether `c` is one of the four characters that JSON skips around a value.
pub open spec fn is_json_space(c: char) -> bool {
    c == ' ' || c == '\n' || c == '\t' || c == '\r'
}

/// `s` without the JSON whitespace at its front.
pub open spec fn skip_space_front(s: Seq<char>) -> Seq<char>
    decreases s.len(),
{
    if s.len() > 0 && is_json_space(s[0]) {
        skip_space_front(s.drop_first())
    } else {
        s
    }
}

/// `s` without the JSON whitespace at its back.
pub open spec fn skip_space_back(s: Seq<char>) -> Seq<char>
    decreases s.len(),
{
    if s.len() > 0 && is_json_space(s.last()) {
        skip_space_back(s.drop_last())
    } else {
        s
    }
}

/// The JSON text of a boolean.
pub open spec fn bool_text(value: bool) -> Seq<char> {
    if value {
        seq!['t', 'r', 'u', 'e']
    } else {
        seq!['f', 'a', 'l', 's', 'e']
    }
}

/// The boolean that a JSON text stands for: `true` or `false`, with any
/// JSON whitespace around it.
pub open spec fn bool_of_text(data: Seq<char>) -> Option<bool> {
    let word = skip_space_back(skip_space_front(data));
    if word == bool_text(true) {
        Some(true)
    } else if word == bool_text(false) {
        Some(false)
    } else {
        None
    }
}

/// `serde_json::to_string` on a `bool`: the text is `true` or `false`.
/// The call cannot fail on a boolean; the error arm is there for the type.
#[verifier::external_body]
fn bool_to_json(value: bool) -> (text: String)
    ensures
        text@ == bool_text(value),
{
    match serde_json::to_string(&value) {
        Ok(text) => text,
        Err(_) => String::new(),
    }
}

/// `serde_json::from_str` for a `bool`: it skips JSON whitespace, reads the
/// word `true` or `false`, and accepts nothing but whitespace after it.
#[verifier::external_body]
fn bool_from_json(data: &str) -> (r: Option<bool>)
    ensures
        r == bool_of_text(data@),
{
    match serde_json::from_str::<bool>(data) {
        Ok(value) => Some(value),
        Err(_) => None,
    }
}

impl SynchronizableClone for bool {
    fn clone_synchronizable(&self) -> (copy: Self) {
        *self
    }
}

impl DataToAny<bool> for bool {
    open spec fn erased(&self) -> bool {
        *self
    }

    open spec fn recovered(stored: &bool) -> Option<Self> {
        Some(*stored)
    }

    fn to_any(self) -> (stored: bool) {
        self
    }

    fn from_any(stored: &bool) -> (r: Option<Self>) {
        Some(*stored)
    }
}

impl Synchronizable for bool {
    open spec fn text(&self) -> Seq<char> {
        bool_text(*self)
    }

    open spec fn parse(&self, data: Seq<char>) -> Option<Self> {
        bool_of_text(data)
    }

    open spec fn same_type(&self, other: &Self) -> bool {
        true
    }

    fn serialize(&self) -> (s: String) {
        proof {
            bool_text_reads_back(*self);
        }
        bool_to_json(*self)
    }

    fn deserialize(&self, data: &str) -> (r: Option<Self>) {
        bool_from_json(data)
    }

    fn is_same_type(&self, other: &Self) -> (b: bool) {
        true
    }

}

/// The text of a boolean reads back as that boolean.
proof fn bool_text_reads_back(value: bool)
    ensures
        bool_of_text(bool_text(value)) == Some(value),
{
    let t = bool_text(value);
    assert(!is_json_space(t[0]));
    assert(!is_json_space(t.last()));
    assert(skip_space_front(t) == t);
    assert(skip_space_back(t) == t);
    assert(bool_text(true) != bool_text(false)) by {
        assert(bool_text(true).len() != bool_text(false).len());
    }
}

} // verus!

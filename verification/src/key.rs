//! Keys: the closed set of ways to address one entity.

use vstd::prelude::*;
use crate::ident::{parse_id, parsed_uuid};

verus! {

/// An identifier of one entity, by id or by slug. The two kinds never mix in
/// one fetch.
#[derive(Clone, Debug, PartialEq, Eq, Hash)]
pub enum Key {
    ById(u128),
    BySlug(String),
}

/// What a key is, as a value of mathematics.
pub enum KeyView {
    ById(u128),
    BySlug(Seq<char>),
}

/// The kind of a key: which fetch path serves it.
#[derive(Clone, Copy, Debug, PartialEq, Eq, Structural)]
pub enum KeyKind {
    Id,
    Slug,
}

impl View for Key {
    type V = KeyView;

    open spec fn view(&self) -> KeyView {
        match self {
            Key::ById(id) => KeyView::ById(*id),
            Key::BySlug(slug) => KeyView::BySlug(slug@),
        }
    }
}

/// The kind of a key.
pub open spec fn kind_of(k: KeyView) -> KeyKind {
    match k {
        KeyView::ById(_) => KeyKind::Id,
        KeyView::BySlug(_) => KeyKind::Slug,
    }
}

/// The key that an identifier stands for: the id where the text is a UUID,
/// the text itself as a slug where it is not.
pub open spec fn key_of_identifier(text: Seq<char>) -> KeyView {
    match parsed_uuid(text) {
        Some(id) => KeyView::ById(id),
        None => KeyView::BySlug(text),
    }
}

/// The views of a sequence of keys, in order.
pub open spec fn key_views(keys: Seq<Key>) -> Seq<KeyView> {
    Seq::new(keys.len(), |i: int| keys[i]@)
}

impl Key {
    /// The key that `identifier` stands for: by id where it is the text of a
    /// UUID, by slug otherwise.
    pub fn from_identifier(identifier: String) -> (k: Key)
        ensures
            k@ == key_of_identifier(identifier@),
    {
        match parse_id(identifier.as_str()) {
            Ok(id) => Key::ById(id),
            Err(_) => Key::BySlug(identifier),
        }
    }

    /// Which fetch path serves this key.
    pub fn kind(&self) -> (k: KeyKind)
        ensures
            k == kind_of(self@),
    {
        match self {
            Key::ById(_) => KeyKind::Id,
            Key::BySlug(_) => KeyKind::Slug,
        }
    }

    /// Whether two keys address the same entity in the same way.
    pub fn same(&self, other: &Key) -> (b: bool)
        ensures
            b == (self@ == other@),
    {
        match (self, other) {
            (Key::ById(a), Key::ById(b)) => *a == *b,
            (Key::BySlug(a), Key::BySlug(b)) => *a == *b,
            _ => false,
        }
    }

    /// A second key equal to this one.
    pub fn duplicate(&self) -> (k: Key)
        ensures
            k@ == self@,
    {
        match self {
            Key::ById(id) => Key::ById(*id),
            Key::BySlug(slug) => Key::BySlug(slug.clone()),
        }
    }
}

/// The keys that a list of identifiers stands for, in order.
pub fn keys_of_identifiers(identifiers: Vec<String>) -> (keys: Vec<Key>)
    ensures
        keys@.len() == identifiers@.len(),
        forall|i: int|
            0 <= i < keys@.len() ==> (#[trigger] keys@[i])@ == key_of_identifier(identifiers@[i]@),
{
    let mut keys: Vec<Key> = Vec::new();
    let mut i: usize = 0;
    while i < identifiers.len()
        invariant
            0 <= i <= identifiers@.len(),
            keys@.len() == i,
            forall|j: int|
                0 <= j < i ==> (#[trigger] keys@[j])@ == key_of_identifier(identifiers@[j]@),
        decreases identifiers@.len() - i,
    {
        let key = Key::from_identifier(identifiers[i].clone());
        keys.push(key);
        i = i + 1;
    }
    keys
}

/// Whether `key` occurs in `keys`.
pub fn key_in(keys: &Vec<Key>, key: &Key) -> (b: bool)
    ensures
        b == key_views(keys@).contains(key@),
{
    let mut i: usize = 0;
    while i < keys.len()
        invariant
            0 <= i <= keys@.len(),
            forall|j: int| 0 <= j < i ==> keys@[j]@ != key@,
        decreases keys@.len() - i,
    {
        if keys[i].same(key) {
            assert(key_views(keys@)[i as int] == key@);
            return true;
        }
        i = i + 1;
    }
    assert forall|j: int| 0 <= j < key_views(keys@).len() implies key_views(keys@)[j] != key@ by {
        assert(keys@[j]@ != key@);
    }
    false
}

} // verus!

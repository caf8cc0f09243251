//! The extension map: a store that holds at most one value per tag.

use crate::commands::{FromMessage, MessageParts};
use crate::errors::ExtensionRejection;
use crate::text::{decimal, decimal_string};
use std::collections::hash_map::Entry;
use std::collections::HashMap;
use vstd::prelude::*;
use vstd::string::StringExecFns;

verus! {

broadcast use vstd::std_specs::hash::group_hash_axioms;

/// A value that knows the tag of its own kind.
///
/// An extension map files every value under its tag, so the tag plays the
/// part of the value's type: two values of one kind share a tag, values of
/// different kinds never do.
pub trait Tagged {
    /// The tag of this value's kind. An implementation states it here; the
    /// default leaves it open.
    open spec fn tag_spec(&self) -> u64 {
        arbitrary()
    }

    /// Computes the tag of this value's kind.
    fn tag(&self) -> (t: u64)
        ensures
            t == self.tag_spec(),
    ;
}

/// Every stored value sits under the tag of its own kind.
pub open spec fn typed<V: Tagged>(m: Map<u64, V>) -> bool {
    forall|k: u64| m.contains_key(k) ==> (#[trigger] m[k]).tag_spec() == k
}

/// The map after `val` was filed under its own tag.
pub open spec fn inserted<V: Tagged>(m: Map<u64, V>, val: V) -> Map<u64, V> {
    m.insert(val.tag_spec(), val)
}

/// Writing `val` under `tag` keeps a map typed exactly if `val` is of the
/// kind that `tag` stands for.
pub proof fn lemma_typed_update<V: Tagged>(m: Map<u64, V>, tag: u64, val: V)
    requires
        typed(m),
    ensures
        typed(m.insert(tag, val)) <==> val.tag_spec() == tag,
{
    let after = m.insert(tag, val);
    if val.tag_spec() == tag {
        assert forall|k: u64| after.contains_key(k) implies (#[trigger] after[k]).tag_spec()
            == k by {
            if k != tag {
                assert(m.contains_key(k));
            }
        }
    } else {
        assert(after.contains_key(tag));
        assert(after[tag] == val);
    }
}

/// A value that is inserted into an empty map is found again under the tag
/// of its kind, equal to what was inserted. Removing that tag takes the
/// value out, and nothing is found under the tag afterwards.
pub proof fn lemma_insert_get_remove<V: Tagged>(val: V)
    ensures
        inserted(Map::<u64, V>::empty(), val).get(val.tag_spec()) == Some(val),
        inserted(Map::<u64, V>::empty(), val).remove(val.tag_spec()).get(val.tag_spec()) is None,
        inserted(Map::<u64, V>::empty(), val).remove(val.tag_spec()) == Map::<u64, V>::empty(),
{
}

/// Inserting a value of a kind that the map already holds hands back the
/// value that was there and leaves exactly one value of that kind: the map
/// stays typed, keeps its size, and holds the new value under the tag.
pub proof fn lemma_insert_replaces<V: Tagged>(m: Map<u64, V>, val: V)
    requires
        typed(m),
        m.dom().finite(),
        m.contains_key(val.tag_spec()),
    ensures
        m.get(val.tag_spec()) == Some(m[val.tag_spec()]),
        typed(inserted(m, val)),
        inserted(m, val).len() == m.len(),
        inserted(m, val).get(val.tag_spec()) == Some(val),
        forall|k: u64|
            inserted(m, val).contains_key(k) && (#[trigger] inserted(m, val)[k]).tag_spec()
                == val.tag_spec() ==> k == val.tag_spec(),
{
    lemma_typed_update(m, val.tag_spec(), val);
    assert(inserted(m, val).dom() == m.dom());
}

/// A tag-indexed store of extension values, one per tag at most.
pub struct Extensions<V> {
    map: HashMap<u64, V>,
}

impl<V> View for Extensions<V> {
    type V = Map<u64, V>;

    closed spec fn view(&self) -> Map<u64, V> {
        self.map@
    }
}

impl<V: Tagged> Extensions<V> {
    /// Type safety: every stored value sits under the tag of its own kind.
    pub open spec fn wf(&self) -> bool {
        typed(self@)
    }

    /// Creates an empty map.
    pub fn new() -> (ext: Extensions<V>)
        ensures
            ext@ == Map::<u64, V>::empty(),
            ext.wf(),
    {
        Extensions { map: HashMap::new() }
    }

    /// Stores `val` under the tag of its kind and hands back the value that
    /// was stored under that tag before, if there was one.
    pub fn insert(&mut self, val: V) -> (prev: Option<V>)
        ensures
            final(self)@ == inserted(old(self)@, val),
            prev == old(self)@.get(val.tag_spec()),
            old(self).wf() ==> final(self).wf(),
    {
        let tag = val.tag();
        self.map.insert(tag, val)
    }

    /// Looks up the value stored under `tag`.
    pub fn get(&self, tag: u64) -> (found: Option<&V>)
        ensures
            match found {
                Some(val) => self@.get(tag) == Some(*val),
                None => self@.get(tag) is None,
            },
            self.wf() ==> (found matches Some(val) ==> val.tag_spec() == tag),
    {
        self.map.get(&tag)
    }

    /// Looks up the value stored under `tag` for writing. What the caller
    /// leaves in the slot is what the map holds under `tag` afterwards.
    pub fn get_mut(&mut self, tag: u64) -> (found: Option<&mut V>)
        ensures
            match found {
                Some(slot) => {
                    &&& old(self)@.get(tag) == Some(*slot)
                    &&& final(self)@ == old(self)@.insert(tag, *final(slot))
                },
                None => old(self)@.get(tag) is None && final(self)@ == old(self)@,
            },
            old(self).wf() ==> (final(self).wf() <==> (found matches Some(slot) ==> final(
                slot
            ).tag_spec() == tag)),
    {
        match self.map.entry(tag) {
            Entry::Occupied(occupied) => {
                let slot = occupied.into_mut();
                proof {
                    if old(self).wf() {
                        lemma_typed_update(old(self)@, tag, *final(slot));
                    }
                }
                Some(slot)
            },
            Entry::Vacant(_) => None,
        }
    }

    /// Takes the value stored under `tag` out of the map.
    pub fn remove(&mut self, tag: u64) -> (taken: Option<V>)
        ensures
            final(self)@ == old(self)@.remove(tag),
            taken == old(self)@.get(tag),
            old(self).wf() ==> final(self).wf(),
    {
        self.map.remove(&tag)
    }

    /// Drops every stored value.
    pub fn clear(&mut self)
        ensures
            final(self)@ == Map::<u64, V>::empty(),
            final(self).wf(),
    {
        self.map.clear();
    }

    /// Whether nothing is stored.
    pub fn is_empty(&self) -> (empty: bool)
        ensures
            empty == (self@.len() == 0),
    {
        self.map.is_empty()
    }

    /// The number of stored values.
    pub fn len(&self) -> (n: usize)
        ensures
            n == self@.len(),
    {
        self.map.len()
    }
}

impl<V: Tagged> Default for Extensions<V> {
    fn default() -> (ext: Extensions<V>)
        ensures
            ext@ == Map::<u64, V>::empty(),
            ext.wf(),
    {
        Extensions::new()
    }
}

/// The text of the rejection for a missing extension with tag `tag`.
pub open spec fn missing_extension_text(tag: u64) -> Seq<char> {
    "Extension of type `"@ + decimal(tag as nat)
        + "` was not found. Perhaps you forgot to add it? "@
        + "See `axum::extract::Extension`."@
}

/// Extractor for a copy of the extension stored under `TAG`.
#[derive(Debug, Clone, Copy)]
pub struct Extension<V, const TAG: u64>(pub V);

impl<V: Tagged + Clone, const TAG: u64> FromMessage<V> for Extension<V, TAG> {
    type Rejection = ExtensionRejection;

    /// Leaves the extensions as they are; yields a clone of the value under
    /// `TAG`, or the rejection that names `TAG` if nothing is stored there.
    open spec fn extracts(
        before: Map<u64, V>,
        after: Map<u64, V>,
        r: Result<Self, Self::Rejection>,
    ) -> bool {
        &&& after == before
        &&& match r {
            Ok(ext) => before.contains_key(TAG) && cloned(before[TAG], ext.0),
            Err(rejection) => {
                &&& !before.contains_key(TAG)
                &&& rejection is MissingExtension
                &&& rejection.text() == missing_extension_text(TAG)
            },
        }
    }

    fn from_message(msg: &mut MessageParts<V>) -> (r: Result<Self, Self::Rejection>) {
        match msg.extensions().get(TAG) {
            Some(val) => Ok(Extension(val.clone())),
            None => {
                let mut text = String::from_str("Extension of type `");
                text.append(decimal_string(TAG).as_str());
                text.append("` was not found. Perhaps you forgot to add it? ");
                text.append("See `axum::extract::Extension`.");
                Err(ExtensionRejection::MissingExtension(text))
            },
        }
    }
}

impl<V, const TAG: u64> std::ops::Deref for Extension<V, TAG> {
    type Target = V;

    fn deref(&self) -> (inner: &V)
        ensures
            *inner == self.0,
    {
        &self.0
    }
}

} // verus!

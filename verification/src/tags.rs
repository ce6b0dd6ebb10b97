//! The attribute collection of a decoded map object, and what the library
//! relies on when it reads one.
//!
//! The collection itself is `osmpbfreader::Tags`, a map from key to value kept
//! as a vector of pairs sorted by key. Verus does not look inside it: the few
//! functions below that touch it carry contracts that are taken on trust, and
//! everything else in the crate is proved from those contracts.

use osmpbfreader::Tags;
use vstd::prelude::*;

verus! {

/// `osmpbfreader::Tags`, made known to the verifier as a type whose inside it
/// does not see.
#[verifier::external_type_specification]
#[verifier::external_body]
pub struct ExTags(osmpbfreader::Tags);

/// One attribute as specifications see it: a key and its value.
pub type Attribute = (Seq<char>, Seq<char>);

/// The (key, value) pairs that a tag collection holds, in the order in which
/// the collection is walked.
pub uninterp spec fn tag_entries(tags: Tags) -> Seq<(Seq<char>, Seq<char>)>;

/// The value stored under `key` in a sequence of attributes, if some pair has
/// this key. Where several pairs have it, the last of them counts; in the
/// pairs of a tag collection no key occurs twice.
pub open spec fn value_of(entries: Seq<Attribute>, key: Seq<char>) -> Option<Seq<char>>
    decreases entries.len(),
{
    if entries.len() == 0 {
        None
    } else if entries.last().0 == key {
        Some(entries.last().1)
    } else {
        value_of(entries.drop_last(), key)
    }
}

/// The keys that occur in a sequence of attributes.
pub open spec fn key_set(entries: Seq<Attribute>) -> Set<Seq<char>> {
    Set::new(|key: Seq<char>| value_of(entries, key) is Some)
}

/// No key occurs twice.
pub open spec fn distinct_keys(entries: Seq<Attribute>) -> bool {
    forall|i: int, j: int| 0 <= i < j < entries.len() ==> entries[i].0 != entries[j].0
}

/// A key that has a value occurs in some pair.
pub proof fn lemma_key_occurs(entries: Seq<Attribute>, key: Seq<char>)
    requires
        value_of(entries, key) is Some,
    ensures
        exists|i: int| 0 <= i < entries.len() && (#[trigger] entries[i]).0 == key,
    decreases entries.len(),
{
    if entries.last().0 == key {
        assert(entries[entries.len() - 1].0 == key);
    } else {
        lemma_key_occurs(entries.drop_last(), key);
        let i = choose|i: int|
            0 <= i < entries.drop_last().len() && (#[trigger] entries.drop_last()[i]).0 == key;
        assert(entries[i].0 == key);
    }
}

/// What an optional string holds.
pub open spec fn text(field: Option<String>) -> Option<Seq<char>> {
    match field {
        Some(s) => Some(s@),
        None => None,
    }
}

/// The attributes that a vector of owned pairs stands for.
pub open spec fn pairs_view(pairs: Seq<(String, String)>) -> Seq<Attribute> {
    Seq::new(pairs.len(), |i: int| (pairs[i].0@, pairs[i].1@))
}

/// `FlatMap::get`, reached through `Tags`: a copy of the value stored under
/// `key`, or `None` where the collection does not hold that key. The lookup
/// is a binary search over pairs that the collection keeps sorted by key
/// without repeats, so it finds the one pair with the key whenever there is
/// one.
#[verifier::external_body]
pub(crate) fn tags_get(tags: &Tags, key: &str) -> (value: Option<String>)
    ensures
        text(value) == value_of(tag_entries(*tags), key@),
{
    match tags.get(key) {
        Some(v) => Some(v.to_string()),
        None => None,
    }
}

/// `FlatMap::iter`, reached through `Tags`: an owned copy of every pair, in
/// the order of the walk. The collection admits a key once only, so no two of
/// the pairs share a key.
#[verifier::external_body]
pub(crate) fn tags_pairs(tags: &Tags) -> (pairs: Vec<(String, String)>)
    ensures
        pairs_view(pairs@) == tag_entries(*tags),
        distinct_keys(pairs_view(pairs@)),
{
    tags.iter().map(|(k, v)| (k.to_string(), v.to_string())).collect()
}

/// `str`'s `==`: whether two string slices hold the same characters.
#[verifier::external_body]
pub(crate) fn str_eq(a: &str, b: &str) -> (same: bool)
    ensures
        same == (a@ == b@),
{
    a == b
}

} // verus!

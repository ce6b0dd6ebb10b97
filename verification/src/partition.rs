//! The attribute partitioner: six known fields, and the residual pairs.

use crate::tags::{
    distinct_keys, key_set, lemma_key_occurs, pairs_view, str_eq, tag_entries, tags_get, tags_pairs,
    text, value_of, Attribute,
};
use osmpbfreader::Tags;
use vstd::prelude::*;

verus! {

/// The keys that never become a residual tag: the two that classify, the six
/// known fields, and two that are dropped on purpose.
pub open spec fn reserved_keys() -> Set<Seq<char>> {
    set![
        "amenity"@,
        "shop"@,
        "created_by"@,
        "name"@,
        "source"@,
        "email"@,
        "phone"@,
        "website"@,
        "opening_hours"@,
        "operator"@,
    ]
}

/// Whether a pair is residual: its key is not reserved.
pub open spec fn is_residual(attribute: Attribute) -> bool {
    !reserved_keys().contains(attribute.0)
}

/// The residual pairs of an attribute sequence, in the order they have there.
pub open spec fn residual(attributes: Seq<Attribute>) -> Seq<Attribute> {
    attributes.filter(|a: Attribute| is_residual(a))
}

/// The keys that give a residual pair: those that occur and are not reserved.
pub open spec fn residual_keys(attributes: Seq<Attribute>) -> Set<Seq<char>> {
    key_set(attributes).difference(reserved_keys())
}

/// Where no key occurs twice, there are as many residual pairs as there are
/// keys that are not reserved.
pub proof fn lemma_residual_count(attributes: Seq<Attribute>)
    requires
        distinct_keys(attributes),
    ensures
        residual_keys(attributes).finite(),
        residual(attributes).len() == residual_keys(attributes).len(),
    decreases attributes.len(),
{
    reveal(Seq::filter);
    if attributes.len() == 0 {
        assert(residual_keys(attributes) =~= Set::empty());
    } else {
        let rest = attributes.drop_last();
        let last = attributes.last();
        lemma_residual_count(rest);
        if key_set(rest).contains(last.0) {
            lemma_key_occurs(rest, last.0);
            let i = choose|i: int| 0 <= i < rest.len() && (#[trigger] rest[i]).0 == last.0;
            assert(attributes[i].0 == attributes[attributes.len() - 1].0);
        }
        if is_residual(last) {
            assert(residual_keys(attributes) =~= residual_keys(rest).insert(last.0));
        } else {
            assert(residual_keys(attributes) =~= residual_keys(rest));
        }
    }
}

/// The six attributes that have a column of their own. Each is present
/// exactly when the object carries the key.
#[derive(Debug, PartialEq, Eq)]
pub struct KnownFields {
    pub name: Option<String>,
    pub email: Option<String>,
    pub phone: Option<String>,
    pub website: Option<String>,
    pub opening_hours: Option<String>,
    pub operator: Option<String>,
}

/// The known fields as specifications see them.
pub struct KnownFieldsView {
    pub name: Option<Seq<char>>,
    pub email: Option<Seq<char>>,
    pub phone: Option<Seq<char>>,
    pub website: Option<Seq<char>>,
    pub opening_hours: Option<Seq<char>>,
    pub operator: Option<Seq<char>>,
}

impl View for KnownFields {
    type V = KnownFieldsView;

    open spec fn view(&self) -> KnownFieldsView {
        KnownFieldsView {
            name: text(self.name),
            email: text(self.email),
            phone: text(self.phone),
            website: text(self.website),
            opening_hours: text(self.opening_hours),
            operator: text(self.operator),
        }
    }
}

/// The known fields of an attribute sequence.
pub open spec fn known_fields(attributes: Seq<Attribute>) -> KnownFieldsView {
    KnownFieldsView {
        name: value_of(attributes, "name"@),
        email: value_of(attributes, "email"@),
        phone: value_of(attributes, "phone"@),
        website: value_of(attributes, "website"@),
        opening_hours: value_of(attributes, "opening_hours"@),
        operator: value_of(attributes, "operator"@),
    }
}

/// The two halves of an attribute mapping.
#[derive(Debug, PartialEq, Eq)]
pub struct Partition {
    pub known: KnownFields,
    pub residual: Vec<(String, String)>,
}

/// Whether `key` is one of the reserved keys.
pub fn is_reserved(key: &str) -> (reserved: bool)
    ensures
        reserved == reserved_keys().contains(key@),
{
    str_eq(key, "amenity")
        || str_eq(key, "shop")
        || str_eq(key, "created_by")
        || str_eq(key, "name")
        || str_eq(key, "source")
        || str_eq(key, "email")
        || str_eq(key, "phone")
        || str_eq(key, "website")
        || str_eq(key, "opening_hours")
        || str_eq(key, "operator")
}

/// The pairs of `pairs` whose key is not reserved, in the same order.
pub fn residual_pairs(pairs: Vec<(String, String)>) -> (kept: Vec<(String, String)>)
    ensures
        pairs_view(kept@) == residual(pairs_view(pairs@)),
{
    let ghost all = pairs_view(pairs@);
    let ghost keep = |a: Attribute| is_residual(a);
    let mut kept: Vec<(String, String)> = Vec::new();
    proof {
        reveal(Seq::filter);
        assert(all.take(0).filter(keep) == Seq::<Attribute>::empty());
        assert(pairs_view(kept@) == Seq::<Attribute>::empty());
    }
    for pair in it: pairs
        invariant
            all == pairs_view(pairs@),
            keep == |a: Attribute| is_residual(a),
            pairs_view(kept@) == all.take(it.index() as int).filter(keep),
    {
        let ghost before = pairs_view(kept@);
        let ghost i = it.index() as int;
        proof {
            assert(all.take(i + 1) == all.take(i).push(all[i]));
            all.take(i).lemma_filter_push(all[i], keep);
            assert(all[i] == (pair.0@, pair.1@));
        }
        if !is_reserved(pair.0.as_str()) {
            kept.push(pair);
            assert(pairs_view(kept@) == before.push(all[i]));
        }
    }
    proof {
        assert(all.take(all.len() as int) == all);
    }
    kept
}

/// Splits an attribute mapping into its known fields and its residual pairs.
/// The residual pairs come in the order in which the collection is walked,
/// which is the same for the same collection, and there is exactly one for
/// each key that is not reserved.
pub fn partition(tags: &Tags) -> (parts: Partition)
    ensures
        parts.known@ == known_fields(tag_entries(*tags)),
        pairs_view(parts.residual@) == residual(tag_entries(*tags)),
        parts.residual@.len() == residual_keys(tag_entries(*tags)).len(),
{
    let known = KnownFields {
        name: tags_get(tags, "name"),
        email: tags_get(tags, "email"),
        phone: tags_get(tags, "phone"),
        website: tags_get(tags, "website"),
        opening_hours: tags_get(tags, "opening_hours"),
        operator: tags_get(tags, "operator"),
    };
    let pairs = tags_pairs(tags);
    proof {
        lemma_residual_count(tag_entries(*tags));
    }
    let residual = residual_pairs(pairs);
    Partition { known, residual }
}

} // verus!

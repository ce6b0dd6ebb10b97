//! What holds of classification and row building, for every object.

use crate::classify::{classify, types_view, Type, Types};
use crate::entity::{Entity, Kind};
use crate::partition::{
    is_residual, lemma_residual_count, reserved_keys, residual, residual_keys,
};
use crate::rows::rows_of;
use crate::tags::{distinct_keys, value_of, Attribute};
use vstd::prelude::*;

verus! {

/// A way or a relation contributes no row, whatever its attributes.
pub proof fn law_only_points_are_loaded<C>(entity: Entity<C>)
    requires
        entity.kind() != Kind::Point,
    ensures
        classify(entity.kind(), entity.attributes()) is None,
        rows_of(entity) is None,
{
}

/// A point that carries neither the key `amenity` nor the key `shop`
/// contributes no row.
pub proof fn law_unclassified_points_are_skipped<C>(entity: Entity<C>)
    requires
        entity.kind() == Kind::Point,
        value_of(entity.attributes(), "amenity"@) is None,
        value_of(entity.attributes(), "shop"@) is None,
    ensures
        classify(entity.kind(), entity.attributes()) is None,
        rows_of(entity) is None,
{
}

/// A point that carries the key `shop` and not the key `amenity` is a shop,
/// and its subtype is the value of `shop`.
pub proof fn law_shop_without_amenity<C>(entity: Entity<C>, shop: Seq<char>)
    requires
        entity.kind() == Kind::Point,
        value_of(entity.attributes(), "amenity"@) is None,
        value_of(entity.attributes(), "shop"@) == Some(shop),
    ensures
        classify(entity.kind(), entity.attributes()) == Some((Type::Shop, shop)),
        rows_of(entity) is Some,
        rows_of(entity)->0.point.category == Type::Shop,
        rows_of(entity)->0.point.subtype == shop,
{
}

/// A point that carries both `amenity` and `shop` is loaded once, as an
/// amenity whose subtype is the value of `amenity`. The value of `shop` shows
/// up nowhere: the point row has no place for it, and no tag row has the key
/// `shop`.
pub proof fn law_amenity_wins<C>(entity: Entity<C>, amenity: Seq<char>, shop: Seq<char>)
    requires
        entity.kind() == Kind::Point,
        value_of(entity.attributes(), "amenity"@) == Some(amenity),
        value_of(entity.attributes(), "shop"@) == Some(shop),
    ensures
        classify(entity.kind(), entity.attributes()) == Some((Type::Amenity, amenity)),
        rows_of(entity) is Some,
        rows_of(entity)->0.point.category == Type::Amenity,
        rows_of(entity)->0.point.subtype == amenity,
        forall|i: int|
            0 <= i < rows_of(entity)->0.tags.len() ==> (#[trigger] rows_of(entity)->0.tags[i]).key
                != "shop"@,
{
    law_residual_pairs_are_not_reserved(entity.attributes());
}

/// No residual pair has a reserved key.
pub proof fn law_residual_pairs_are_not_reserved(attributes: Seq<Attribute>)
    ensures
        forall|i: int|
            0 <= i < residual(attributes).len() ==> !reserved_keys().contains(
                (#[trigger] residual(attributes)[i]).0,
            ),
{
    let keep = |a: Attribute| is_residual(a);
    assert forall|i: int| 0 <= i < residual(attributes).len() implies !reserved_keys().contains(
        (#[trigger] residual(attributes)[i]).0,
    ) by {
        attributes.lemma_filter_pred(keep, i);
    }
}

/// The residual pairs are the attributes whose key is not reserved: each of
/// those attributes is among them, and each of them is one of the attributes.
pub proof fn law_residual_pairs_are_the_other_attributes(attributes: Seq<Attribute>)
    ensures
        forall|i: int|
            0 <= i < attributes.len() && !reserved_keys().contains((#[trigger] attributes[i]).0)
                ==> residual(attributes).contains(attributes[i]),
        forall|i: int|
            0 <= i < residual(attributes).len() ==> attributes.contains(
                #[trigger] residual(attributes)[i],
            ),
{
    let keep = |a: Attribute| is_residual(a);
    assert forall|i: int|
        0 <= i < attributes.len() && !reserved_keys().contains(
            (#[trigger] attributes[i]).0,
        ) implies residual(attributes).contains(attributes[i]) by {
        attributes.lemma_filter_contains(keep, i);
    }
    assert forall|i: int| 0 <= i < residual(attributes).len() implies attributes.contains(
        #[trigger] residual(attributes)[i],
    ) by {
        attributes.lemma_filter_contains_rev(keep, residual(attributes)[i]);
    }
}

/// An accepted point gets exactly one tag row for each of its keys that is
/// not reserved, and every one of these rows carries the point's identifier,
/// which is also that of its point row.
pub proof fn law_one_tag_row_per_residual_key<C>(entity: Entity<C>)
    requires
        distinct_keys(entity.attributes()),
        rows_of(entity) is Some,
    ensures
        residual_keys(entity.attributes()).finite(),
        rows_of(entity)->0.tags.len() == residual_keys(entity.attributes()).len(),
        rows_of(entity)->0.point.id == entity.id(),
        forall|i: int|
            0 <= i < rows_of(entity)->0.tags.len() ==> (
            #[trigger] rows_of(entity)->0.tags[i]).point_id == entity.id(),
{
    lemma_residual_count(entity.attributes());
}

/// Classification has no hidden state: two classifications of one object
/// agree.
pub proof fn law_classification_is_stable<C>(
    entity: Entity<C>,
    first: Option<Types>,
    second: Option<Types>,
)
    requires
        types_view(first) == classify(entity.kind(), entity.attributes()),
        types_view(second) == classify(entity.kind(), entity.attributes()),
    ensures
        types_view(first) == types_view(second),
{
}

/// Classification looks at the kind and the attribute mapping only: objects
/// that agree on both are classified alike.
pub proof fn law_classification_reads_kind_and_attributes<C>(a: Entity<C>, b: Entity<C>)
    requires
        a.kind() == b.kind(),
        a.attributes() == b.attributes(),
    ensures
        classify(a.kind(), a.attributes()) == classify(b.kind(), b.attributes()),
{
}

} // verus!

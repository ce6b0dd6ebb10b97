//! The classifier: which objects are loaded, and as what.

use crate::entity::{Entity, Kind};
use crate::tags::{tags_get, text, value_of, Attribute};
use vstd::prelude::*;

verus! {

/// The category of a loaded point.
#[derive(Clone, Copy, Debug, PartialEq, Eq, Structural)]
pub enum Type {
    Amenity,
    Shop,
}

/// A category together with its subtype, the value of the attribute that
/// gave the category.
#[derive(Debug, PartialEq, Eq)]
pub struct Types(pub Type, pub String);

impl View for Types {
    type V = (Type, Seq<char>);

    open spec fn view(&self) -> (Type, Seq<char>) {
        (self.0, self.1@)
    }
}

/// The priority rule on the values of the two keys that classify. `amenity`
/// is looked at first: where both are there the point is an amenity, and the
/// value of `shop` plays no part.
pub open spec fn pick_type(amenity: Option<Seq<char>>, shop: Option<Seq<char>>) -> Option<
    (Type, Seq<char>),
> {
    match (amenity, shop) {
        (Some(subtype), _) => Some((Type::Amenity, subtype)),
        (None, Some(subtype)) => Some((Type::Shop, subtype)),
        (None, None) => None,
    }
}

/// The classification rule. Only a point can be eligible, and only if it
/// carries the key `amenity` or the key `shop`.
pub open spec fn classify(kind: Kind, attributes: Seq<Attribute>) -> Option<(Type, Seq<char>)> {
    if kind == Kind::Point {
        pick_type(value_of(attributes, "amenity"@), value_of(attributes, "shop"@))
    } else {
        None
    }
}

/// What an optional classification holds.
pub open spec fn types_view(types: Option<Types>) -> Option<(Type, Seq<char>)> {
    match types {
        Some(t) => Some(t@),
        None => None,
    }
}

/// Classifies a point by the values that it has under `amenity` and under
/// `shop`: `None` where it has neither.
pub fn types_from(amenity: Option<String>, shop: Option<String>) -> (types: Option<Types>)
    ensures
        types_view(types) == pick_type(text(amenity), text(shop)),
{
    match (amenity, shop) {
        (Some(subtype), _) => Some(Types(Type::Amenity, subtype)),
        (None, Some(subtype)) => Some(Types(Type::Shop, subtype)),
        (None, None) => None,
    }
}

/// Classifies one object: `None` where it is not eligible, else its category
/// and subtype.
pub fn get_types<C>(entity: &Entity<C>) -> (types: Option<Types>)
    ensures
        types_view(types) == classify(entity.kind(), entity.attributes()),
{
    match entity {
        Entity::Point { tags, .. } => types_from(tags_get(tags, "amenity"), tags_get(tags, "shop")),
        _ => None,
    }
}

} // verus!

//! The rows that one object contributes to the store.

use crate::classify::{classify, get_types, Type, Types};
use crate::entity::Entity;
use crate::partition::{
    known_fields, partition, residual, residual_keys, KnownFieldsView, Partition,
};
use crate::tags::{pairs_view, text, Attribute};
use vstd::prelude::*;

verus! {

/// A position as the store takes it: `x` is the longitude, `y` the latitude,
/// and `srid` names the coordinate reference system where the point is tagged
/// with one.
#[derive(Debug, PartialEq)]
pub struct Location<C> {
    pub x: C,
    pub y: C,
    pub srid: Option<i32>,
}

/// One row of the table of points.
#[derive(Debug, PartialEq)]
pub struct PointRecord<C> {
    pub id: i64,
    pub location: Location<C>,
    pub category: Type,
    pub subtype: String,
    pub name: Option<String>,
    pub email: Option<String>,
    pub phone: Option<String>,
    pub website: Option<String>,
    pub opening_hours: Option<String>,
    pub operator: Option<String>,
}

/// A point row as specifications see it.
pub struct PointRecordView<C> {
    pub id: i64,
    pub location: Location<C>,
    pub category: Type,
    pub subtype: Seq<char>,
    pub name: Option<Seq<char>>,
    pub email: Option<Seq<char>>,
    pub phone: Option<Seq<char>>,
    pub website: Option<Seq<char>>,
    pub opening_hours: Option<Seq<char>>,
    pub operator: Option<Seq<char>>,
}

impl<C> View for PointRecord<C> {
    type V = PointRecordView<C>;

    open spec fn view(&self) -> PointRecordView<C> {
        PointRecordView {
            id: self.id,
            location: self.location,
            category: self.category,
            subtype: self.subtype@,
            name: text(self.name),
            email: text(self.email),
            phone: text(self.phone),
            website: text(self.website),
            opening_hours: text(self.opening_hours),
            operator: text(self.operator),
        }
    }
}

/// One row of the table of tags: an attribute that has no column of its own,
/// kept under the identifier of the point it belongs to.
#[derive(Debug, PartialEq, Eq)]
pub struct ResidualTag {
    pub point_id: i64,
    pub key: String,
    pub value: String,
}

/// A tag row as specifications see it.
pub struct ResidualTagView {
    pub point_id: i64,
    pub key: Seq<char>,
    pub value: Seq<char>,
}

impl View for ResidualTag {
    type V = ResidualTagView;

    open spec fn view(&self) -> ResidualTagView {
        ResidualTagView { point_id: self.point_id, key: self.key@, value: self.value@ }
    }
}

/// Everything that one accepted object writes: its point row, then its tag
/// rows in this order.
#[derive(Debug, PartialEq)]
pub struct Rows<C> {
    pub point: PointRecord<C>,
    pub tags: Vec<ResidualTag>,
}

/// The rows of one object as specifications see them.
pub struct RowsView<C> {
    pub point: PointRecordView<C>,
    pub tags: Seq<ResidualTagView>,
}

/// What a vector of tag rows holds.
pub open spec fn tags_view(tags: Seq<ResidualTag>) -> Seq<ResidualTagView> {
    Seq::new(tags.len(), |i: int| tags[i]@)
}

impl<C> View for Rows<C> {
    type V = RowsView<C>;

    open spec fn view(&self) -> RowsView<C> {
        RowsView { point: self.point@, tags: tags_view(self.tags@) }
    }
}

/// The tag rows of a point: one for each of `pairs`, in the same order, each
/// under the point's identifier.
pub open spec fn tags_under(point_id: i64, pairs: Seq<Attribute>) -> Seq<ResidualTagView> {
    Seq::new(
        pairs.len(),
        |i: int| ResidualTagView { point_id, key: pairs[i].0, value: pairs[i].1 },
    )
}

/// The rows of an accepted point, put together from its identifier, its
/// position, its classification and the two halves of its attributes. The
/// position is handed on untouched and without a reference system.
pub open spec fn rows_from<C>(
    id: i64,
    lat: C,
    lon: C,
    types: (Type, Seq<char>),
    known: KnownFieldsView,
    residual: Seq<Attribute>,
) -> RowsView<C> {
    RowsView {
        point: PointRecordView {
            id,
            location: Location { x: lon, y: lat, srid: None },
            category: types.0,
            subtype: types.1,
            name: known.name,
            email: known.email,
            phone: known.phone,
            website: known.website,
            opening_hours: known.opening_hours,
            operator: known.operator,
        },
        tags: tags_under(id, residual),
    }
}

/// The rows of an object: none unless the classifier accepts it, else its
/// point row and a tag row for each of its residual pairs.
pub open spec fn rows_of<C>(entity: Entity<C>) -> Option<RowsView<C>> {
    match entity {
        Entity::Point { id, tags, lat, lon } => match classify(
            entity.kind(),
            entity.attributes(),
        ) {
            Some(types) => Some(
                rows_from(
                    id,
                    lat,
                    lon,
                    types,
                    known_fields(entity.attributes()),
                    residual(entity.attributes()),
                ),
            ),
            None => None,
        },
        _ => None,
    }
}

/// Turns pairs into tag rows of the point `point_id`.
pub fn tag_rows(point_id: i64, pairs: Vec<(String, String)>) -> (rows: Vec<ResidualTag>)
    ensures
        tags_view(rows@) == tags_under(point_id, pairs_view(pairs@)),
{
    let mut rows: Vec<ResidualTag> = Vec::new();
    for pair in it: pairs
        invariant
            rows@.len() == it.index(),
            forall|i: int|
                0 <= i < rows@.len() ==> (#[trigger] rows@[i])@ == (ResidualTagView {
                    point_id,
                    key: pairs@[i].0@,
                    value: pairs@[i].1@,
                }),
    {
        rows.push(ResidualTag { point_id, key: pair.0, value: pair.1 });
    }
    assert(tags_view(rows@) =~= tags_under(point_id, pairs_view(pairs@)));
    rows
}

/// Puts the rows of an accepted point together.
pub fn make_rows<C>(id: i64, lat: C, lon: C, types: Types, parts: Partition) -> (rows: Rows<C>)
    ensures
        rows@ == rows_from(id, lat, lon, types@, parts.known@, pairs_view(parts.residual@)),
{
    let Types(category, subtype) = types;
    let Partition { known, residual } = parts;
    let point = PointRecord {
        id,
        location: Location { x: lon, y: lat, srid: None },
        category,
        subtype,
        name: known.name,
        email: known.email,
        phone: known.phone,
        website: known.website,
        opening_hours: known.opening_hours,
        operator: known.operator,
    };
    Rows { point, tags: tag_rows(id, residual) }
}

/// What optional rows hold.
pub open spec fn rows_view<C>(rows: Option<Rows<C>>) -> Option<RowsView<C>> {
    match rows {
        Some(r) => Some(r@),
        None => None,
    }
}

/// Builds the rows of one object: `None` where the classifier rejects it.
/// An accepted object gets one tag row for each of its keys that is not
/// reserved.
pub fn build_rows<C: Copy>(entity: &Entity<C>) -> (rows: Option<Rows<C>>)
    ensures
        rows_view(rows) == rows_of(*entity),
        rows matches Some(r) ==> r.tags@.len() == residual_keys(entity.attributes()).len(),
{
    match entity {
        Entity::Point { id, tags, lat, lon } => match get_types(entity) {
            Some(types) => {
                let parts = partition(tags);
                let ghost pairs = pairs_view(parts.residual@);
                let rows = make_rows(*id, *lat, *lon, types, parts);
                assert(rows.tags@.len() == rows@.tags.len() == pairs.len());
                Some(rows)
            },
            None => None,
        },
        _ => None,
    }
}

} // verus!

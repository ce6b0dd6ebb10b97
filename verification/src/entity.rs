//! Decoded map objects as the pipeline sees them.

use crate::tags::{tag_entries, Attribute};
use osmpbfreader::Tags;
use vstd::prelude::*;

verus! {

/// The three kinds of object in a map-data stream.
#[derive(Clone, Copy, Debug, PartialEq, Eq, Structural)]
pub enum Kind {
    Point,
    Way,
    Relation,
}

/// One decoded object: its identifier, its attributes and, for a point, its
/// position. `C` is the type of one coordinate; the pipeline hands positions
/// on without looking at them.
///
/// Identifiers are unique within a kind only: a way and a point may share
/// one.
#[derive(Debug)]
pub enum Entity<C> {
    Point { id: i64, tags: Tags, lat: C, lon: C },
    Way { id: i64, tags: Tags },
    Relation { id: i64, tags: Tags },
}

impl<C> Entity<C> {
    pub open spec fn kind(&self) -> Kind {
        match self {
            Entity::Point { .. } => Kind::Point,
            Entity::Way { .. } => Kind::Way,
            Entity::Relation { .. } => Kind::Relation,
        }
    }

    pub open spec fn id(&self) -> i64 {
        match self {
            Entity::Point { id, .. } => *id,
            Entity::Way { id, .. } => *id,
            Entity::Relation { id, .. } => *id,
        }
    }

    pub open spec fn tags(&self) -> Tags {
        match self {
            Entity::Point { tags, .. } => *tags,
            Entity::Way { tags, .. } => *tags,
            Entity::Relation { tags, .. } => *tags,
        }
    }

    /// The attribute mapping, as the pairs that the tag collection holds.
    pub open spec fn attributes(&self) -> Seq<Attribute> {
        tag_entries(self.tags())
    }

    /// Which kind of object this is.
    pub fn get_kind(&self) -> (kind: Kind)
        ensures
            kind == self.kind(),
    {
        match self {
            Entity::Point { .. } => Kind::Point,
            Entity::Way { .. } => Kind::Way,
            Entity::Relation { .. } => Kind::Relation,
        }
    }

    /// The tag collection of the object, whatever its kind.
    pub fn get_tags(&self) -> (tags: &Tags)
        ensures
            *tags == self.tags(),
    {
        match self {
            Entity::Point { tags, .. } => tags,
            Entity::Way { tags, .. } => tags,
            Entity::Relation { tags, .. } => tags,
        }
    }
}

/// The numeric identifier of the object, whatever its kind.
pub fn get_object_id<C>(entity: &Entity<C>) -> (id: i64)
    ensures
        id == entity.id(),
{
    match entity {
        Entity::Point { id, .. } => *id,
        Entity::Way { id, .. } => *id,
        Entity::Relation { id, .. } => *id,
    }
}

} // verus!

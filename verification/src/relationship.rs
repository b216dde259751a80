//! Relationships between a person and a local object, the references by which
//! objects are named across servers, and the table of relationships as a set.

use crate::newtypes::{DbUrl, PersonId};
use vstd::prelude::*;

verus! {

/// The kinds of object that a reference can name.
#[derive(Clone, Copy, PartialEq, Eq, Structural, Debug, Hash)]
pub enum ObjectKind {
    Community,
    Person,
    Post,
}

/// A reference to a community, a person or a post that is valid on every
/// server: the kind of the object and its address. Nothing is known of the
/// object until the reference is resolved.
#[derive(Debug, PartialEq, Eq, Hash)]
pub struct GlobalObjectRef {
    pub kind: ObjectKind,
    pub id: DbUrl,
}

impl View for GlobalObjectRef {
    type V = (ObjectKind, Seq<char>);

    open spec fn view(&self) -> (ObjectKind, Seq<char>) {
        (self.kind, self.id@)
    }
}

impl GlobalObjectRef {
    /// Whether the two references name the same object: equal kinds and
    /// equal addresses.
    pub fn same(&self, other: &GlobalObjectRef) -> (b: bool)
        ensures
            b == (self@ == other@),
    {
        self.kind == other.kind && self.id.same(&other.id)
    }
}

impl Clone for GlobalObjectRef {
    fn clone(&self) -> (copy: GlobalObjectRef)
        ensures
            copy == *self,
    {
        GlobalObjectRef { kind: self.kind, id: self.id.clone() }
    }
}

/// The kinds of relationship between a person and a local object.
#[derive(Clone, Copy, PartialEq, Eq, Structural, Debug, Hash)]
pub enum RelationKind {
    /// The person follows the community.
    Follow,
    /// The person blocks the community.
    BlockCommunity,
    /// The person blocks the other person.
    BlockPerson,
    /// The person saved the post.
    SavePost,
    /// The person is banned from the community.
    BanFromCommunity,
}

impl RelationKind {
    /// The kind of object that each kind of relationship points at.
    pub open spec fn spec_object_kind(self) -> ObjectKind {
        match self {
            RelationKind::Follow => ObjectKind::Community,
            RelationKind::BlockCommunity => ObjectKind::Community,
            RelationKind::BlockPerson => ObjectKind::Person,
            RelationKind::SavePost => ObjectKind::Post,
            RelationKind::BanFromCommunity => ObjectKind::Community,
        }
    }

    /// The kind of object that this kind of relationship points at.
    #[verifier::when_used_as_spec(spec_object_kind)]
    pub fn object_kind(self) -> (kind: ObjectKind)
        ensures
            kind == self.spec_object_kind(),
    {
        match self {
            RelationKind::Follow => ObjectKind::Community,
            RelationKind::BlockCommunity => ObjectKind::Community,
            RelationKind::BlockPerson => ObjectKind::Person,
            RelationKind::SavePost => ObjectKind::Post,
            RelationKind::BanFromCommunity => ObjectKind::Community,
        }
    }
}

/// One row of the relationship table: `subject` stands in relation `kind` to
/// the local object with key `object`. The three together are the row's
/// identity: the table holds at most one row for them.
#[derive(Clone, Copy, PartialEq, Eq, Structural, Debug, Hash)]
pub struct LocalRelationship {
    pub subject: PersonId,
    pub object: i32,
    pub kind: RelationKind,
}

/// The table after `row` is asserted: the row is there, once, whether or not
/// it was there before.
pub open spec fn asserted(
    table: Set<LocalRelationship>,
    row: LocalRelationship,
) -> Set<LocalRelationship> {
    table.insert(row)
}

/// The table after `row` is withdrawn: the row is not there, whether or not
/// it was there before.
pub open spec fn withdrawn(
    table: Set<LocalRelationship>,
    row: LocalRelationship,
) -> Set<LocalRelationship> {
    table.remove(row)
}

/// Asserting a relationship that the table holds changes nothing.
pub proof fn lemma_asserting_a_held_row_is_a_no_op(
    table: Set<LocalRelationship>,
    row: LocalRelationship,
)
    requires
        table.contains(row),
    ensures
        asserted(table, row) == table,
{
    assert(table.insert(row) =~= table);
}

/// Asserting a relationship twice is the same as asserting it once.
pub proof fn lemma_asserting_is_idempotent(table: Set<LocalRelationship>, row: LocalRelationship)
    ensures
        asserted(asserted(table, row), row) == asserted(table, row),
{
    assert(table.insert(row).insert(row) =~= table.insert(row));
}

/// Withdrawing a relationship twice is the same as withdrawing it once.
pub proof fn lemma_withdrawing_is_idempotent(table: Set<LocalRelationship>, row: LocalRelationship)
    ensures
        withdrawn(withdrawn(table, row), row) == withdrawn(table, row),
{
    assert(table.remove(row).remove(row) =~= table.remove(row));
}

} // verus!

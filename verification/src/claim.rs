//! Claims: what a run borrows from the store, as the contracts see it.

use crate::store::{store_has, Column, Store};
use vstd::prelude::*;

verus! {

/// One column of the store taken on loan, and how it is borrowed.
pub struct Claim {
    /// The column of the component type.
    pub column: Column,
    /// Whether the borrow is unique.
    pub exclusive: bool,
    /// Whether the borrow is of the one component of the resource entity;
    /// else it is of the components of all other entities.
    pub resource: bool,
}

impl Claim {
    /// The claim of a shared borrow of the components in `column` of every
    /// entity but the resource entity.
    pub open spec fn column(column: Column) -> Claim {
        Claim { column, exclusive: false, resource: false }
    }

    /// The claim of a shared borrow of the resource in `column`.
    pub open spec fn shared(column: Column) -> Claim {
        Claim { column, exclusive: false, resource: true }
    }

    /// The claim of a unique borrow of the resource in `column`.
    pub open spec fn exclusive(column: Column) -> Claim {
        Claim { column, exclusive: true, resource: true }
    }
}

/// Two claims clash where they are on one column, both of the resource
/// entity or both of the others, and one of them is unique. A query leaves
/// the resource entity out, so that a claim on a resource and a claim on the
/// components of the other entities never meet.
pub open spec fn clash(a: Claim, b: Claim) -> bool {
    a.column == b.column && a.resource == b.resource && (a.exclusive || b.exclusive)
}

/// Whether `claims` hold `column` of the resource entity uniquely.
pub open spec fn holds_uniquely(claims: Seq<Claim>, column: Column) -> bool {
    claims.contains(Claim::exclusive(column))
}

/// `claim` clashes with none of `open`.
pub open spec fn admits(open: Seq<Claim>, claim: Claim) -> bool {
    forall|i: int| 0 <= i < open.len() ==> !clash(#[trigger] open[i], claim)
}

/// The most claims that may be open on one store: the store counts the shared
/// borrows of a column in a machine word less one bit, which is 31 bits or
/// more.
pub open spec fn claim_limit() -> int {
    0x7fff_ffff
}

/// `claims` can be opened one after the other while `open` are open: they
/// clash neither with those nor among themselves, and are no more than the
/// store can count.
pub open spec fn admits_all(open: Seq<Claim>, claims: Seq<Claim>) -> bool {
    &&& open.len() + claims.len() <= claim_limit()
    &&& forall|j: int| 0 <= j < claims.len() ==> admits(open, #[trigger] claims[j])
    &&& forall|i: int, j: int|
        0 <= i < j < claims.len() ==> !clash(#[trigger] claims[i], #[trigger] claims[j])
}

/// Claims that can be opened in a row can be opened in two parts.
pub proof fn lemma_admits_all_split(open: Seq<Claim>, first: Seq<Claim>, second: Seq<Claim>)
    requires
        admits_all(open, first + second),
    ensures
        admits_all(open, first),
        admits_all(open + first, second),
{
    let both = first + second;
    let held = open + first;
    assert forall|j: int| 0 <= j < first.len() implies admits(open, #[trigger] first[j]) by {
        assert(both[j] == first[j]);
    }
    assert forall|i: int, j: int| 0 <= i < j < first.len() implies !clash(
        #[trigger] first[i],
        #[trigger] first[j],
    ) by {
        assert(both[i] == first[i]);
        assert(both[j] == first[j]);
    }
    assert forall|j: int| 0 <= j < second.len() implies admits(held, #[trigger] second[j]) by {
        assert(both[first.len() + j] == second[j]);
        assert forall|i: int| 0 <= i < held.len() implies !clash(#[trigger] held[i], second[j]) by {
            if i < open.len() {
                assert(held[i] == open[i]);
            } else {
                assert(held[i] == first[i - open.len()]);
                assert(both[i - open.len()] == first[i - open.len()]);
            }
        }
    }
    assert forall|i: int, j: int| 0 <= i < j < second.len() implies !clash(
        #[trigger] second[i],
        #[trigger] second[j],
    ) by {
        assert(both[first.len() + i] == second[i]);
        assert(both[first.len() + j] == second[j]);
    }
}

/// Claims of which two clash cannot be opened in a row, whatever is open.
pub proof fn lemma_clash_is_not_admitted(open: Seq<Claim>, claims: Seq<Claim>, i: int, j: int)
    requires
        0 <= i < j < claims.len(),
        clash(claims[i], claims[j]),
    ensures
        !admits_all(open, claims),
{
}

/// `store` has, on the entity `resources`, every resource that `claims` ask
/// for.
pub open spec fn provides(store: Store, resources: hecs::Entity, claims: Seq<Claim>) -> bool {
    forall|i: int|
        0 <= i < claims.len() && (#[trigger] claims[i]).resource ==> store_has(
            store,
            resources,
            claims[i].column,
        )
}

/// A store that provides for claims provides for each part of them.
pub proof fn lemma_provides_split(
    store: Store,
    resources: hecs::Entity,
    first: Seq<Claim>,
    second: Seq<Claim>,
)
    requires
        provides(store, resources, first + second),
    ensures
        provides(store, resources, first),
        provides(store, resources, second),
{
    let both = first + second;
    assert forall|i: int|
        0 <= i < first.len() && (#[trigger] first[i]).resource implies store_has(
        store,
        resources,
        first[i].column,
    ) by {
        assert(both[i] == first[i]);
    }
    assert forall|i: int|
        0 <= i < second.len() && (#[trigger] second[i]).resource implies store_has(
        store,
        resources,
        second[i].column,
    ) by {
        assert(both[first.len() + i] == second[i]);
    }
}

} // verus!

//! Which participant simulates which entity.

use vstd::prelude::*;
use std::collections::HashMap;

verus! {

broadcast use vstd::std_specs::hash::group_hash_axioms;

/// The assignment of entities to the participants that simulate them. An
/// entity is assigned once, when it is created, and the assignment never
/// changes afterwards: there is no operation that moves or revokes it.
pub struct AuthorityModel {
    assignments: HashMap<u64, i64>,
}

impl View for AuthorityModel {
    type V = Map<u64, i64>;

    closed spec fn view(&self) -> Map<u64, i64> {
        self.assignments@
    }
}

/// Whether `participant` is the authority of `entity` under `m`.
pub open spec fn is_authority_in(m: Map<u64, i64>, entity: u64, participant: i64) -> bool {
    m.contains_key(entity) && m[entity] == participant
}

/// The assignment after an attempt to assign `entity` to `participant`: an
/// entity that already has an authority keeps it.
pub open spec fn after_assign(m: Map<u64, i64>, entity: u64, participant: i64) -> Map<u64, i64> {
    if m.contains_key(entity) {
        m
    } else {
        m.insert(entity, participant)
    }
}

/// The assignment after a sequence of attempts, each an entity and a
/// participant, in order.
pub open spec fn after_assigns(m: Map<u64, i64>, attempts: Seq<(u64, i64)>) -> Map<u64, i64>
    decreases attempts.len(),
{
    if attempts.len() == 0 {
        m
    } else {
        after_assign(
            after_assigns(m, attempts.drop_last()),
            attempts.last().0,
            attempts.last().1,
        )
    }
}

impl AuthorityModel {
    /// The model without any assignment.
    pub fn new() -> (r: AuthorityModel)
        ensures
            r@ == Map::<u64, i64>::empty(),
    {
        AuthorityModel { assignments: HashMap::new() }
    }

    /// Assigns `entity` to `participant` and reports whether it did. An
    /// entity that already has an authority keeps it: the call changes
    /// nothing and reports failure.
    pub fn assign(&mut self, entity: u64, participant: i64) -> (r: bool)
        ensures
            r == !old(self)@.contains_key(entity),
            final(self)@ == after_assign(old(self)@, entity, participant),
    {
        if self.assignments.contains_key(&entity) {
            false
        } else {
            self.assignments.insert(entity, participant);
            true
        }
    }

    /// Whether `participant` may simulate `entity`.
    pub fn is_authority(&self, entity: u64, participant: i64) -> (r: bool)
        ensures
            r == is_authority_in(self@, entity, participant),
    {
        match self.assignments.get(&entity) {
            Some(p) => *p == participant,
            None => false,
        }
    }

    /// The authority of `entity`, if it has one.
    pub fn authority_of(&self, entity: u64) -> (r: Option<i64>)
        ensures
            r == if self@.contains_key(entity) {
                Some(self@[entity])
            } else {
                None
            },
    {
        match self.assignments.get(&entity) {
            Some(p) => Some(*p),
            None => None,
        }
    }
}

/// An entity has at most one authority: two participants that both pass the
/// authority check for one entity are the same participant.
pub proof fn lemma_single_authority(m: Map<u64, i64>, entity: u64, a: i64, b: i64)
    requires
        is_authority_in(m, entity, a),
        is_authority_in(m, entity, b),
    ensures
        a == b,
{
}

/// Authority never migrates: an entity that has an authority keeps that
/// same authority through every later attempt to assign anything.
pub proof fn lemma_authority_is_fixed(m: Map<u64, i64>, attempts: Seq<(u64, i64)>, entity: u64)
    requires
        m.contains_key(entity),
    ensures
        after_assigns(m, attempts).contains_key(entity),
        after_assigns(m, attempts)[entity] == m[entity],
    decreases attempts.len(),
{
    if attempts.len() > 0 {
        lemma_authority_is_fixed(m, attempts.drop_last(), entity);
    }
}

} // verus!

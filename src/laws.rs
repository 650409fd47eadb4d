//! What holds of repeated runs of the update routine.
use vstd::prelude::*;

use crate::meter::MeterState;
use crate::query::{updated, updated_n, EntityState};

verus! {

/// Updating keeps the number of entities.
pub proof fn lemma_updated_n_len(s: Seq<EntityState>, n: nat)
    ensures
        updated_n(s, n).len() == s.len(),
    decreases n,
{
    if n > 0 {
        lemma_updated_n_len(s, (n - 1) as nat);
    }
}

/// Effects are not used up: after `n` runs of the update routine, a matched
/// entity whose meter held `c0` and whose effect amount is `a` holds
/// `c0 + n * a`, with the same maximum and the same effect.
pub proof fn lemma_updates_accumulate(s: Seq<EntityState>, n: nat, i: int)
    requires
        0 <= i < s.len(),
        s[i].matched(),
    ensures
        updated_n(s, n)[i] == (EntityState {
            meter: Some(
                MeterState {
                    max: s[i].meter.unwrap().max,
                    current: s[i].meter.unwrap().current + n * s[i].effect.unwrap(),
                },
            ),
            effect: s[i].effect,
        }),
    decreases n,
{
    if n > 0 {
        lemma_updates_accumulate(s, (n - 1) as nat, i);
        lemma_updated_n_len(s, (n - 1) as nat);
        let a = s[i].effect.unwrap();
        assert((n - 1) * a + a == n * a) by (nonlinear_arith);
    }
}

/// An entity that lacks a meter or an effect of the matching kinds is left
/// as it is by any number of runs of the update routine.
pub proof fn lemma_unmatched_unchanged(s: Seq<EntityState>, n: nat, i: int)
    requires
        0 <= i < s.len(),
        !s[i].matched(),
    ensures
        updated_n(s, n)[i] == s[i],
    decreases n,
{
    if n > 0 {
        lemma_unmatched_unchanged(s, (n - 1) as nat, i);
        lemma_updated_n_len(s, (n - 1) as nat);
    }
}

/// Entities update independently: after `n` runs, what an entity holds
/// depends on its own meter and effect alone, whatever the other entities
/// hold.
pub proof fn lemma_entities_independent(s: Seq<EntityState>, t: Seq<EntityState>, n: nat, i: int)
    requires
        0 <= i < s.len(),
        0 <= i < t.len(),
        s[i] == t[i],
    ensures
        updated_n(s, n)[i] == updated_n(t, n)[i],
    decreases n,
{
    if n > 0 {
        lemma_entities_independent(s, t, (n - 1) as nat, i);
        lemma_updated_n_len(s, (n - 1) as nat);
        lemma_updated_n_len(t, (n - 1) as nat);
    }
}

} // verus!

//! The entities that an update routine walks, and the update routine itself.
use vstd::prelude::*;

use crate::field::MeterField;
use crate::meter::{Meter, MeterEffect, MeterEffectMarker, MeterMarker, MeterState};

verus! {

/// One entity as the update routine of some effect kind sees it: its meter of
/// the targeted kind and its effect, either of which may be absent.
pub ghost struct EntityState {
    pub meter: Option<MeterState>,
    pub effect: Option<int>,
}

impl EntityState {
    /// The entity carries both a meter and an effect of the kinds that match.
    pub open spec fn matched(self) -> bool {
        self.meter.is_some() && self.effect.is_some()
    }

    /// The entity after one update: a matched entity's current amount grows by
    /// the effect's amount; anything else stays as it was.
    pub open spec fn after_update(self) -> EntityState {
        match (self.meter, self.effect) {
            (Some(m), Some(a)) => EntityState {
                meter: Some(MeterState { max: m.max, current: m.current + a }),
                effect: self.effect,
            },
            _ => self,
        }
    }
}

/// All entities after one update.
pub open spec fn updated(s: Seq<EntityState>) -> Seq<EntityState> {
    s.map_values(|e: EntityState| e.after_update())
}

/// All entities after `n` updates.
pub open spec fn updated_n(s: Seq<EntityState>, n: nat) -> Seq<EntityState>
    decreases n,
{
    if n == 0 {
        s
    } else {
        updated(updated_n(s, (n - 1) as nat))
    }
}

/// The entities that the update routine of effect kind `T` walks, indexed by
/// entity. Each entity may carry a meter of kind `T::Marker` and an effect of
/// kind `T`; meters and effects of other kinds live in other queries, so they
/// can never be paired with these.
pub struct MeterEffectQuery<T: MeterEffectMarker> {
    entities: Vec<(Option<Meter<T::Marker>>, Option<MeterEffect<T>>)>,
}

/// The state of one stored entity.
pub open spec fn entity_state<T: MeterEffectMarker>(
    e: (Option<Meter<T::Marker>>, Option<MeterEffect<T>>),
) -> EntityState {
    EntityState {
        meter: match e.0 {
            Some(m) => Some(m@),
            None => None,
        },
        effect: match e.1 {
            Some(x) => Some(x@),
            None => None,
        },
    }
}

impl<T: MeterEffectMarker> View for MeterEffectQuery<T> {
    type V = Seq<EntityState>;

    closed spec fn view(&self) -> Seq<EntityState> {
        self.entities@.map_values(|e: (Option<Meter<T::Marker>>, Option<MeterEffect<T>>)| entity_state(e))
    }
}

impl<T: MeterEffectMarker> MeterEffectQuery<T> {
    /// Whether one update of `s` keeps every matched entity's current amount
    /// within the meter's field type.
    pub open spec fn update_fits(s: Seq<EntityState>) -> bool {
        forall|i: int|
            0 <= i < s.len() && (#[trigger] s[i]).matched() ==> <<T::Marker as MeterMarker>::Field as MeterField>::fits(
                s[i].meter.unwrap().current + s[i].effect.unwrap(),
            )
    }
}

impl<T: MeterEffectMarker> MeterEffectQuery<T> {
    /// A query over no entities.
    pub fn new() -> (r: Self)
        ensures
            r@ == Seq::<EntityState>::empty(),
    {
        let r = MeterEffectQuery { entities: Vec::new() };
        assert(r@ =~= Seq::<EntityState>::empty());
        r
    }

    /// The number of entities.
    pub fn len(&self) -> (r: usize)
        ensures
            r == self@.len(),
    {
        self.entities.len()
    }

    /// Adds an entity that carries neither a meter nor an effect, and returns
    /// its index.
    pub fn spawn(&mut self) -> (entity: usize)
        ensures
            entity == old(self)@.len(),
            final(self)@ == old(self)@.push(EntityState { meter: None, effect: None }),
    {
        let entity = self.entities.len();
        self.entities.push((None, None));
        assert(self@ =~= old(self)@.push(EntityState { meter: None, effect: None }));
        entity
    }

    /// Attaches `meter` to `entity`, in place of any meter it carried.
    pub fn insert_meter(&mut self, entity: usize, meter: Meter<T::Marker>)
        requires
            entity < old(self)@.len(),
        ensures
            final(self)@ == old(self)@.update(
                entity as int,
                EntityState { meter: Some(meter@), effect: old(self)@[entity as int].effect },
            ),
    {
        let ghost mv = meter@;
        self.entities[entity].0 = Some(meter);
        assert(self@ =~= old(self)@.update(
            entity as int,
            EntityState { meter: Some(mv), effect: old(self)@[entity as int].effect },
        )) by {
            assert(self.entities@ == old(self).entities@.update(entity as int, self.entities@[entity as int]));
        }
    }

    /// Detaches the meter of `entity`, and returns it if there was one.
    pub fn remove_meter(&mut self, entity: usize) -> (r: Option<Meter<T::Marker>>)
        requires
            entity < old(self)@.len(),
        ensures
            old(self)@[entity as int].meter == match r {
                Some(m) => Some(m@),
                None => None,
            },
            final(self)@ == old(self)@.update(
                entity as int,
                EntityState { meter: None, effect: old(self)@[entity as int].effect },
            ),
    {
        let r = self.entities[entity].0.take();
        assert(self@ =~= old(self)@.update(
            entity as int,
            EntityState { meter: None, effect: old(self)@[entity as int].effect },
        )) by {
            assert(self.entities@ == old(self).entities@.update(entity as int, self.entities@[entity as int]));
        }
        r
    }

    /// Attaches `effect` to `entity`, in place of any effect it carried.
    pub fn insert_effect(&mut self, entity: usize, effect: MeterEffect<T>)
        requires
            entity < old(self)@.len(),
        ensures
            final(self)@ == old(self)@.update(
                entity as int,
                EntityState { meter: old(self)@[entity as int].meter, effect: Some(effect@) },
            ),
    {
        let ghost ev = effect@;
        self.entities[entity].1 = Some(effect);
        assert(self@ =~= old(self)@.update(
            entity as int,
            EntityState { meter: old(self)@[entity as int].meter, effect: Some(ev) },
        )) by {
            assert(self.entities@ == old(self).entities@.update(entity as int, self.entities@[entity as int]));
        }
    }

    /// Detaches the effect of `entity`, and returns it if there was one.
    pub fn remove_effect(&mut self, entity: usize) -> (r: Option<MeterEffect<T>>)
        requires
            entity < old(self)@.len(),
        ensures
            old(self)@[entity as int].effect == match r {
                Some(x) => Some(x@),
                None => None,
            },
            final(self)@ == old(self)@.update(
                entity as int,
                EntityState { meter: old(self)@[entity as int].meter, effect: None },
            ),
    {
        let r = self.entities[entity].1.take();
        assert(self@ =~= old(self)@.update(
            entity as int,
            EntityState { meter: old(self)@[entity as int].meter, effect: None },
        )) by {
            assert(self.entities@ == old(self).entities@.update(entity as int, self.entities@[entity as int]));
        }
        r
    }

    /// The meter that `entity` carries, if any.
    pub fn meter(&self, entity: usize) -> (r: Option<&Meter<T::Marker>>)
        requires
            entity < self@.len(),
        ensures
            self@[entity as int].meter == match r {
                Some(m) => Some(m@),
                None => None,
            },
    {
        self.entities[entity].0.as_ref()
    }

    /// The effect that `entity` carries, if any.
    pub fn effect(&self, entity: usize) -> (r: Option<&MeterEffect<T>>)
        requires
            entity < self@.len(),
        ensures
            self@[entity as int].effect == match r {
                Some(x) => Some(x@),
                None => None,
            },
    {
        self.entities[entity].1.as_ref()
    }

    /// Whether one run of the update routine keeps every matched entity's
    /// current amount within the meter's field type.
    pub fn can_update(&self) -> (r: bool)
        ensures
            r == Self::update_fits(self@),
    {
        let n = self.entities.len();
        let mut i: usize = 0;
        while i < n
            invariant
                n == self.entities.len(),
                i <= n,
                forall|j: int| 0 <= j < i && (#[trigger] self@[j]).matched() ==> <<T::Marker as MeterMarker>::Field as MeterField>::fits(
                    self@[j].meter.unwrap().current + self@[j].effect.unwrap(),
                ),
            decreases n - i,
        {
            let entity = &self.entities[i];
            if let (Some(meter), Some(effect)) = (&entity.0, &entity.1) {
                if !meter.current.sum_fits(&effect.amount()) {
                    assert(self@[i as int] == entity_state(self.entities@[i as int]));
                    return false;
                }
            }
            assert(self@[i as int] == entity_state(self.entities@[i as int]));
            i += 1;
        }
        true
    }
}

impl<T: MeterEffectMarker> MeterEffect<T> {
    /// The update routine: for every entity of `query` that carries both a
    /// meter and an effect, adds the effect's amount into the meter's current
    /// amount. The effect stays attached, and entities without both are left
    /// as they are.
    pub fn apply_effect(query: &mut MeterEffectQuery<T>)
        requires
            MeterEffectQuery::<T>::update_fits(old(query)@),
        ensures
            final(query)@ == updated(old(query)@),
            final(query)@.len() == old(query)@.len(),
            forall|i: int|
                0 <= i < old(query)@.len() && (#[trigger] old(query)@[i]).matched() ==> final(query)@[i]
                    == (EntityState {
                    meter: Some(
                        MeterState {
                            max: old(query)@[i].meter.unwrap().max,
                            current: old(query)@[i].meter.unwrap().current + old(query)@[i].effect.unwrap(),
                        },
                    ),
                    effect: old(query)@[i].effect,
                }),
            forall|i: int|
                0 <= i < old(query)@.len() && !(#[trigger] old(query)@[i]).matched() ==> final(query)@[i]
                    == old(query)@[i],
    {
        let n = query.entities.len();
        let mut i: usize = 0;
        while i < n
            invariant
                n == query.entities.len(),
                i <= n,
                old(query)@.len() == n,
                MeterEffectQuery::<T>::update_fits(old(query)@),
                forall|j: int| 0 <= j < i ==> #[trigger] query@[j] == old(query)@[j].after_update(),
                forall|j: int| i <= j < n ==> #[trigger] query@[j] == old(query)@[j],
            decreases n - i,
        {
            let ghost before = query.entities@;
            let ghost prev = query@;
            proof {
                assert(query@[i as int] == entity_state(before[i as int]));
                assert(old(query)@[i as int] == query@[i as int]);
                assert(old(query)@[i as int].matched() ==> old(query)@[i as int].meter.unwrap().current
                    + old(query)@[i as int].effect.unwrap() == before[i as int].0.unwrap()@.current
                    + before[i as int].1.unwrap()@);
            }
            let entity = &mut query.entities[i];
            if let Some(meter) = &mut entity.0 {
                if let Some(effect) = &entity.1 {
                    effect.apply_to(meter);
                }
            }
            proof {
                assert(query.entities@ == before.update(i as int, query.entities@[i as int]));
                assert(query@[i as int] == old(query)@[i as int].after_update());
                assert forall|j: int| 0 <= j < n && j != i implies #[trigger] query@[j] == prev[j] by {
                    assert(query.entities@[j] == before[j]);
                    assert(prev[j] == entity_state(before[j]));
                }
            }
            i += 1;
        }
        assert(query@ =~= updated(old(query)@));
    }
}

} // verus!

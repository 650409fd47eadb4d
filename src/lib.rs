//! Metered numeric resources for game entities (health, mana, stamina) and the
//! additive effects that change them.
//!
//! A [`Meter`] holds a maximum and a current amount of a numeric field type. A
//! [`MeterMarker`] tags each kind of meter and chooses its field type, so that
//! meters of different kinds never mix even though they share all their logic.
//! A [`MeterEffect`] is a signed delta aimed, through its [`MeterEffectMarker`],
//! at exactly one kind of meter. [`MeterEffect::apply_effect`] adds each
//! effect into the meter on the same entity, once per call, and keeps the
//! effect in place.
pub mod field;
pub mod meter;
pub mod query;
pub mod laws;

pub use field::MeterField;
pub use meter::{Meter, MeterEffect, MeterEffectMarker, MeterMarker, MeterState};
pub use query::{EntityState, MeterEffectQuery};

//! Meters, effects, and the marker traits that tell their kinds apart.
use core::marker::PhantomData;
use vstd::prelude::*;

use crate::field::MeterField;

verus! {

/// Tags one kind of meter (health, mana, ...) and chooses the numeric type of
/// its amounts. Meters of two different markers are different types.
pub trait MeterMarker: Send + Sync {
    /// The type of the meter's amounts, typically `i64` or `i32`.
    type Field: MeterField;
}

/// Tags one kind of effect and names the one kind of meter it acts on.
pub trait MeterEffectMarker: Send + Sync {
    /// The marker of the meters that effects of this kind change.
    type Marker: MeterMarker;
}

/// What a meter holds, as integers.
pub ghost struct MeterState {
    pub max: int,
    pub current: int,
}

/// An expendable resource of an entity: a maximum and the amount held now.
/// Nothing keeps `current` within `0..=max`; bounds are the caller's concern.
pub struct Meter<T: MeterMarker> {
    /// The maximum amount storable in the meter.
    pub max: T::Field,
    /// The amount stored in the meter now.
    pub current: T::Field,
    /// The kind of the meter; it holds no data.
    pub marker: PhantomData<T>,
}

impl<T: MeterMarker> View for Meter<T> {
    type V = MeterState;

    open spec fn view(&self) -> MeterState {
        MeterState { max: self.max.to_int(), current: self.current.to_int() }
    }
}

impl<T: MeterMarker> Meter<T> {
    /// A meter that starts full: its current amount is its maximum. Any
    /// maximum is accepted, zero and negative ones too.
    pub fn new_from_max(max: T::Field) -> (r: Self)
        ensures
            r.max == max,
            r.current == max,
    {
        Meter { max: max, current: max, marker: PhantomData }
    }
}

/// A change of the current amount of meters of kind `T::Marker`, positive or
/// negative. The effect is not used up: each application adds it again.
pub struct MeterEffect<T: MeterEffectMarker> {
    /// The amount by which the meter changes.
    amount: <T::Marker as MeterMarker>::Field,
    _marker: PhantomData<T>,
}

impl<T: MeterEffectMarker> MeterEffect<T> {
    /// The amount by which this effect changes a meter.
    pub closed spec fn spec_amount(&self) -> <T::Marker as MeterMarker>::Field {
        self.amount
    }

    /// An effect that changes its meter by `amount`.
    pub fn new(amount: <T::Marker as MeterMarker>::Field) -> (r: Self)
        ensures
            r.spec_amount() == amount,
    {
        MeterEffect { amount: amount, _marker: PhantomData }
    }

    /// The amount by which this effect changes a meter.
    pub fn amount(&self) -> (r: <T::Marker as MeterMarker>::Field)
        ensures
            r == self.spec_amount(),
    {
        self.amount
    }

    /// Whether applying this effect to `meter` gives an amount that its field
    /// type can hold.
    pub open spec fn fits_on(&self, meter: MeterState) -> bool {
        <<T::Marker as MeterMarker>::Field as MeterField>::fits(meter.current + self@)
    }

    /// Adds the amount of this effect into the current amount of `meter`.
    pub fn apply_to(&self, meter: &mut Meter<T::Marker>)
        requires
            self.fits_on(old(meter)@),
        ensures
            final(meter).max == old(meter).max,
            final(meter)@.current == old(meter)@.current + self@,
    {
        meter.current.add_assign(self.amount);
    }
}

impl<T: MeterEffectMarker> View for MeterEffect<T> {
    type V = int;

    open spec fn view(&self) -> int {
        self.spec_amount().to_int()
    }
}

} // verus!

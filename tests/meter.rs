use meter::{Meter, MeterEffect, MeterEffectMarker, MeterEffectQuery, MeterField, MeterMarker};

struct HealthMarker;
impl MeterMarker for HealthMarker {
    type Field = i64;
}

struct ManaMarker;
impl MeterMarker for ManaMarker {
    type Field = i32;
}

struct StaminaMarker;
impl MeterMarker for StaminaMarker {
    type Field = u32;
}

struct FireDamageMarker;
impl MeterEffectMarker for FireDamageMarker {
    type Marker = HealthMarker;
}

struct ManaDrainMarker;
impl MeterEffectMarker for ManaDrainMarker {
    type Marker = ManaMarker;
}

struct RestMarker;
impl MeterEffectMarker for RestMarker {
    type Marker = StaminaMarker;
}

type HealthMeter = Meter<HealthMarker>;
type ManaMeter = Meter<ManaMarker>;
type FireDamage = MeterEffect<FireDamageMarker>;
type ManaDrain = MeterEffect<ManaDrainMarker>;

fn current_health(q: &MeterEffectQuery<FireDamageMarker>, entity: usize) -> i64 {
    q.meter(entity).unwrap().current
}

#[test]
fn new_from_max_fills_meter() {
    for m in [100i64, 0, -7, i64::MAX, i64::MIN] {
        let meter = HealthMeter::new_from_max(m);
        assert_eq!(meter.max, m);
        assert_eq!(meter.current, m);
    }
    let mana = ManaMeter::new_from_max(50);
    assert_eq!((mana.max, mana.current), (50, 50));
}

#[test]
fn effect_keeps_its_amount() {
    assert_eq!(FireDamage::new(-5).amount(), -5);
    assert_eq!(ManaDrain::new(12).amount(), 12);
}

#[test]
fn apply_to_adds_amount() {
    let mut meter = HealthMeter::new_from_max(100);
    FireDamage::new(-5).apply_to(&mut meter);
    assert_eq!(meter.current, 95);
    assert_eq!(meter.max, 100);
    FireDamage::new(30).apply_to(&mut meter);
    assert_eq!(meter.current, 125);
    assert_eq!(meter.max, 100);
}

#[test]
fn one_update_adds_amount_once() {
    let mut q = MeterEffectQuery::<FireDamageMarker>::new();
    let e = q.spawn();
    let mut meter = HealthMeter::new_from_max(100);
    meter.current = 40;
    q.insert_meter(e, meter);
    q.insert_effect(e, FireDamage::new(-3));
    MeterEffect::apply_effect(&mut q);
    assert_eq!(current_health(&q, e), 37);
    assert_eq!(q.meter(e).unwrap().max, 100);
    assert_eq!(q.effect(e).unwrap().amount(), -3);
}

#[test]
fn n_updates_add_amount_n_times() {
    let mut q = MeterEffectQuery::<FireDamageMarker>::new();
    let e = q.spawn();
    q.insert_meter(e, HealthMeter::new_from_max(10));
    q.insert_effect(e, FireDamage::new(4));
    for _ in 0..7 {
        MeterEffect::apply_effect(&mut q);
    }
    assert_eq!(current_health(&q, e), 10 + 7 * 4);
    assert_eq!(q.meter(e).unwrap().max, 10);
}

#[test]
fn no_clamping_either_way() {
    let mut q = MeterEffectQuery::<FireDamageMarker>::new();
    let low = q.spawn();
    let high = q.spawn();
    q.insert_meter(low, HealthMeter::new_from_max(3));
    q.insert_effect(low, FireDamage::new(-5));
    q.insert_meter(high, HealthMeter::new_from_max(3));
    q.insert_effect(high, FireDamage::new(5));
    MeterEffect::apply_effect(&mut q);
    assert_eq!(current_health(&q, low), -2);
    assert_eq!(current_health(&q, high), 8);
}

#[test]
fn other_meter_kind_on_same_entity_is_untouched() {
    let mut health = MeterEffectQuery::<FireDamageMarker>::new();
    let mut mana = MeterEffectQuery::<ManaDrainMarker>::new();
    let e = health.spawn();
    assert_eq!(mana.spawn(), e);
    health.insert_meter(e, HealthMeter::new_from_max(100));
    health.insert_effect(e, FireDamage::new(-5));
    mana.insert_meter(e, ManaMeter::new_from_max(30));
    mana.insert_effect(e, ManaDrain::new(-2));
    for _ in 0..3 {
        MeterEffect::apply_effect(&mut health);
    }
    assert_eq!(current_health(&health, e), 85);
    assert_eq!(mana.meter(e).unwrap().current, 30);
    MeterEffect::apply_effect(&mut mana);
    assert_eq!(mana.meter(e).unwrap().current, 28);
    assert_eq!(current_health(&health, e), 85);
}

#[test]
fn effect_without_meter_changes_nothing() {
    let mut q = MeterEffectQuery::<FireDamageMarker>::new();
    let e = q.spawn();
    q.insert_effect(e, FireDamage::new(-5));
    MeterEffect::apply_effect(&mut q);
    assert!(q.meter(e).is_none());
    assert_eq!(q.effect(e).unwrap().amount(), -5);
}

#[test]
fn meter_without_effect_changes_nothing() {
    let mut q = MeterEffectQuery::<FireDamageMarker>::new();
    let e = q.spawn();
    q.insert_meter(e, HealthMeter::new_from_max(20));
    MeterEffect::apply_effect(&mut q);
    assert_eq!(current_health(&q, e), 20);
    assert!(q.effect(e).is_none());
}

#[test]
fn entities_update_independently() {
    let mut q = MeterEffectQuery::<FireDamageMarker>::new();
    let a = q.spawn();
    let b = q.spawn();
    q.insert_meter(a, HealthMeter::new_from_max(100));
    q.insert_effect(a, FireDamage::new(-5));
    q.insert_meter(b, HealthMeter::new_from_max(7));
    q.insert_effect(b, FireDamage::new(1000));
    MeterEffect::apply_effect(&mut q);
    assert_eq!(current_health(&q, a), 95);
    assert_eq!(current_health(&q, b), 1007);

    let mut alone = MeterEffectQuery::<FireDamageMarker>::new();
    let only = alone.spawn();
    alone.insert_meter(only, HealthMeter::new_from_max(100));
    alone.insert_effect(only, FireDamage::new(-5));
    MeterEffect::apply_effect(&mut alone);
    assert_eq!(current_health(&alone, only), current_health(&q, a));
}

#[test]
fn fire_damage_then_detach() {
    let mut q = MeterEffectQuery::<FireDamageMarker>::new();
    let e = q.spawn();
    q.insert_meter(e, HealthMeter::new_from_max(100));
    assert_eq!(current_health(&q, e), 100);
    q.insert_effect(e, FireDamage::new(-5));
    MeterEffect::apply_effect(&mut q);
    assert_eq!(current_health(&q, e), 95);
    MeterEffect::apply_effect(&mut q);
    assert_eq!(current_health(&q, e), 90);
    let removed = q.remove_effect(e);
    assert_eq!(removed.unwrap().amount(), -5);
    MeterEffect::apply_effect(&mut q);
    assert_eq!(current_health(&q, e), 90);
}

#[test]
fn remove_meter_detaches_it() {
    let mut q = MeterEffectQuery::<FireDamageMarker>::new();
    let e = q.spawn();
    assert!(q.remove_meter(e).is_none());
    q.insert_meter(e, HealthMeter::new_from_max(9));
    q.insert_effect(e, FireDamage::new(1));
    assert_eq!(q.remove_meter(e).unwrap().current, 9);
    MeterEffect::apply_effect(&mut q);
    assert!(q.meter(e).is_none());
    assert_eq!(q.len(), 1);
}

#[test]
fn spawn_counts_entities() {
    let mut q = MeterEffectQuery::<FireDamageMarker>::new();
    assert_eq!(q.len(), 0);
    assert_eq!(q.spawn(), 0);
    assert_eq!(q.spawn(), 1);
    assert_eq!(q.len(), 2);
    assert!(q.meter(1).is_none());
    assert!(q.effect(1).is_none());
}

#[test]
fn can_update_detects_overflow() {
    let mut q = MeterEffectQuery::<FireDamageMarker>::new();
    assert!(q.can_update());
    let e = q.spawn();
    q.insert_meter(e, HealthMeter::new_from_max(i64::MAX - 1));
    q.insert_effect(e, FireDamage::new(1));
    assert!(q.can_update());
    q.insert_effect(e, FireDamage::new(2));
    assert!(!q.can_update());
    q.insert_effect(e, FireDamage::new(i64::MIN));
    assert!(q.can_update());
    MeterEffect::apply_effect(&mut q);
    assert_eq!(current_health(&q, e), -2);
}

#[test]
fn unsigned_meter_goes_up() {
    let mut q = MeterEffectQuery::<RestMarker>::new();
    let e = q.spawn();
    q.insert_meter(e, Meter::<StaminaMarker>::new_from_max(10));
    q.insert_effect(e, MeterEffect::<RestMarker>::new(3));
    MeterEffect::apply_effect(&mut q);
    assert_eq!(q.meter(e).unwrap().current, 13);
    q.insert_effect(e, MeterEffect::<RestMarker>::new(u32::MAX));
    assert!(!q.can_update());
}

#[test]
fn field_add_assign_and_sum_fits() {
    let mut a: i32 = -4;
    MeterField::add_assign(&mut a, 10);
    assert_eq!(a, 6);
    assert!(MeterField::sum_fits(&i32::MAX, &0i32));
    assert!(!MeterField::sum_fits(&i32::MAX, &1i32));
    assert!(!MeterField::sum_fits(&i32::MIN, &-1i32));

    let mut b: i64 = 7;
    MeterField::add_assign(&mut b, -9);
    assert_eq!(b, -2);
    assert!(!MeterField::sum_fits(&i64::MIN, &-1i64));

    let mut c: u32 = 1;
    MeterField::add_assign(&mut c, 2);
    assert_eq!(c, 3);
    assert!(!MeterField::sum_fits(&u32::MAX, &1u32));

    let mut d: u64 = 5;
    MeterField::add_assign(&mut d, 5);
    assert_eq!(d, 10);
    assert!(MeterField::sum_fits(&(u64::MAX - 1), &1u64));
    assert!(!MeterField::sum_fits(&u64::MAX, &1u64));
}

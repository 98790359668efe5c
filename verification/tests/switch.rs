use bevy_flurx::prelude::{
    switch_is_off, switch_is_on, switch_just_turned_off, switch_just_turned_on, Switch,
};

struct T;

#[test]
fn off() {
    let mut s = Switch::<T>::new(true);
    assert!(s.just_change);
    assert!(s.turned_on);
    s.just_change = false;
    s.off();
    assert!(s.just_change);
    assert!(s.is_off());
}

#[test]
fn on() {
    let mut s = Switch::<T>::new(false);
    assert!(s.just_change);
    assert!(s.is_off());
    s.just_change = false;
    s.on();
    assert!(s.just_change);
    assert!(s.is_on());
}

#[test]
fn on_when_already_on_changes_nothing() {
    let mut s = Switch::<T>::new(true);
    s.just_change = false;
    s.on();
    assert!(!s.just_change);
    assert!(s.is_on());
}

#[test]
fn off_when_already_off_changes_nothing() {
    let mut s = Switch::<T>::new(false);
    s.just_change = false;
    s.off();
    assert!(!s.just_change);
    assert!(s.is_off());
}

#[test]
fn set_turns_both_ways() {
    let mut s = Switch::<T>::default();
    assert!(s.is_off());
    assert!(s.just_change);
    s.just_change = false;
    s.set(false);
    assert!(!s.just_change);
    s.set(true);
    assert!(s.is_on());
    assert!(s.just_change);
    s.just_change = false;
    s.set(true);
    assert!(!s.just_change);
    s.set(false);
    assert!(s.is_off());
    assert!(s.just_change);
}

#[test]
fn conditions_need_a_switch() {
    assert!(!switch_is_on::<T>(None));
    assert!(!switch_is_off::<T>(None));
    let on = Switch::<T>::new(true);
    assert!(switch_is_on(Some(&on)));
    assert!(!switch_is_off(Some(&on)));
    let off = Switch::<T>::new(false);
    assert!(!switch_is_on(Some(&off)));
    assert!(switch_is_off(Some(&off)));
}

#[test]
fn just_turned_on_is_reported_once() {
    let mut s = Switch::<T>::new(false);
    let mut latch = false;
    assert!(!switch_just_turned_on(Some(&s), &mut latch));
    s.on();
    s.on();
    assert!(switch_just_turned_on(Some(&s), &mut latch));
    assert!(!switch_just_turned_on(Some(&s), &mut latch));
    s.off();
    assert!(!switch_just_turned_on(Some(&s), &mut latch));
    s.on();
    assert!(switch_just_turned_on(Some(&s), &mut latch));
}

#[test]
fn just_turned_off_is_reported_to_each_observer() {
    let mut s = Switch::<T>::new(true);
    let mut first = false;
    let mut second = false;
    assert!(!switch_just_turned_off(Some(&s), &mut first));
    assert!(!switch_just_turned_off(Some(&s), &mut second));
    s.off();
    assert!(switch_just_turned_off(Some(&s), &mut second));
    assert!(switch_just_turned_off(Some(&s), &mut first));
    assert!(!switch_just_turned_off(Some(&s), &mut first));
    assert!(!switch_just_turned_off(Some(&s), &mut second));
}

#[test]
fn just_turned_without_a_switch_resets_the_latch() {
    let mut latch = true;
    assert!(!switch_just_turned_on::<T>(None, &mut latch));
    assert!(!latch);
    let mut latch = true;
    assert!(!switch_just_turned_off::<T>(None, &mut latch));
    assert!(!latch);
}

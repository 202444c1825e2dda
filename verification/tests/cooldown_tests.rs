use scrim_bot::cooldown::{CooldownKey, Cooldowns};

#[test]
fn refresh_then_check_reports_remaining() {
    let mut c = Cooldowns::new();
    let k = CooldownKey::global(42);
    c.refresh_at(k, 100, 60);
    assert_eq!(c.check_at(k, 100), Some(60));
    assert_eq!(c.check_at(k, 130), Some(30));
    assert_eq!(c.check_at(k, 159), Some(1));
}

#[test]
fn check_after_expiry_reports_nothing() {
    let mut c = Cooldowns::new();
    let k = CooldownKey::global(42);
    c.refresh_at(k, 100, 60);
    assert_eq!(c.check_at(k, 160), None);
    assert_eq!(c.check_at(k, 1000), None);
}

#[test]
fn zero_duration_is_already_expired() {
    let mut c = Cooldowns::new();
    let k = CooldownKey::per_actor(7, 42);
    c.refresh_at(k, 100, 0);
    assert_eq!(c.check_at(k, 100), None);
}

#[test]
fn absent_key_reports_nothing() {
    let c = Cooldowns::new();
    assert_eq!(c.check_at(CooldownKey::global(1), 0), None);
}

#[test]
fn refresh_overwrites_expiry() {
    let mut c = Cooldowns::new();
    let k = CooldownKey::global(9);
    c.refresh_at(k, 100, 60);
    c.refresh_at(k, 120, 10);
    assert_eq!(c.check_at(k, 120), Some(10));
    assert_eq!(c.check_at(k, 131), None);
}

#[test]
fn global_and_actor_scopes_are_independent() {
    let mut c = Cooldowns::new();
    let g = CooldownKey::global(42);
    let a = CooldownKey::per_actor(7, 42);
    c.refresh_at(g, 100, 60);
    assert_eq!(c.check_at(a, 100), None);
    c.refresh_at(a, 100, 300);
    assert_eq!(c.check_at(g, 100), Some(60));
    assert_eq!(c.check_at(a, 100), Some(300));
    // refreshing the per-actor scope again leaves the global scope alone
    c.refresh_at(a, 110, 300);
    assert_eq!(c.check_at(g, 110), Some(50));
}

#[test]
fn different_actors_are_independent() {
    let mut c = Cooldowns::new();
    c.refresh_at(CooldownKey::per_actor(1, 42), 100, 300);
    assert_eq!(c.check_at(CooldownKey::per_actor(2, 42), 100), None);
}

#[test]
fn check_and_refresh_is_atomic_per_key() {
    let mut c = Cooldowns::new();
    let k = CooldownKey::global(5);
    assert_eq!(c.check_and_refresh_at(k, 100, 60), None);
    assert_eq!(c.check_and_refresh_at(k, 101, 60), Some(59));
    // the losing attempt must not have extended the cooldown
    assert_eq!(c.check_at(k, 101), Some(59));
    assert_eq!(c.check_and_refresh_at(k, 160, 60), None);
}

#[test]
fn sweep_evicts_expired_entries_only() {
    let mut c = Cooldowns::new();
    let dead = CooldownKey::global(1);
    let live = CooldownKey::global(2);
    c.refresh_at(dead, 100, 10);
    c.refresh_at(live, 100, 1000);
    c.sweep_at(500);
    assert_eq!(c.check_at(dead, 500), None);
    assert_eq!(c.check_at(live, 500), Some(600));
}

#[test]
fn expiry_saturates_at_the_end_of_time() {
    let mut c = Cooldowns::new();
    let k = CooldownKey::global(3);
    c.refresh_at(k, u64::MAX - 10, 60);
    assert_eq!(c.check_at(k, u64::MAX - 10), Some(10));
}

#[test]
fn check_against_real_clock_runs() {
    let mut c = Cooldowns::new();
    let k = CooldownKey::global(77);
    assert_eq!(c.check_current(k), None);
    assert_eq!(c.check_and_refresh_current(k, 3600), None);
    // immediately afterwards the key is cooling down
    assert!(c.check_current(k).is_some());
}

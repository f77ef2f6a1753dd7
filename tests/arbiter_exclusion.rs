use tof_sensors::arbiter::BusArbiter;

#[test]
fn free_bus_is_granted_at_once() {
    let mut bus = BusArbiter::new();
    assert_eq!(bus.holder(), None);
    assert!(bus.acquire(1));
    assert!(bus.holds(1));
    assert_eq!(bus.release(1), None);
    assert_eq!(bus.holder(), None);
}

#[test]
fn second_sensor_waits_until_release() {
    let mut bus = BusArbiter::new();
    assert!(bus.acquire(0));
    assert!(!bus.acquire(1));
    assert!(bus.is_waiting(1));
    assert!(!bus.holds(1));
    assert_eq!(bus.release(0), Some(1));
    assert!(bus.holds(1));
    assert!(!bus.holds(0));
    assert!(!bus.is_waiting(1));
}

#[test]
fn waiters_are_served_in_arrival_order() {
    let mut bus = BusArbiter::new();
    assert!(bus.acquire(5));
    assert!(!bus.acquire(3));
    assert!(!bus.acquire(9));
    assert!(!bus.acquire(3));
    assert_eq!(bus.waiting_len(), 2);
    assert_eq!(bus.release(5), Some(3));
    assert_eq!(bus.release(3), Some(9));
    assert_eq!(bus.release(9), None);
}

#[test]
fn release_by_non_holder_changes_nothing() {
    let mut bus = BusArbiter::new();
    assert!(bus.acquire(2));
    assert!(!bus.acquire(4));
    assert_eq!(bus.release(4), Some(2));
    assert!(bus.holds(2));
    assert!(bus.is_waiting(4));
    assert!(bus.acquire(2));
}

#[test]
fn interleaved_tasks_never_hold_the_bus_together() {
    let mut bus = BusArbiter::new();
    let mut holding = [false, false];
    let mut seed: u32 = 99;
    let mut grants = 0;
    for _ in 0..10000 {
        seed = seed.wrapping_mul(1103515245).wrapping_add(12345);
        let who = ((seed >> 16) & 1) as u32;
        let release = (seed >> 20) & 1 == 1;
        if release {
            if holding[who as usize] {
                holding[who as usize] = false;
                if let Some(next) = bus.release(who) {
                    holding[next as usize] = true;
                    grants += 1;
                }
            }
        } else if !holding[who as usize] && !bus.is_waiting(who) {
            if bus.acquire(who) {
                holding[who as usize] = true;
                grants += 1;
            }
        }
        assert!(!(holding[0] && holding[1]));
        assert!(!(bus.holds(0) && bus.holds(1)));
        for id in 0..2u32 {
            assert_eq!(bus.holds(id), holding[id as usize]);
        }
    }
    assert!(grants > 100);
}

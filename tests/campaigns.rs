use gpu_energy::energy::{BMId, BaseMeasurement, BaseMeasurements, DeviceData, Error};
use gpu_energy::gc::{collect_garbage, tick_duration, MIN_GC_TICK};
use gpu_energy::util::{NANOS_PER_MILLI, NANOS_PER_SEC};

fn base(time: u128, totals: &[u64]) -> BaseMeasurement {
    let devices = totals
        .iter()
        .enumerate()
        .map(|(i, e)| DeviceData {
            id: i as u32,
            energy: *e,
        })
        .collect();
    BaseMeasurement::from_totals(time, devices)
}

#[test]
fn ids_increase_by_one() {
    let mut store = BaseMeasurements::new();
    let ids: Vec<BMId> = (0..5)
        .map(|t| store.insert(base(t, &[1])).expect("id is free"))
        .collect();
    assert_eq!(ids, vec![0, 1, 2, 3, 4]);
    assert_eq!(store.len(), 5);
    assert_eq!(store.next_id(), 5);
}

#[test]
fn ids_wrap_around() {
    let mut store = BaseMeasurements::default().with_next_id(u32::MAX - 1);
    assert_eq!(store.insert(base(0, &[])).unwrap(), u32::MAX - 1);
    assert_eq!(store.insert(base(1, &[])).unwrap(), u32::MAX);
    assert_eq!(store.next_id(), 0);
    assert_eq!(store.insert(base(2, &[])).unwrap(), 0);
    assert_eq!(store.next_id(), 1);
    assert_eq!(store.len(), 3);
}

#[test]
fn taken_id_is_reported_and_store_unchanged() {
    let mut store = BaseMeasurements::new();
    assert_eq!(store.insert(base(0, &[7])).unwrap(), 0);
    let mut store = store.with_next_id(0);
    match store.insert(base(1, &[8])) {
        Err(Error::IdTaken(id)) => assert_eq!(id, 0),
        other => panic!("unexpected {other:?}"),
    }
    assert_eq!(store.len(), 1);
    assert_eq!(store.next_id(), 0);
    assert_eq!(store.get(0).unwrap().time(), 0);
    assert_eq!(store.get(0).unwrap().devices()[0].energy, 7);
}

#[test]
fn delete_removes_only_the_given_campaign() {
    let mut store = BaseMeasurements::new();
    store.insert(base(10, &[1])).unwrap();
    store.insert(base(20, &[2])).unwrap();
    let removed = store.delete(0).expect("campaign 0 is live");
    assert_eq!(removed.time(), 10);
    assert!(store.get(0).is_none());
    assert_eq!(store.get(1).unwrap().time(), 20);
    assert!(store.delete(0).is_none());
    assert!(store.delete(7).is_none());
    assert_eq!(store.len(), 1);
    assert_eq!(store.next_id(), 2);
}

#[test]
fn delete_older_than_is_strict() {
    let mut store = BaseMeasurements::new();
    for t in [5, 9, 10, 11, 30] {
        store.insert(base(t, &[])).unwrap();
    }
    store.delete_older_than(10);
    assert_eq!(store.len(), 3);
    assert!(store.get(0).is_none());
    assert!(store.get(1).is_none());
    assert!(store.get(2).is_some());
    assert!(store.get(3).is_some());
    assert!(store.get(4).is_some());
    store.delete_older_than(0);
    assert_eq!(store.len(), 3);
    store.delete_older_than(u128::MAX);
    assert_eq!(store.len(), 0);
    assert_eq!(store.next_id(), 5);
}

#[test]
fn delete_older_than_on_empty_store() {
    let mut store = BaseMeasurements::new();
    store.delete_older_than(100);
    assert_eq!(store.len(), 0);
}

#[test]
fn counter_reset_gives_zero() {
    let d = DeviceData { id: 3, energy: 1000 };
    assert_eq!(d.relative_to(400), DeviceData { id: 3, energy: 0 });
    assert_eq!(d.relative_to(0), DeviceData { id: 3, energy: 0 });
    assert_eq!(d.relative_to(1000), DeviceData { id: 3, energy: 0 });
    assert_eq!(d.relative_to(1001), DeviceData { id: 3, energy: 1 });
    let top = DeviceData { id: 0, energy: 0 };
    assert_eq!(top.relative_to(u64::MAX).energy, u64::MAX);
}

#[test]
fn campaign_end_to_end() {
    let t0 = 7 * NANOS_PER_SEC;
    let mut store = BaseMeasurements::new();
    let id = store.insert(base(t0, &[1000])).unwrap();
    assert_eq!(id, 0);
    let m = store
        .get(0)
        .expect("campaign 0 is live")
        .measurement_from(t0 + 100 * NANOS_PER_MILLI, &vec![1500]);
    assert_eq!(m.duration(), 100 * NANOS_PER_MILLI);
    assert_eq!(m.devices(), &vec![DeviceData { id: 0, energy: 500 }]);
    assert!(store.delete(0).is_some());
    assert!(store.get(0).is_none());
}

#[test]
fn oneshot_leaves_store_alone() {
    let store = BaseMeasurements::new();
    let b = base(0, &[1000]);
    let m = b.measurement_from(50 * NANOS_PER_MILLI, &vec![1020]);
    assert_eq!(m.devices(), &vec![DeviceData { id: 0, energy: 20 }]);
    assert_eq!(m.duration(), 50 * NANOS_PER_MILLI);
    assert_eq!(store.len(), 0);
}

#[test]
fn measurement_of_several_devices() {
    let b = base(100, &[10, 20, 30]);
    let m = b.measurement_from(50, &vec![15, 5, 30]);
    // a clock reading before the base gives no elapsed time
    assert_eq!(m.duration(), 0);
    assert_eq!(
        m.devices(),
        &vec![
            DeviceData { id: 0, energy: 5 },
            DeviceData { id: 1, energy: 0 },
            DeviceData { id: 2, energy: 0 },
        ]
    );
    let empty = base(0, &[]).measurement_from(9, &vec![]);
    assert!(empty.devices().is_empty());
    assert_eq!(empty.duration(), 9);
}

#[test]
fn gc_waits_for_threshold() {
    let min_age = 10 * NANOS_PER_SEC;
    let mut store = BaseMeasurements::new();
    store.insert(base(0, &[])).unwrap();
    store.insert(base(NANOS_PER_SEC, &[])).unwrap();
    let now = 20 * NANOS_PER_SEC;
    assert!(!collect_garbage(&mut store, now, min_age, 3));
    assert_eq!(store.len(), 2);
    store.insert(base(15 * NANOS_PER_SEC, &[])).unwrap();
    assert!(collect_garbage(&mut store, now, min_age, 3));
    assert_eq!(store.len(), 1);
    assert!(store.get(0).is_none());
    assert!(store.get(1).is_none());
    assert!(store.get(2).is_some());
}

#[test]
fn gc_age_boundary() {
    let min_age = 10 * NANOS_PER_SEC;
    let capture = 5 * NANOS_PER_SEC;
    let mut store = BaseMeasurements::new();
    store.insert(base(capture, &[])).unwrap();
    assert!(collect_garbage(&mut store, capture + min_age, min_age, 1));
    assert_eq!(store.len(), 1);
    assert!(collect_garbage(&mut store, capture + min_age + 1, min_age, 1));
    assert_eq!(store.len(), 0);
}

#[test]
fn gc_early_in_the_process_keeps_everything() {
    let mut store = BaseMeasurements::new();
    store.insert(base(0, &[])).unwrap();
    assert!(collect_garbage(&mut store, 5, 10, 1));
    assert_eq!(store.len(), 1);
}

#[test]
fn gc_tick() {
    assert_eq!(MIN_GC_TICK, 60 * NANOS_PER_SEC);
    assert_eq!(tick_duration(24 * 60 * 60 * NANOS_PER_SEC), 6 * 60 * 60 * NANOS_PER_SEC);
    assert_eq!(tick_duration(400 * NANOS_PER_SEC), 100 * NANOS_PER_SEC);
    assert_eq!(tick_duration(240 * NANOS_PER_SEC), 60 * NANOS_PER_SEC);
    assert_eq!(tick_duration(100 * NANOS_PER_SEC), 60 * NANOS_PER_SEC);
    assert_eq!(tick_duration(0), 60 * NANOS_PER_SEC);
}

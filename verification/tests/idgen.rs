use std::collections::HashSet;

use idgen::ConfigError;
use idgen::IDGen;
use idgen::IdGenError;

#[test]
fn config() {
    let mut idgen = IDGen::new(0).unwrap();

    let range: Vec<u64> = (0..8000000).map(|_i| idgen.new_id().unwrap()).collect();
    let mut uniq = HashSet::new();
    let all_ids_unique = range.into_iter().all(|id| uniq.insert(id));
    assert!(all_ids_unique);
}

#[test]
fn rejects_invalid_configurations() {
    assert!(matches!(
        IDGen::new_with_config(0, 0, 41),
        Err(ConfigError::MachineIdBitsOutOfRange)
    ));
    assert!(matches!(
        IDGen::new_with_config(0, 9, 41),
        Err(ConfigError::MachineIdBitsOutOfRange)
    ));
    assert!(matches!(
        IDGen::new_with_config(0, 8, 40),
        Err(ConfigError::TimestampBitsOutOfRange)
    ));
    assert!(matches!(
        IDGen::new_with_config(0, 8, 44),
        Err(ConfigError::TimestampBitsOutOfRange)
    ));
    // The all-ones machine id is reserved for every width.
    assert!(matches!(
        IDGen::new_with_config(255, 8, 41),
        Err(ConfigError::MachineIdOutOfRange)
    ));
    assert!(matches!(
        IDGen::new_with_config(15, 4, 41),
        Err(ConfigError::MachineIdOutOfRange)
    ));
    assert!(matches!(IDGen::new(255), Err(ConfigError::MachineIdOutOfRange)));
    assert!(IDGen::new_with_config(254, 8, 41).is_ok());
    assert!(IDGen::new(0).is_ok());
}

#[test]
fn layout_round_trip() {
    // 4 machine id bits, 42 timestamp bits, 18 sequence bits.
    let mut gen = IDGen::new_with_config(3, 4, 42).unwrap();
    let seq_bits = 64u32 - 42 - 4;
    let ts_mask = (1u64 << 42) - 1;
    let seq_mask = (1u64 << seq_bits) - 1;

    // A millisecond far enough in the future to be past the construction
    // reading, and still within the 42-bit timestamp field.
    let now = 1u64 << 41;
    let id = gen.advance(now).unwrap().unwrap();
    assert_eq!((id >> seq_bits) & ts_mask, now);
    assert_eq!(id >> (64 - 4), 3);
    assert_eq!(id & seq_mask, 0);

    // A second identifier in the same millisecond carries the next counter.
    let id2 = gen.advance(now).unwrap().unwrap();
    assert_eq!((id2 >> seq_bits) & ts_mask, now);
    assert_eq!(id2 >> (64 - 4), 3);
    assert_eq!(id2 & seq_mask, 1);
}

#[test]
fn clock_regression_is_fatal_and_leaves_state() {
    let mut gen = IDGen::new_with_config(0, 8, 41).unwrap();
    let now = (1u64 << 41) - 2;
    let id = gen.advance(now).unwrap().unwrap();

    // An earlier reading is rejected without issuing anything.
    assert_eq!(gen.advance(now - 10), Err(IdGenError::ClockRegression));
    // The real clock is far behind the stored millisecond too.
    assert_eq!(gen.new_id(), Err(IdGenError::ClockRegression));

    // The state survived both failures: the same millisecond continues with
    // the next counter value.
    let id2 = gen.advance(now).unwrap().unwrap();
    assert_eq!(id2, id + 1);
}

#[test]
fn sequence_exhaustion_wraps_to_next_millisecond() {
    // 8 machine id bits, 43 timestamp bits: 13 sequence bits, so one
    // millisecond holds 8192 identifiers.
    let mut gen = IDGen::new_with_config(9, 8, 43).unwrap();
    let seq_mask = (1u64 << 13) - 1;
    let now = 1u64 << 42;

    let mut ids: Vec<u64> = Vec::new();
    for _ in 0..8192 {
        ids.push(gen.advance(now).unwrap().unwrap());
    }
    // The sequence space of this millisecond is spent: no identifier until
    // the clock moves.
    assert_eq!(gen.advance(now), Ok(None));
    assert_eq!(gen.advance(now), Ok(None));

    // Once it moves, issuance resumes at sequence zero.
    let next = gen.advance(now + 1).unwrap().unwrap();
    assert_eq!(next & seq_mask, 0);
    assert_eq!((next >> 13) & ((1u64 << 43) - 1), now + 1);
    ids.push(next);

    let mut uniq = HashSet::new();
    assert!(ids.iter().all(|id| uniq.insert(*id)));
    assert!(ids.windows(2).all(|w| w[0] < w[1]));
}

#[test]
fn stream_is_strictly_increasing() {
    let mut gen = IDGen::new_with_config(1, 8, 41).unwrap();
    let base = (1u64 << 41) - 1000;

    let mut ids: Vec<u64> = Vec::new();
    // A bursty pattern: several identifiers per millisecond, then a jump.
    for step in 0..5u64 {
        let now = base + 7 * step;
        for _ in 0..20 {
            ids.push(gen.advance(now).unwrap().unwrap());
        }
    }
    assert!(ids.windows(2).all(|w| w[0] < w[1]));
}

#[test]
fn distinct_machines_never_collide() {
    let mut gen_a = IDGen::new_with_config(4, 8, 41).unwrap();
    let mut gen_b = IDGen::new_with_config(5, 8, 41).unwrap();
    let now = (1u64 << 41) - 500;

    let mut ids = HashSet::new();
    for step in 0..3u64 {
        for _ in 0..10 {
            assert!(ids.insert(gen_a.advance(now + step).unwrap().unwrap()));
            assert!(ids.insert(gen_b.advance(now + step).unwrap().unwrap()));
        }
    }
}

#[test]
fn new_id_encodes_the_real_clock() {
    let mut gen = IDGen::new(1).unwrap();
    let first = gen.new_id().unwrap();
    let second = gen.new_id().unwrap();
    assert!(first < second);

    // Default layout: 8 machine id bits on top, 41 timestamp bits, 15
    // sequence bits. The machine id comes back out, and the timestamp is a
    // plausible current reading (after late 2023, before the 41-bit horizon).
    assert_eq!(first >> 56, 1);
    let ts = (first >> 15) & ((1u64 << 41) - 1);
    assert!(ts > 1_700_000_000_000);
}

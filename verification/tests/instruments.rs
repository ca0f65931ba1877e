use mlx_metal::error::Location;
use mlx_metal::instrument::{
    callsite_key, enable_op_breakdown, enable_op_timing, plan_op, read_op_counter,
    record_op_callsite, record_op_timing, reset_op_counter, return_op, start_op,
    take_op_breakdown, take_op_timing, Instruments,
};

fn at(file: &str, line: u32) -> Location {
    Location { file: file.to_string(), line, column: 5 }
}

fn run(instruments: &mut Instruments, place: &Location, elapsed_ns: u128) {
    let plan = plan_op(instruments);
    start_op(instruments, plan, place, true);
    return_op(instruments, plan, place, elapsed_ns, true);
}

#[test]
fn callsite_is_file_and_line() {
    assert_eq!(callsite_key(&at("src/ops.rs", 0)), "src/ops.rs:0");
    assert_eq!(callsite_key(&at("src/ops.rs", 1207)), "src/ops.rs:1207");
    assert_eq!(callsite_key(&at("", u32::MAX)), ":4294967295");
}

#[test]
fn callsites_of_different_lines_differ() {
    assert_ne!(callsite_key(&at("a:1", 2)), callsite_key(&at("a", 12)));
    assert_ne!(callsite_key(&at("a", 1)), callsite_key(&at("a", 11)));
}

#[test]
fn switched_off_counts_nothing() {
    let mut instruments = Instruments::new();
    run(&mut instruments, &at("a.rs", 1), 10);
    run(&mut instruments, &at("a.rs", 2), 10);
    assert_eq!(read_op_counter(&instruments), 0);
    assert!(take_op_breakdown(&mut instruments).is_empty());
    assert!(take_op_timing(&mut instruments).is_empty());
    let plan = plan_op(&instruments);
    assert!(!plan.instrument && !plan.timed);
}

#[test]
fn reset_switches_on_and_returns_the_count() {
    let mut instruments = Instruments::new();
    assert_eq!(reset_op_counter(&mut instruments), 0);
    for line in 0..7 {
        run(&mut instruments, &at("a.rs", line), 1);
    }
    assert_eq!(read_op_counter(&instruments), 7);
    assert_eq!(reset_op_counter(&mut instruments), 7);
    assert_eq!(reset_op_counter(&mut instruments), 0);
    assert_eq!(read_op_counter(&instruments), 0);
    assert!(plan_op(&instruments).instrument);
}

#[test]
fn breakdown_lists_callsites_by_count() {
    let mut instruments = Instruments::new();
    enable_op_breakdown(&mut instruments);
    for line in [3, 1, 3, 2, 3, 2] {
        run(&mut instruments, &at("a.rs", line), 1);
    }
    let listing = take_op_breakdown(&mut instruments);
    assert_eq!(
        listing,
        vec![
            ("a.rs:3".to_string(), 3),
            ("a.rs:2".to_string(), 2),
            ("a.rs:1".to_string(), 1),
        ]
    );
    assert_eq!(listing.iter().map(|entry| entry.1).sum::<usize>(), read_op_counter(&instruments));
}

#[test]
fn breakdown_with_equal_counts_is_complete() {
    let mut instruments = Instruments::new();
    enable_op_breakdown(&mut instruments);
    for line in [1, 2, 3, 1, 2, 3, 4] {
        run(&mut instruments, &at("b.rs", line), 1);
    }
    let mut listing = take_op_breakdown(&mut instruments);
    let counts: Vec<usize> = listing.iter().map(|entry| entry.1).collect();
    assert_eq!(counts, vec![2, 2, 2, 1]);
    listing.sort();
    let keys: Vec<String> = listing.into_iter().map(|entry| entry.0).collect();
    assert_eq!(keys, vec!["b.rs:1", "b.rs:2", "b.rs:3", "b.rs:4"]);
}

#[test]
fn taken_breakdown_is_collected_no_longer() {
    let mut instruments = Instruments::new();
    enable_op_breakdown(&mut instruments);
    run(&mut instruments, &at("a.rs", 1), 1);
    assert_eq!(take_op_breakdown(&mut instruments).len(), 1);
    run(&mut instruments, &at("a.rs", 1), 1);
    assert!(take_op_breakdown(&mut instruments).is_empty());
    assert_eq!(read_op_counter(&instruments), 2);
}

#[test]
fn enabling_again_starts_from_nothing() {
    let mut instruments = Instruments::new();
    enable_op_breakdown(&mut instruments);
    run(&mut instruments, &at("a.rs", 1), 1);
    enable_op_breakdown(&mut instruments);
    run(&mut instruments, &at("a.rs", 2), 1);
    assert_eq!(take_op_breakdown(&mut instruments), vec![("a.rs:2".to_string(), 1)]);
}

#[test]
fn busy_table_loses_the_tally() {
    let mut instruments = Instruments::new();
    enable_op_breakdown(&mut instruments);
    let plan = plan_op(&instruments);
    start_op(&mut instruments, plan, &at("a.rs", 1), false);
    start_op(&mut instruments, plan, &at("a.rs", 1), true);
    assert_eq!(read_op_counter(&instruments), 2);
    assert_eq!(take_op_breakdown(&mut instruments), vec![("a.rs:1".to_string(), 1)]);
}

#[test]
fn timing_lists_callsites_by_time() {
    let mut instruments = Instruments::new();
    enable_op_timing(&mut instruments);
    let plan = plan_op(&instruments);
    assert!(plan.instrument && plan.timed);
    run(&mut instruments, &at("a.rs", 1), 40);
    run(&mut instruments, &at("a.rs", 2), 300);
    run(&mut instruments, &at("a.rs", 1), 60);
    assert_eq!(
        take_op_timing(&mut instruments),
        vec![("a.rs:2".to_string(), 1, 300), ("a.rs:1".to_string(), 2, 100)]
    );
    let plan = plan_op(&instruments);
    assert!(plan.instrument && !plan.timed);
    assert!(take_op_timing(&mut instruments).is_empty());
    assert_eq!(read_op_counter(&instruments), 3);
}

#[test]
fn counting_alone_does_not_time() {
    let mut instruments = Instruments::new();
    reset_op_counter(&mut instruments);
    run(&mut instruments, &at("a.rs", 1), 40);
    assert!(take_op_timing(&mut instruments).is_empty());
}

#[test]
fn records_without_a_table_are_dropped() {
    let mut instruments = Instruments::new();
    record_op_callsite(&mut instruments, &at("a.rs", 1), true);
    record_op_timing(&mut instruments, &at("a.rs", 1), 5, true);
    assert!(take_op_breakdown(&mut instruments).is_empty());
    assert!(take_op_timing(&mut instruments).is_empty());
}

#[test]
fn rooms_end_where_tallies_end() {
    let mut instruments = Instruments::new();
    let place = at("a.rs", 1);
    assert!(instruments.has_count_room(&place));
    enable_op_timing(&mut instruments);
    record_op_timing(&mut instruments, &place, u128::MAX - 4, true);
    assert!(instruments.has_time_room(&place, 4));
    assert!(!instruments.has_time_room(&place, 5));
    assert!(instruments.has_time_room(&at("a.rs", 2), u128::MAX));
}

use puniyu_adapter_console::ident::IdGenerator;

#[test]
fn counters_start_at_zero() {
    let mut ids = IdGenerator::new();
    assert_eq!(ids.next_event_id(), 0);
    assert_eq!(ids.next_message_id(), 0);
}

#[test]
fn each_counter_counts_up_by_one() {
    let mut ids = IdGenerator::new();
    for expected in 0..1000u64 {
        assert_eq!(ids.next_event_id(), expected);
    }
    for expected in 0..1000u64 {
        assert_eq!(ids.next_message_id(), expected);
    }
}

#[test]
fn counters_do_not_influence_each_other() {
    let mut ids = IdGenerator::new();
    assert_eq!(ids.next_event_id(), 0);
    assert_eq!(ids.next_event_id(), 1);
    assert_eq!(ids.next_event_id(), 2);
    assert_eq!(ids.next_message_id(), 0);
    assert_eq!(ids.next_event_id(), 3);
    assert_eq!(ids.next_message_id(), 1);
    assert_eq!(ids.next_message_id(), 2);
    assert_eq!(ids.next_event_id(), 4);
}

#[test]
fn identifiers_of_one_counter_are_distinct_and_increasing() {
    let mut ids = IdGenerator::new();
    let mut last = ids.next_message_id();
    for _ in 0..100 {
        let next = ids.next_message_id();
        assert!(next > last);
        last = next;
    }
}

#[test]
fn two_generators_are_independent() {
    let mut a = IdGenerator::new();
    let mut b = IdGenerator::new();
    assert_eq!(a.next_event_id(), 0);
    assert_eq!(a.next_event_id(), 1);
    assert_eq!(b.next_event_id(), 0);
}

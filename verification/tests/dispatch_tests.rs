use evdotool::bindings::{BindingTable, EventKey};
use evdotool::reactor::{Reactor, ReactorError};
use evdotool::time_util::Time;
use evdotool::virtual_input::{InputOp, OutputEvent, VirtualInputWorker, WorkerMessage};

// Conventional evdev numbers used by these tests: type 1 is the key
// type, code 30 is the first letter key.
const KEY_TYPE: u16 = 1;

fn key_a() -> EventKey {
    EventKey { ev_type: KEY_TYPE, code: 30 }
}

fn key_b() -> EventKey {
    EventKey { ev_type: KEY_TYPE, code: 48 }
}

#[test]
fn last_registration_wins() {
    let mut table = BindingTable::set_up_bindings(1);
    table.set_in_bindings_table(0, key_a(), 11);
    table.set_in_bindings_table(0, key_a(), 22);
    let reactor = Reactor::build(table).unwrap();
    assert_eq!(reactor.route(0, key_a()), Some(22));
}

#[test]
fn routing_hits_only_the_bound_code() {
    let mut table = BindingTable::set_up_bindings(1);
    table.set_in_bindings_table(0, key_a(), 7);
    let reactor = Reactor::build(table).unwrap();
    assert_eq!(reactor.route(0, key_a()), Some(7));
    assert_eq!(reactor.route(0, key_b()), None);
    // A different event type with the same code number is a different
    // event code.
    assert_eq!(reactor.route(0, EventKey { ev_type: 2, code: 30 }), None);
}

#[test]
fn unbound_device_is_excluded_from_the_readiness_set() {
    let mut table = BindingTable::set_up_bindings(3);
    table.set_in_bindings_table(1, key_a(), 5);
    assert!(!table.device_has_bindings(0));
    assert!(table.device_has_bindings(1));
    let reactor = Reactor::build(table).unwrap();
    // Only device 1 is watched; devices 0 and 2 have no slot at all.
    assert_eq!(reactor.len(), 1);
    assert_eq!(reactor.device_of_slot(0), 1);
}

#[test]
fn bound_devices_keep_registry_order() {
    let mut table = BindingTable::set_up_bindings(4);
    table.set_in_bindings_table(3, key_a(), 1);
    table.set_in_bindings_table(1, key_b(), 2);
    let reactor = Reactor::build(table).unwrap();
    assert_eq!(reactor.len(), 2);
    assert_eq!(reactor.device_of_slot(0), 1);
    assert_eq!(reactor.device_of_slot(1), 3);
    assert_eq!(reactor.route(0, key_b()), Some(2));
    assert_eq!(reactor.route(1, key_a()), Some(1));
}

#[test]
fn startup_with_zero_bindings_fails() {
    let table = BindingTable::set_up_bindings(3);
    match Reactor::build(table) {
        Err(ReactorError::NoBindings) => {},
        Ok(_) => panic!("a reactor was built with no bound device"),
    }
    assert_eq!(ReactorError::NoBindings.message(), "no bound devices");
}

#[test]
fn end_to_end_key_press_to_synthetic_move() {
    // Bind device D on the letter key to a callback token; the script
    // behind that token answers a press by requesting move_x(10).
    let move_x_callback: u64 = 42;
    let mut table = BindingTable::set_up_bindings(2);
    table.set_in_bindings_table(1, key_a(), move_x_callback);
    let reactor = Reactor::build(table).unwrap();
    assert_eq!(reactor.len(), 1);
    assert_eq!(reactor.device_of_slot(0), 1);

    // One key press arrives on the ready slot.
    let routed = reactor.route(0, key_a());
    assert_eq!(routed, Some(move_x_callback));

    // The callback runs once and enqueues exactly one relative move.
    let now = Time::from_micros(20_000);
    let mut queue: Vec<WorkerMessage> = Vec::new();
    if routed == Some(move_x_callback) {
        queue.push(WorkerMessage::move_x(None, now, 10));
    }
    assert_eq!(queue, vec![WorkerMessage(now, InputOp::XRel { dx: 10 })]);

    // The worker's next tick writes one relative-X event plus its
    // marker, and the tick's own closing marker.
    let mut worker = VirtualInputWorker::new();
    let mut out: Vec<OutputEvent> = Vec::new();
    let tick_time = Time::from_micros(24_000);
    worker.tick(&queue, tick_time, &mut out);
    assert_eq!(
        out,
        vec![
            OutputEvent::RelX { time: now, value: 10 },
            OutputEvent::Syn { time: now },
            OutputEvent::Syn { time: tick_time },
        ]
    );
    let rel_count = out
        .iter()
        .filter(|e| matches!(e, OutputEvent::RelX { .. }))
        .count();
    assert_eq!(rel_count, 1);
}

#[test]
fn events_on_unbound_codes_are_dropped() {
    let mut table = BindingTable::set_up_bindings(1);
    table.set_in_bindings_table(0, key_a(), 9);
    let reactor = Reactor::build(table).unwrap();
    // The synchronization marker's code (type 0, code 0) is not bound,
    // so it routes to no callback.
    assert_eq!(reactor.route(0, EventKey { ev_type: 0, code: 0 }), None);
}

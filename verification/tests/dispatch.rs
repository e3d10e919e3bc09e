use log_shipper::config::{get_clone, ConfigFile};
use log_shipper::dispatcher::{on_send_finished, on_tick, DispatchAction};
use log_shipper::log_journald::{start, step, RawEntry, TailAction, TailEvent};
use log_shipper::log_queue::{add_entries, add_entry, LogRecord};

fn config(capacity: usize) -> ConfigFile {
    ConfigFile {
        verbose: true,
        dispatch_sleep_ms: 1500,
        maximum_log_entries: capacity,
        remote_certificate: String::from("collector.pem"),
        remote_address: String::from("collector.example"),
        remote_port: 4433,
        network_mtu: 1200,
        secure_identity: String::from("agent.p12"),
        secure_identity_password: String::from("SECRET-REDACTED"),
    }
}

fn record(timestamp: i64) -> LogRecord {
    LogRecord {
        source_identity: String::from("agent-1"),
        timestamp_micros: timestamp,
        origin: String::from("sshd"),
        message: String::from("accepted"),
    }
}

#[test]
fn configuration_is_handed_out_as_equal_copies() {
    let provider = log_shipper::config::initialize(config(5));
    let first = get_clone(&provider);
    let second = get_clone(&provider);
    assert_eq!(first, config(5));
    assert_eq!(second, first);
    assert_eq!(first.dispatch_sleep_ms, 1500);
    assert_eq!(first.maximum_log_entries, 5);
    assert_eq!(first.remote_port, 4433);
    assert_eq!(first.network_mtu, 1200);
    assert_eq!(first.remote_address, "collector.example");
    assert_eq!(first.secure_identity_password, "SECRET-REDACTED");
}

#[test]
fn new_dispatcher_takes_its_settings_from_the_configuration() {
    let dispatcher = log_shipper::dispatcher::initialize(&config(5));
    assert!(!dispatcher.sending());
    assert_eq!(dispatcher.interval_ms(), 1500);
    assert!(dispatcher.verbose());
}

#[test]
fn tick_on_an_empty_queue_sends_nothing() {
    let mut queue = log_shipper::log_queue::initialize(&config(5));
    let mut dispatcher = log_shipper::dispatcher::initialize(&config(5));
    assert_eq!(on_tick(&mut dispatcher, &mut queue), DispatchAction::Rest);
    assert!(!dispatcher.sending());
    assert!(queue.is_empty());
}

#[test]
fn quiet_ticks_change_nothing() {
    let mut queue = log_shipper::log_queue::initialize(&config(5));
    let mut dispatcher = log_shipper::dispatcher::initialize(&config(5));
    for _ in 0..10 {
        assert_eq!(on_tick(&mut dispatcher, &mut queue), DispatchAction::Rest);
        assert!(!dispatcher.sending());
        assert!(queue.is_empty());
        assert_eq!(queue.capacity(), 5);
        assert_eq!(dispatcher.interval_ms(), 1500);
    }
}

#[test]
fn tick_sends_what_waits_as_one_batch() {
    let mut queue = log_shipper::log_queue::initialize(&config(5));
    let mut dispatcher = log_shipper::dispatcher::initialize(&config(5));
    for timestamp in [3, 1, 2] {
        add_entry(&mut queue, record(timestamp));
    }
    assert_eq!(
        on_tick(&mut dispatcher, &mut queue),
        DispatchAction::Send(vec![record(3), record(1), record(2)])
    );
    assert!(dispatcher.sending());
    assert!(queue.is_empty());
}

#[test]
fn tick_during_a_send_is_skipped() {
    let mut queue = log_shipper::log_queue::initialize(&config(5));
    let mut dispatcher = log_shipper::dispatcher::initialize(&config(5));
    add_entry(&mut queue, record(1));
    assert_eq!(on_tick(&mut dispatcher, &mut queue), DispatchAction::Send(vec![record(1)]));
    add_entry(&mut queue, record(2));
    assert_eq!(on_tick(&mut dispatcher, &mut queue), DispatchAction::Skip);
    assert_eq!(queue.len(), 1);
    assert!(dispatcher.sending());
    add_entry(&mut queue, record(3));
    assert_eq!(on_tick(&mut dispatcher, &mut queue), DispatchAction::Skip);
    on_send_finished(&mut dispatcher);
    assert!(!dispatcher.sending());
    assert_eq!(
        on_tick(&mut dispatcher, &mut queue),
        DispatchAction::Send(vec![record(2), record(3)])
    );
    on_send_finished(&mut dispatcher);
    assert_eq!(on_tick(&mut dispatcher, &mut queue), DispatchAction::Rest);
}

#[test]
fn records_flow_from_the_journal_to_the_transport() {
    let mut queue = log_shipper::log_queue::initialize(&config(3));
    let mut dispatcher = log_shipper::dispatcher::initialize(&config(3));
    let mut reader = log_shipper::log_journald::initialize(&config(3));
    assert_eq!(start(&mut reader, String::from("agent-1")), Ok(()));
    assert_eq!(step(&mut reader, TailEvent::Opened), TailAction::SeekTail);
    assert_eq!(step(&mut reader, TailEvent::Positioned), TailAction::StepBack);
    assert_eq!(step(&mut reader, TailEvent::SteppedBack), TailAction::Wait);
    assert_eq!(step(&mut reader, TailEvent::Woken), TailAction::ReadNext);
    for timestamp in [100, 200, 300, 400] {
        let entry = RawEntry {
            source_time: Some(timestamp),
            identifier: Some(String::from("sshd")),
            message: Some(String::from("accepted")),
        };
        assert_eq!(step(&mut reader, TailEvent::Entry(entry)), TailAction::ReadNext);
    }
    match step(&mut reader, TailEvent::EndOfEntries) {
        TailAction::Deliver(batch) => assert_eq!(add_entries(&mut queue, batch), 1),
        other => panic!("no delivery: {:?}", other),
    }
    assert_eq!(queue.len(), 3);
    assert_eq!(
        on_tick(&mut dispatcher, &mut queue),
        DispatchAction::Send(vec![record(200), record(300), record(400)])
    );
}

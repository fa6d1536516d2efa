use ble_watcher::calls::{NativeCall, ScanningMode};
use ble_watcher::error::{NativeOutcome, WatcherError};
use ble_watcher::filter::ScanFilter;
use ble_watcher::guid::Guid;
use ble_watcher::watcher::{BLEWatcher, Step};
use std::cell::RefCell;
use std::rc::Rc;

const HEART_RATE: u128 = 0x0000180d_0000_1000_8000_00805f9b34fb;
const BATTERY: u128 = 0x0000180f_0000_1000_8000_00805f9b34fb;
const DEVICE_INFORMATION: u128 = 0x0000180a_0000_1000_8000_00805f9b34fb;

fn guid(uuid: u128) -> Guid {
    let native = windows_core::GUID::from_u128(uuid);
    Guid { data1: native.data1, data2: native.data2, data3: native.data3, data4: native.data4 }
}

/// One broadcast of a peripheral.
#[derive(Clone, Debug, PartialEq)]
struct Advertisement {
    address: u64,
    rssi: i16,
    services: Vec<Guid>,
}

fn advertisement(address: u64, services: &[u128]) -> Advertisement {
    Advertisement { address, rssi: -60, services: services.iter().map(|uuid| guid(*uuid)).collect() }
}

type Callback = Box<dyn Fn(&Advertisement)>;

/// A scanning session that lives in memory. It does what each call asks, unless told to
/// fail that call, and hands an advertisement over only while it listens with a handler
/// and the advertisement carries every identifier of its filter.
struct Radio {
    service_uuids: Vec<Guid>,
    scanning_mode: ScanningMode,
    extended_advertisements: bool,
    handler_registered: bool,
    listening: bool,
    failing: Option<NativeCall>,
}

impl Radio {
    fn new() -> Radio {
        Radio {
            service_uuids: Vec::new(),
            scanning_mode: ScanningMode::Passive,
            extended_advertisements: false,
            handler_registered: false,
            listening: false,
            failing: None,
        }
    }

    fn perform(&mut self, call: NativeCall) -> NativeOutcome {
        if self.failing == Some(call) {
            return NativeOutcome::Failed(format!("{:?} refused", call));
        }
        match call {
            NativeCall::ClearServiceUuids => self.service_uuids.clear(),
            NativeCall::AppendServiceUuid(guid) => self.service_uuids.push(guid),
            NativeCall::SetScanningMode(mode) => self.scanning_mode = mode,
            NativeCall::SetAllowExtendedAdvertisements(allow) => self.extended_advertisements = allow,
            NativeCall::RegisterReceivedHandler => self.handler_registered = true,
            NativeCall::Start => self.listening = true,
            NativeCall::Stop => self.listening = false,
        }
        NativeOutcome::Completed
    }

    fn receives(&self, advertisement: &Advertisement) -> bool {
        self.listening
            && self.handler_registered
            && self.service_uuids.iter().all(|wanted| advertisement.services.contains(wanted))
    }

    /// A peripheral broadcasts; the session hands the broadcast to the watcher if it
    /// receives it.
    fn broadcast(&self, watcher: &BLEWatcher<Callback>, advertisement: &Advertisement) {
        if self.receives(advertisement) {
            if let Some((callback, event)) = watcher.dispatch(Some(advertisement)) {
                callback(event);
            }
        }
    }
}

fn run(radio: &mut Radio, mut step: Step<Callback>) -> (BLEWatcher<Callback>, Result<(), WatcherError>) {
    loop {
        match step {
            Step::Pending(attempt) => {
                let outcome = radio.perform(attempt.call());
                step = attempt.advance(outcome);
            },
            Step::Finished(watcher, result) => return (watcher, result),
        }
    }
}

fn start(
    radio: &mut Radio,
    watcher: BLEWatcher<Callback>,
    services: &[u128],
    seen: &Rc<RefCell<Vec<Advertisement>>>,
) -> (BLEWatcher<Callback>, Result<(), WatcherError>) {
    let seen = Rc::clone(seen);
    let callback: Callback = Box::new(move |advertisement| seen.borrow_mut().push(advertisement.clone()));
    let attempt = watcher.start(ScanFilter { services: services.to_vec() }, callback);
    run(radio, Step::Pending(attempt))
}

fn new_watcher() -> BLEWatcher<Callback> {
    BLEWatcher::new(NativeOutcome::Completed).unwrap()
}

fn log() -> Rc<RefCell<Vec<Advertisement>>> {
    Rc::new(RefCell::new(Vec::new()))
}

#[test]
fn a_matching_advertisement_reaches_the_callback_once() {
    let mut radio = Radio::new();
    let seen = log();
    let (watcher, result) = start(&mut radio, new_watcher(), &[HEART_RATE], &seen);
    assert_eq!(result, Ok(()));

    let strap = advertisement(0xc0ffee, &[BATTERY, HEART_RATE]);
    radio.broadcast(&watcher, &strap);

    assert_eq!(seen.borrow().len(), 1);
    assert_eq!(seen.borrow()[0], strap);
    assert!(seen.borrow()[0].services.contains(&guid(HEART_RATE)));
}

#[test]
fn an_advertisement_without_the_service_does_not_reach_the_callback() {
    let mut radio = Radio::new();
    let seen = log();
    let (watcher, result) = start(&mut radio, new_watcher(), &[HEART_RATE], &seen);
    assert_eq!(result, Ok(()));
    radio.broadcast(&watcher, &advertisement(1, &[BATTERY]));
    radio.broadcast(&watcher, &advertisement(2, &[]));
    assert!(seen.borrow().is_empty());
}

#[test]
fn the_session_holds_exactly_the_identifiers_of_the_filter() {
    let mut radio = Radio::new();
    radio.service_uuids = vec![guid(DEVICE_INFORMATION), guid(BATTERY)];
    let (watcher, result) = start(&mut radio, new_watcher(), &[HEART_RATE, BATTERY], &log());
    assert_eq!(result, Ok(()));
    assert!(watcher.is_armed());
    assert_eq!(radio.service_uuids, vec![guid(HEART_RATE), guid(BATTERY)]);
    assert_eq!(radio.scanning_mode, ScanningMode::Active);
    assert!(radio.extended_advertisements);
    assert!(radio.handler_registered);
    assert!(radio.listening);
}

#[test]
fn an_empty_filter_lets_every_advertisement_through() {
    let mut radio = Radio::new();
    radio.service_uuids = vec![guid(DEVICE_INFORMATION)];
    let seen = log();
    let (watcher, result) = start(&mut radio, new_watcher(), &[], &seen);
    assert_eq!(result, Ok(()));
    assert!(radio.service_uuids.is_empty());

    let all = [
        advertisement(1, &[]),
        advertisement(2, &[HEART_RATE]),
        advertisement(3, &[BATTERY, DEVICE_INFORMATION]),
    ];
    for one in &all {
        radio.broadcast(&watcher, one);
    }
    assert_eq!(*seen.borrow(), all.to_vec());
}

#[test]
fn a_session_that_cannot_be_armed_fails_the_start() {
    let mut radio = Radio::new();
    radio.failing = Some(NativeCall::Start);
    let seen = log();
    let (watcher, result) = start(&mut radio, new_watcher(), &[HEART_RATE], &seen);
    assert_eq!(result, Err(WatcherError::ScanConfig("Start refused".to_string())));
    assert!(!watcher.is_armed());
    assert!(!radio.listening);

    radio.broadcast(&watcher, &advertisement(1, &[HEART_RATE]));
    // Even an advertisement that the platform hands over regardless goes nowhere.
    assert!(watcher.dispatch(Some(&advertisement(2, &[HEART_RATE]))).is_none());
    assert!(seen.borrow().is_empty());
}

#[test]
fn a_filter_that_the_session_refuses_fails_the_start() {
    let mut radio = Radio::new();
    radio.failing = Some(NativeCall::AppendServiceUuid(guid(BATTERY)));
    let (watcher, result) = start(&mut radio, new_watcher(), &[HEART_RATE, BATTERY], &log());
    assert!(matches!(result, Err(WatcherError::ScanConfig(_))));
    assert!(!watcher.is_armed());
    assert!(!radio.listening, "nothing was armed after the failure");
    assert!(!radio.handler_registered, "no call followed the one that failed");
}

#[test]
fn after_a_stop_nothing_reaches_the_callback() {
    let mut radio = Radio::new();
    let seen = log();
    let (watcher, _) = start(&mut radio, new_watcher(), &[], &seen);
    radio.broadcast(&watcher, &advertisement(1, &[HEART_RATE]));
    assert_eq!(seen.borrow().len(), 1);

    let (watcher, result) = run(&mut radio, watcher.stop());
    assert_eq!(result, Ok(()));
    assert!(!radio.listening);
    radio.broadcast(&watcher, &advertisement(2, &[HEART_RATE]));
    // A session that keeps handing advertisements over is not listened to either.
    assert!(watcher.dispatch(Some(&advertisement(3, &[]))).is_none());
    assert_eq!(seen.borrow().len(), 1);
}

#[test]
fn a_second_start_listens_for_the_second_filter_only() {
    let mut radio = Radio::new();
    let first = log();
    let second = log();

    let (watcher, result) = start(&mut radio, new_watcher(), &[HEART_RATE], &first);
    assert_eq!(result, Ok(()));
    let (watcher, result) = run(&mut radio, watcher.stop());
    assert_eq!(result, Ok(()));
    let (watcher, result) = start(&mut radio, watcher, &[BATTERY], &second);
    assert_eq!(result, Ok(()));
    assert_eq!(radio.service_uuids, vec![guid(BATTERY)]);

    let strap = advertisement(1, &[HEART_RATE]);
    let sensor = advertisement(2, &[BATTERY]);
    let both = advertisement(3, &[HEART_RATE, BATTERY]);
    radio.broadcast(&watcher, &strap);
    radio.broadcast(&watcher, &sensor);
    radio.broadcast(&watcher, &both);

    assert!(first.borrow().is_empty(), "the first callback was replaced");
    assert_eq!(*second.borrow(), vec![sensor, both]);
}

#[test]
fn a_start_on_an_armed_watcher_replaces_filter_and_callback() {
    let mut radio = Radio::new();
    let first = log();
    let second = log();
    let (watcher, _) = start(&mut radio, new_watcher(), &[HEART_RATE], &first);
    radio.broadcast(&watcher, &advertisement(1, &[HEART_RATE]));
    let (watcher, result) = start(&mut radio, watcher, &[BATTERY], &second);
    assert_eq!(result, Ok(()));
    assert_eq!(radio.service_uuids, vec![guid(BATTERY)]);
    radio.broadcast(&watcher, &advertisement(2, &[HEART_RATE]));
    radio.broadcast(&watcher, &advertisement(3, &[BATTERY]));
    assert_eq!(first.borrow().len(), 1);
    assert_eq!(*second.borrow(), vec![advertisement(3, &[BATTERY])]);
}

#[test]
fn a_stop_that_the_session_refuses_is_a_scan_stop_error() {
    let mut radio = Radio::new();
    let seen = log();
    let (watcher, _) = start(&mut radio, new_watcher(), &[], &seen);
    radio.failing = Some(NativeCall::Stop);
    let (watcher, result) = run(&mut radio, watcher.stop());
    assert_eq!(result, Err(WatcherError::ScanStop("Stop refused".to_string())));
    assert!(watcher.is_armed());
    radio.broadcast(&watcher, &advertisement(1, &[]));
    assert_eq!(seen.borrow().len(), 1);
}

use vx220::racebox::ble::{
    collect_beacons, locate_data_source, locate_service, locate_uuid, BleCommand, BleError,
    BleEvent, BleLink, BleNotice, BlePhase, BleState, GattService,
};
use vx220::racebox::encode::encode_packet;
use vx220::racebox::parser::{parse_packet, RaceBoxData};
use vx220::racebox::protocol::{
    is_beacon, is_scan_running, scan_delay_ms, DEVICE_NAME_PREFIX, TX_CHAR_UUID,
    UART_SERVICE_UUID,
};

const RX_CHAR_UUID: u128 = 0x6E400002_B5A3_F393_E0A9_E50E24DCCA9E;
const BATTERY_SERVICE_UUID: u128 = 0x0000180F_0000_1000_8000_00805F9B34FB;

fn name(text: &str) -> Option<String> {
    Some(text.to_string())
}

fn uart_service() -> GattService {
    GattService { uuid: UART_SERVICE_UUID, characteristics: vec![RX_CHAR_UUID, TX_CHAR_UUID] }
}

fn position() -> RaceBoxData {
    let mut payload = vec![0u8; 80];
    payload[..4].copy_from_slice(&[0xB5, 0x62, 0xFF, 0x01]);
    payload[28..32].copy_from_slice(&481_234_560i32.to_le_bytes());
    parse_packet(&payload).unwrap()
}

/// A link that has the radio up and is pausing before its first look.
fn scanning_link() -> BleLink {
    let mut link = BleLink::new();
    assert_eq!(link.handle(BleEvent::Start), BleNotice::Nothing);
    assert_eq!(link.handle(BleEvent::AdaptersListed(1)), BleNotice::Nothing);
    assert_eq!(link.handle(BleEvent::ScanStarted), BleNotice::Nothing);
    link
}

/// A link that is connecting to the device at place 1 of three.
fn connecting_link() -> BleLink {
    let mut link = scanning_link();
    link.handle(BleEvent::WaitElapsed);
    let names = vec![name("Phone"), name("RaceBox Micro 123"), name("RaceBox Micro 456")];
    assert_eq!(link.handle(BleEvent::PeripheralsListed(names)), BleNotice::Nothing);
    assert_eq!(link.command(), BleCommand::Connect(1));
    link
}

/// A link that takes notifications from the device at place 1.
fn streaming_link() -> BleLink {
    let mut link = connecting_link();
    link.handle(BleEvent::Connected);
    link.handle(BleEvent::ServicesDiscovered(vec![uart_service()]));
    link.handle(BleEvent::Subscribed);
    link.handle(BleEvent::NotificationsOpened);
    assert_eq!(link.phase(), BlePhase::Streaming);
    link
}

#[test]
fn identifiers_of_the_beacon() {
    assert_eq!(DEVICE_NAME_PREFIX, "RaceBox Micro");
    assert_eq!(format!("{:032X}", UART_SERVICE_UUID), "6E400001B5A3F393E0A9E50E24DCCA9E");
    assert_eq!(format!("{:032X}", TX_CHAR_UUID), "6E400003B5A3F393E0A9E50E24DCCA9E");
}

#[test]
fn scan_pauses_come_in_three_tiers() {
    for count in 0..10 {
        assert_eq!(scan_delay_ms(count), 1_000);
    }
    for count in 10..20 {
        assert_eq!(scan_delay_ms(count), 3_000);
    }
    for count in 20..200 {
        assert_eq!(scan_delay_ms(count), 10_000);
    }
    assert_eq!(scan_delay_ms(u64::MAX), 10_000);
}

#[test]
fn beacon_names() {
    assert!(is_beacon("RaceBox Micro"));
    assert!(is_beacon("RaceBox Micro 1234567890"));
    assert!(!is_beacon("RaceBox Mini 123"));
    assert!(!is_beacon("racebox micro 123"));
    assert!(!is_beacon(" RaceBox Micro"));
    assert!(!is_beacon("RaceBox Micr"));
    assert!(!is_beacon(""));
    assert!(is_beacon("RaceBox Micro \u{1F3CE}"));
    assert!(!is_beacon("\u{1F3CE}RaceBox Micro"));
}

#[test]
fn scan_already_running_messages() {
    assert!(is_scan_running("org.bluez.Error.InProgress"));
    assert!(is_scan_running("DBus error: org.bluez.Error.InProgress: busy"));
    assert!(is_scan_running("Operation already in progress"));
    assert!(is_scan_running("x Operation already in progress y"));
    assert!(!is_scan_running("org.bluez.Error.NotReady"));
    assert!(!is_scan_running("operation already in progress"));
    assert!(!is_scan_running(""));
}

#[test]
fn new_link_is_idle() {
    let link = BleLink::new();
    assert_eq!(link.phase(), BlePhase::Stopped);
    assert_eq!(link.state(), BleState::Idle);
    assert_eq!(link.command(), BleCommand::Halt);
    assert_eq!(link.scan_count(), 0);
}

#[test]
fn idle_link_ignores_everything_but_the_start() {
    let mut link = BleLink::new();
    assert_eq!(link.handle(BleEvent::WaitElapsed), BleNotice::Nothing);
    assert_eq!(link.handle(BleEvent::Failed("x".to_string())), BleNotice::Nothing);
    assert_eq!(link.handle(BleEvent::Notification(vec![1, 2, 3])), BleNotice::Nothing);
    assert_eq!(link.phase(), BlePhase::Stopped);
    assert_eq!(link.handle(BleEvent::Start), BleNotice::Nothing);
    assert_eq!(link.phase(), BlePhase::OpeningAdapter);
    assert_eq!(link.state(), BleState::Scanning);
    assert_eq!(link.command(), BleCommand::OpenAdapter);
}

#[test]
fn the_whole_way_to_streaming() {
    let mut link = BleLink::new();
    link.handle(BleEvent::Start);
    assert_eq!(link.command(), BleCommand::OpenAdapter);
    assert_eq!(link.handle(BleEvent::AdaptersListed(2)), BleNotice::Nothing);
    assert_eq!(link.command(), BleCommand::StartScan);
    assert_eq!(link.handle(BleEvent::ScanStarted), BleNotice::Nothing);
    assert_eq!(link.state(), BleState::Scanning);
    assert_eq!(link.command(), BleCommand::Wait(1_000));
    assert_eq!(link.handle(BleEvent::WaitElapsed), BleNotice::Nothing);
    assert_eq!(link.scan_count(), 1);
    assert_eq!(link.command(), BleCommand::ListPeripherals);
    let names = vec![None, name("Watch"), name("RaceBox Micro 1221"), None];
    assert_eq!(link.handle(BleEvent::PeripheralsListed(names)), BleNotice::Nothing);
    assert_eq!(link.state(), BleState::Connecting);
    assert_eq!(link.command(), BleCommand::Connect(2));
    assert_eq!(link.handle(BleEvent::Connected), BleNotice::Nothing);
    assert_eq!(link.state(), BleState::ServiceDiscovery);
    assert_eq!(link.command(), BleCommand::DiscoverServices(2));
    let services = vec![
        GattService { uuid: BATTERY_SERVICE_UUID, characteristics: vec![TX_CHAR_UUID] },
        uart_service(),
    ];
    assert_eq!(link.handle(BleEvent::ServicesDiscovered(services)), BleNotice::Nothing);
    assert_eq!(link.state(), BleState::Subscribing);
    assert_eq!(
        link.command(),
        BleCommand::Subscribe { peripheral: 2, service: 1, characteristic: 1 }
    );
    assert_eq!(link.handle(BleEvent::Subscribed), BleNotice::Nothing);
    assert_eq!(link.state(), BleState::Subscribing);
    assert_eq!(link.command(), BleCommand::OpenNotifications(2));
    assert_eq!(link.handle(BleEvent::NotificationsOpened), BleNotice::Nothing);
    assert_eq!(link.state(), BleState::Streaming);
    assert_eq!(link.command(), BleCommand::NextNotification(2));
    let payload = encode_packet(&position());
    assert_eq!(link.handle(BleEvent::Notification(payload)), BleNotice::Sample(position()));
    assert_eq!(link.command(), BleCommand::NextNotification(2));
}

#[test]
fn radio_that_cannot_be_opened_stops_the_link() {
    let mut link = BleLink::new();
    link.handle(BleEvent::Start);
    assert_eq!(
        link.handle(BleEvent::Failed("no bluetooth".to_string())),
        BleNotice::Error(BleError::ManagerCreation("no bluetooth".to_string()))
    );
    assert_eq!(link.state(), BleState::Idle);
    assert_eq!(link.command(), BleCommand::Halt);
}

#[test]
fn no_adapter_stops_the_link() {
    let mut link = BleLink::new();
    link.handle(BleEvent::Start);
    assert_eq!(link.handle(BleEvent::AdaptersListed(0)), BleNotice::Error(BleError::NoAdapter));
    assert_eq!(link.command(), BleCommand::Halt);
}

#[test]
fn scan_that_cannot_start_stops_the_link() {
    let mut link = BleLink::new();
    link.handle(BleEvent::Start);
    link.handle(BleEvent::AdaptersListed(1));
    assert_eq!(
        link.handle(BleEvent::Failed("org.bluez.Error.NotReady".to_string())),
        BleNotice::Error(BleError::ScanStart("org.bluez.Error.NotReady".to_string()))
    );
    assert_eq!(link.command(), BleCommand::Halt);
}

#[test]
fn scan_that_runs_already_is_no_failure() {
    let mut link = BleLink::new();
    link.handle(BleEvent::Start);
    link.handle(BleEvent::AdaptersListed(1));
    assert_eq!(
        link.handle(BleEvent::Failed("org.bluez.Error.InProgress".to_string())),
        BleNotice::Nothing
    );
    assert_eq!(link.command(), BleCommand::Wait(1_000));
}

#[test]
fn stopped_link_can_be_started_again() {
    let mut link = BleLink::new();
    link.handle(BleEvent::Start);
    link.handle(BleEvent::AdaptersListed(0));
    assert_eq!(link.handle(BleEvent::Start), BleNotice::Nothing);
    assert_eq!(link.command(), BleCommand::OpenAdapter);
}

#[test]
fn looks_without_a_beacon_slow_down() {
    let mut link = scanning_link();
    let mut pauses = Vec::new();
    for _ in 0..25 {
        match link.command() {
            BleCommand::Wait(ms) => pauses.push(ms),
            other => panic!("unexpected {:?}", other),
        }
        link.handle(BleEvent::WaitElapsed);
        assert_eq!(link.command(), BleCommand::ListPeripherals);
        link.handle(BleEvent::PeripheralsListed(vec![name("Phone"), None]));
    }
    let mut expected = vec![1_000; 10];
    expected.extend_from_slice(&[3_000; 10]);
    expected.extend_from_slice(&[10_000; 5]);
    assert_eq!(pauses, expected);
    assert_eq!(link.scan_count(), 25);
}

#[test]
fn failed_listing_is_reported_and_the_look_repeated() {
    let mut link = scanning_link();
    link.handle(BleEvent::WaitElapsed);
    assert_eq!(
        link.handle(BleEvent::Failed("adapter gone".to_string())),
        BleNotice::Error(BleError::PeripheralDiscovery("adapter gone".to_string()))
    );
    assert_eq!(link.state(), BleState::Scanning);
    assert_eq!(link.command(), BleCommand::Wait(1_000));
}

#[test]
fn failed_connection_moves_on_to_the_next_beacon() {
    let mut link = connecting_link();
    assert_eq!(
        link.handle(BleEvent::Failed("timeout".to_string())),
        BleNotice::Error(BleError::Connection("timeout".to_string()))
    );
    assert_eq!(link.command(), BleCommand::Connect(2));
    assert_eq!(
        link.handle(BleEvent::Failed("timeout again".to_string())),
        BleNotice::Error(BleError::Connection("timeout again".to_string()))
    );
    // No beacon left: back to pausing and looking.
    assert_eq!(link.state(), BleState::Scanning);
    assert_eq!(link.command(), BleCommand::Wait(1_000));
}

#[test]
fn failed_discovery_moves_on() {
    let mut link = connecting_link();
    link.handle(BleEvent::Connected);
    assert_eq!(
        link.handle(BleEvent::Failed("gatt".to_string())),
        BleNotice::Error(BleError::ServiceDiscovery("gatt".to_string()))
    );
    assert_eq!(link.command(), BleCommand::Connect(2));
}

#[test]
fn missing_service_moves_on() {
    let mut link = connecting_link();
    link.handle(BleEvent::Connected);
    let services =
        vec![GattService { uuid: BATTERY_SERVICE_UUID, characteristics: vec![TX_CHAR_UUID] }];
    assert_eq!(
        link.handle(BleEvent::ServicesDiscovered(services)),
        BleNotice::Error(BleError::CharacteristicNotFound)
    );
    assert_eq!(link.command(), BleCommand::Connect(2));
}

#[test]
fn missing_characteristic_moves_on() {
    let mut link = connecting_link();
    link.handle(BleEvent::Connected);
    let services =
        vec![GattService { uuid: UART_SERVICE_UUID, characteristics: vec![RX_CHAR_UUID] }];
    assert_eq!(
        link.handle(BleEvent::ServicesDiscovered(services)),
        BleNotice::Error(BleError::CharacteristicNotFound)
    );
    assert_eq!(link.command(), BleCommand::Connect(2));
}

#[test]
fn failed_subscription_moves_on() {
    let mut link = connecting_link();
    link.handle(BleEvent::Connected);
    link.handle(BleEvent::ServicesDiscovered(vec![uart_service()]));
    assert_eq!(
        link.handle(BleEvent::Failed("denied".to_string())),
        BleNotice::Error(BleError::Subscription("denied".to_string()))
    );
    assert_eq!(link.command(), BleCommand::Connect(2));
}

#[test]
fn failed_stream_moves_on() {
    let mut link = connecting_link();
    link.handle(BleEvent::Connected);
    link.handle(BleEvent::ServicesDiscovered(vec![uart_service()]));
    link.handle(BleEvent::Subscribed);
    assert_eq!(
        link.handle(BleEvent::Failed("closed".to_string())),
        BleNotice::Error(BleError::NotificationSetup("closed".to_string()))
    );
    assert_eq!(link.command(), BleCommand::Connect(2));
}

#[test]
fn malformed_payloads_are_dropped_without_leaving_the_stream() {
    let mut link = streaming_link();
    assert_eq!(link.handle(BleEvent::Notification(vec![])), BleNotice::Malformed);
    assert_eq!(link.handle(BleEvent::Notification(vec![0xB5, 0x62, 0xFF, 0x01])), BleNotice::Malformed);
    let mut wrong = encode_packet(&position());
    wrong[2] = 0xFE;
    assert_eq!(link.handle(BleEvent::Notification(wrong)), BleNotice::Malformed);
    assert_eq!(link.phase(), BlePhase::Streaming);
    let good = encode_packet(&position());
    assert_eq!(link.handle(BleEvent::Notification(good)), BleNotice::Sample(position()));
    assert_eq!(link.command(), BleCommand::NextNotification(1));
}

#[test]
fn ended_stream_tries_what_is_left_and_then_stops() {
    let mut link = streaming_link();
    assert_eq!(link.handle(BleEvent::StreamEnded), BleNotice::Nothing);
    // The other beacon of the last look is still tried.
    assert_eq!(link.command(), BleCommand::Connect(2));
    assert_eq!(
        link.handle(BleEvent::Failed("away".to_string())),
        BleNotice::Error(BleError::Connection("away".to_string()))
    );
    // After that the link does not look again by itself.
    assert_eq!(link.state(), BleState::Idle);
    assert_eq!(link.command(), BleCommand::Halt);
}

#[test]
fn events_that_answer_nothing_are_ignored() {
    let mut link = connecting_link();
    assert_eq!(link.handle(BleEvent::WaitElapsed), BleNotice::Nothing);
    assert_eq!(link.handle(BleEvent::Subscribed), BleNotice::Nothing);
    assert_eq!(link.handle(BleEvent::Notification(encode_packet(&position()))), BleNotice::Nothing);
    assert_eq!(link.handle(BleEvent::Start), BleNotice::Nothing);
    assert_eq!(link.command(), BleCommand::Connect(1));
}

#[test]
fn beacons_are_picked_out_in_order() {
    let names = vec![
        name("RaceBox Micro A"),
        None,
        name("RaceBox Mini"),
        name("RaceBox Micro B"),
        name(""),
        name("RaceBox Micro"),
    ];
    assert_eq!(collect_beacons(&names), vec![0, 3, 5]);
    assert_eq!(collect_beacons(&vec![]), Vec::<usize>::new());
    assert_eq!(collect_beacons(&vec![None, name("x")]), Vec::<usize>::new());
}

#[test]
fn first_match_is_located() {
    assert_eq!(locate_uuid(&vec![5, 7, 9, 7], 7), Some(1));
    assert_eq!(locate_uuid(&vec![5, 7, 9, 7], 8), None);
    assert_eq!(locate_uuid(&vec![], 8), None);
    let services = vec![
        GattService { uuid: 1, characteristics: vec![] },
        GattService { uuid: 2, characteristics: vec![3] },
        GattService { uuid: 2, characteristics: vec![4] },
    ];
    assert_eq!(locate_service(&services, 2), Some(1));
    assert_eq!(locate_service(&services, 3), None);
}

#[test]
fn data_source_is_looked_for_in_the_first_serial_service_only() {
    let services = vec![
        GattService { uuid: UART_SERVICE_UUID, characteristics: vec![RX_CHAR_UUID] },
        uart_service(),
    ];
    assert_eq!(locate_data_source(&services), None);
    let services = vec![
        GattService { uuid: BATTERY_SERVICE_UUID, characteristics: vec![] },
        GattService {
            uuid: UART_SERVICE_UUID,
            characteristics: vec![TX_CHAR_UUID, RX_CHAR_UUID, TX_CHAR_UUID],
        },
    ];
    assert_eq!(locate_data_source(&services), Some((1, 0)));
    assert_eq!(locate_data_source(&vec![]), None);
}

#[test]
fn error_messages() {
    let detail = || "boom".to_string();
    assert_eq!(
        BleError::ManagerCreation(detail()).message(),
        "Failed to create BLE manager: boom"
    );
    assert_eq!(BleError::NoAdapter.message(), "No BLE adapter found");
    assert_eq!(BleError::ScanStart(detail()).message(), "Failed to start BLE scan: boom");
    assert_eq!(
        BleError::PeripheralDiscovery(detail()).message(),
        "Failed to get peripherals: boom"
    );
    assert_eq!(BleError::Connection(detail()).message(), "Failed to connect to device: boom");
    assert_eq!(
        BleError::ServiceDiscovery(detail()).message(),
        "Failed to discover services: boom"
    );
    assert_eq!(BleError::CharacteristicNotFound.message(), "TX characteristic not found");
    assert_eq!(
        BleError::Subscription(detail()).message(),
        "Failed to subscribe to notifications: boom"
    );
    assert_eq!(
        BleError::NotificationSetup(detail()).message(),
        "Failed to get notifications: boom"
    );
}

//! The wireless link as a state machine.
//!
//! The link owns no radio. It says which operation comes next
//! ([`BleLink::command`]), is told how that operation went
//! ([`BleLink::handle`]), and answers with what is to be passed on: a
//! decoded sample, an error, or nothing. Whoever drives it performs the
//! operations and reports back.

use crate::racebox::parser::{decode_packet, parse_packet, RaceBoxData};
use crate::racebox::protocol::{is_beacon, is_beacon_name, is_scan_running,
    is_scan_running_text, scan_delay, scan_delay_ms, TX_CHAR_UUID, UART_SERVICE_UUID};
use vstd::prelude::*;
use vstd::string::StringExecFns;

verus! {

/// What went wrong on the wireless link. Where the radio stack gave a
/// message, the error carries it.
#[derive(Debug, Clone, PartialEq, Eq)]
pub enum BleError {
    ManagerCreation(String),
    NoAdapter,
    ScanStart(String),
    PeripheralDiscovery(String),
    Connection(String),
    ServiceDiscovery(String),
    CharacteristicNotFound,
    Subscription(String),
    NotificationSetup(String),
}

impl BleError {
    /// The text of the error.
    pub open spec fn text(self) -> Seq<char> {
        match self {
            BleError::ManagerCreation(detail) => "Failed to create BLE manager: "@ + detail@,
            BleError::NoAdapter => "No BLE adapter found"@,
            BleError::ScanStart(detail) => "Failed to start BLE scan: "@ + detail@,
            BleError::PeripheralDiscovery(detail) => "Failed to get peripherals: "@ + detail@,
            BleError::Connection(detail) => "Failed to connect to device: "@ + detail@,
            BleError::ServiceDiscovery(detail) => "Failed to discover services: "@ + detail@,
            BleError::CharacteristicNotFound => "TX characteristic not found"@,
            BleError::Subscription(detail) => "Failed to subscribe to notifications: "@ + detail@,
            BleError::NotificationSetup(detail) => "Failed to get notifications: "@ + detail@,
        }
    }

    /// Describes the error in words.
    pub fn message(&self) -> (text: String)
        ensures
            text@ == self.text(),
    {
        match self {
            BleError::ManagerCreation(detail) => String::from_str(
                "Failed to create BLE manager: ",
            ).concat(detail.as_str()),
            BleError::NoAdapter => String::from_str("No BLE adapter found"),
            BleError::ScanStart(detail) => String::from_str("Failed to start BLE scan: ").concat(
                detail.as_str(),
            ),
            BleError::PeripheralDiscovery(detail) => String::from_str(
                "Failed to get peripherals: ",
            ).concat(detail.as_str()),
            BleError::Connection(detail) => String::from_str(
                "Failed to connect to device: ",
            ).concat(detail.as_str()),
            BleError::ServiceDiscovery(detail) => String::from_str(
                "Failed to discover services: ",
            ).concat(detail.as_str()),
            BleError::CharacteristicNotFound => String::from_str("TX characteristic not found"),
            BleError::Subscription(detail) => String::from_str(
                "Failed to subscribe to notifications: ",
            ).concat(detail.as_str()),
            BleError::NotificationSetup(detail) => String::from_str(
                "Failed to get notifications: ",
            ).concat(detail.as_str()),
        }
    }
}

/// The stage the link is in, as shown to the outside.
#[derive(Debug, Clone, Copy, PartialEq, Eq, Structural)]
pub enum BleState {
    Idle,
    Scanning,
    Connecting,
    ServiceDiscovery,
    Subscribing,
    Streaming,
}

/// The operation the link is waiting on.
#[derive(Debug, Clone, Copy, PartialEq, Eq, Structural)]
pub enum BlePhase {
    /// Not running: before the start, after a failure to set the radio up,
    /// or after the stream has ended.
    Stopped,
    /// Asking for the radio adapters.
    OpeningAdapter,
    /// Asking the adapter to scan.
    StartingScan,
    /// Pausing before the next look at the visible devices.
    Waiting,
    /// Asking for the visible devices.
    Listing,
    /// Connecting to a beacon.
    Connecting,
    /// Asking the beacon for its services.
    Discovering,
    /// Subscribing to the beacon's data characteristic.
    Subscribing,
    /// Opening the stream of notifications.
    OpeningStream,
    /// Taking notifications as they come.
    Streaming,
}

impl BlePhase {
    /// The stage that a phase belongs to.
    pub open spec fn stage(self) -> BleState {
        match self {
            BlePhase::Stopped => BleState::Idle,
            BlePhase::OpeningAdapter => BleState::Scanning,
            BlePhase::StartingScan => BleState::Scanning,
            BlePhase::Waiting => BleState::Scanning,
            BlePhase::Listing => BleState::Scanning,
            BlePhase::Connecting => BleState::Connecting,
            BlePhase::Discovering => BleState::ServiceDiscovery,
            BlePhase::Subscribing => BleState::Subscribing,
            BlePhase::OpeningStream => BleState::Subscribing,
            BlePhase::Streaming => BleState::Streaming,
        }
    }

    /// Whether the phase works on one chosen beacon.
    pub open spec fn on_beacon(self) -> bool {
        self.stage() != BleState::Idle && self.stage() != BleState::Scanning
    }
}

/// One service of a device, with the characteristics it offers.
#[derive(Debug, Clone, PartialEq, Eq)]
pub struct GattService {
    pub uuid: u128,
    pub characteristics: Vec<u128>,
}

/// How the last operation went.
#[derive(Debug, Clone, PartialEq, Eq)]
pub enum BleEvent {
    /// The link is asked to run.
    Start,
    /// The operation failed, with the radio stack's message.
    Failed(String),
    /// The adapters were listed; so many were found.
    AdaptersListed(usize),
    /// The scan runs.
    ScanStarted,
    /// The pause is over.
    WaitElapsed,
    /// The visible devices, each with the name it advertises, if any.
    PeripheralsListed(Vec<Option<String>>),
    /// The beacon is connected.
    Connected,
    /// The beacon's services.
    ServicesDiscovered(Vec<GattService>),
    /// The subscription stands.
    Subscribed,
    /// The stream of notifications is open.
    NotificationsOpened,
    /// A notification came, with this payload.
    Notification(Vec<u8>),
    /// The stream of notifications has ended.
    StreamEnded,
}

/// The operation to perform next. A device is named by its place in the
/// last list of visible devices, a service by its place in the list of the
/// device's services, a characteristic by its place in the service.
#[derive(Debug, Clone, Copy, PartialEq, Eq, Structural)]
pub enum BleCommand {
    /// Nothing: the link does not run.
    Halt,
    /// Open the radio and list its adapters; the first one is used.
    OpenAdapter,
    /// Start scanning.
    StartScan,
    /// Pause for so many milliseconds.
    Wait(u64),
    /// List the visible devices.
    ListPeripherals,
    /// Connect to the device.
    Connect(usize),
    /// List the services of the device.
    DiscoverServices(usize),
    /// Subscribe to a characteristic of the device.
    Subscribe { peripheral: usize, service: usize, characteristic: usize },
    /// Open the device's stream of notifications.
    OpenNotifications(usize),
    /// Wait for the next notification.
    NextNotification(usize),
}

/// What the link passes on after an event.
#[derive(Debug, Clone, PartialEq, Eq)]
pub enum BleNotice {
    /// Nothing to pass on.
    Nothing,
    /// A sample was decoded.
    Sample(RaceBoxData),
    /// A notification was not a data packet and was dropped.
    Malformed,
    /// An operation failed.
    Error(BleError),
}

/// The link's state as a mathematical value.
pub struct BleLinkState {
    pub phase: BlePhase,
    /// Looks at the visible devices made so far.
    pub scan_count: nat,
    /// The beacons among the devices of the last look, by their place in
    /// the list, in the order of the list.
    pub candidates: Seq<usize>,
    /// How many of the candidates have been taken up.
    pub cursor: nat,
    /// The device being worked on.
    pub peripheral: nat,
    /// The service and characteristic chosen on that device.
    pub service: nat,
    pub characteristic: nat,
    /// Whether a stream has been opened since the start.
    pub connected: bool,
}

/// The wireless link.
pub struct BleLink {
    phase: BlePhase,
    scan_count: u64,
    candidates: Vec<usize>,
    cursor: usize,
    peripheral: usize,
    service: usize,
    characteristic: usize,
    connected: bool,
}

/// The places in `names` at which a beacon's name stands, in rising order.
pub open spec fn beacon_indices(names: Seq<Option<String>>) -> Seq<usize>
    decreases names.len(),
{
    if names.len() == 0 {
        Seq::empty()
    } else {
        let before = beacon_indices(names.drop_last());
        match names.last() {
            Some(name) => if is_beacon_name(name@) {
                before.push((names.len() - 1) as usize)
            } else {
                before
            },
            None => before,
        }
    }
}

/// The first place at or after `from` at which `uuid` stands in `uuids`.
pub open spec fn find_uuid(uuids: Seq<u128>, uuid: u128, from: int) -> Option<usize>
    decreases uuids.len() - from,
{
    if from < 0 || from >= uuids.len() {
        None
    } else if uuids[from] == uuid {
        Some(from as usize)
    } else {
        find_uuid(uuids, uuid, from + 1)
    }
}

/// The first place at or after `from` of a service with the given `uuid`.
pub open spec fn find_service(services: Seq<GattService>, uuid: u128, from: int) -> Option<usize>
    decreases services.len() - from,
{
    if from < 0 || from >= services.len() {
        None
    } else if services[from].uuid == uuid {
        Some(from as usize)
    } else {
        find_service(services, uuid, from + 1)
    }
}

/// The beacon's data source among `services`: the first serial service and,
/// in it, the first sending characteristic. Nothing if the service is not
/// there, or if that service lacks the characteristic.
pub open spec fn find_data_source(services: Seq<GattService>) -> Option<(usize, usize)> {
    match find_service(services, UART_SERVICE_UUID, 0) {
        Some(service) => match find_uuid(
            services[service as int].characteristics@,
            TX_CHAR_UUID,
            0,
        ) {
            Some(characteristic) => Some((service, characteristic)),
            None => None,
        },
        None => None,
    }
}

impl BleLinkState {
    /// The state before the link is started.
    pub open spec fn initial() -> BleLinkState {
        BleLinkState {
            phase: BlePhase::Stopped,
            scan_count: 0,
            candidates: Seq::empty(),
            cursor: 0,
            peripheral: 0,
            service: 0,
            characteristic: 0,
            connected: false,
        }
    }

    /// Takes up the candidate under the cursor. When none is left the link
    /// goes back to pausing and looking, unless a stream has been open
    /// before: then it stops.
    pub open spec fn settle(self) -> BleLinkState {
        if self.cursor < self.candidates.len() {
            BleLinkState {
                phase: BlePhase::Connecting,
                peripheral: self.candidates[self.cursor as int] as nat,
                ..self
            }
        } else if self.connected {
            BleLinkState { phase: BlePhase::Stopped, ..self }
        } else {
            BleLinkState { phase: BlePhase::Waiting, ..self }
        }
    }

    /// Gives up the candidate under the cursor and takes up the next.
    pub open spec fn abandon(self) -> BleLinkState {
        if self.cursor < self.candidates.len() {
            BleLinkState { cursor: self.cursor + 1, ..self }.settle()
        } else {
            self.settle()
        }
    }

    /// The operation that a state waits on.
    pub open spec fn command(self) -> BleCommand {
        match self.phase {
            BlePhase::Stopped => BleCommand::Halt,
            BlePhase::OpeningAdapter => BleCommand::OpenAdapter,
            BlePhase::StartingScan => BleCommand::StartScan,
            BlePhase::Waiting => BleCommand::Wait(scan_delay(self.scan_count) as u64),
            BlePhase::Listing => BleCommand::ListPeripherals,
            BlePhase::Connecting => BleCommand::Connect(self.peripheral as usize),
            BlePhase::Discovering => BleCommand::DiscoverServices(self.peripheral as usize),
            BlePhase::Subscribing => BleCommand::Subscribe {
                peripheral: self.peripheral as usize,
                service: self.service as usize,
                characteristic: self.characteristic as usize,
            },
            BlePhase::OpeningStream => BleCommand::OpenNotifications(self.peripheral as usize),
            BlePhase::Streaming => BleCommand::NextNotification(self.peripheral as usize),
        }
    }

    /// The state after an event, and what is passed on. An event that does
    /// not answer the operation the state waits on changes nothing.
    pub open spec fn step(self, event: BleEvent) -> (BleLinkState, BleNotice) {
        match (self.phase, event) {
            (BlePhase::Stopped, BleEvent::Start) => (
                BleLinkState { phase: BlePhase::OpeningAdapter, ..BleLinkState::initial() },
                BleNotice::Nothing,
            ),
            (BlePhase::OpeningAdapter, BleEvent::Failed(detail)) => (
                BleLinkState { phase: BlePhase::Stopped, ..self },
                BleNotice::Error(BleError::ManagerCreation(detail)),
            ),
            (BlePhase::OpeningAdapter, BleEvent::AdaptersListed(count)) => if count == 0 {
                (
                    BleLinkState { phase: BlePhase::Stopped, ..self },
                    BleNotice::Error(BleError::NoAdapter),
                )
            } else {
                (BleLinkState { phase: BlePhase::StartingScan, ..self }, BleNotice::Nothing)
            },
            (BlePhase::StartingScan, BleEvent::ScanStarted) => (
                BleLinkState { phase: BlePhase::Waiting, ..self },
                BleNotice::Nothing,
            ),
            (BlePhase::StartingScan, BleEvent::Failed(detail)) => if is_scan_running_text(
                detail@,
            ) {
                (BleLinkState { phase: BlePhase::Waiting, ..self }, BleNotice::Nothing)
            } else {
                (
                    BleLinkState { phase: BlePhase::Stopped, ..self },
                    BleNotice::Error(BleError::ScanStart(detail)),
                )
            },
            (BlePhase::Waiting, BleEvent::WaitElapsed) => (
                BleLinkState {
                    phase: BlePhase::Listing,
                    scan_count: if self.scan_count < u64::MAX {
                        self.scan_count + 1
                    } else {
                        self.scan_count
                    },
                    ..self
                },
                BleNotice::Nothing,
            ),
            (BlePhase::Listing, BleEvent::Failed(detail)) => (
                BleLinkState { phase: BlePhase::Waiting, ..self },
                BleNotice::Error(BleError::PeripheralDiscovery(detail)),
            ),
            (BlePhase::Listing, BleEvent::PeripheralsListed(names)) => (
                BleLinkState { candidates: beacon_indices(names@), cursor: 0, ..self }.settle(),
                BleNotice::Nothing,
            ),
            (BlePhase::Connecting, BleEvent::Connected) => (
                BleLinkState { phase: BlePhase::Discovering, ..self },
                BleNotice::Nothing,
            ),
            (BlePhase::Connecting, BleEvent::Failed(detail)) => (
                self.abandon(),
                BleNotice::Error(BleError::Connection(detail)),
            ),
            (BlePhase::Discovering, BleEvent::ServicesDiscovered(services)) => {
                match find_data_source(services@) {
                    Some((service, characteristic)) => (
                        BleLinkState {
                            phase: BlePhase::Subscribing,
                            service: service as nat,
                            characteristic: characteristic as nat,
                            ..self
                        },
                        BleNotice::Nothing,
                    ),
                    None => (
                        self.abandon(),
                        BleNotice::Error(BleError::CharacteristicNotFound),
                    ),
                }
            },
            (BlePhase::Discovering, BleEvent::Failed(detail)) => (
                self.abandon(),
                BleNotice::Error(BleError::ServiceDiscovery(detail)),
            ),
            (BlePhase::Subscribing, BleEvent::Subscribed) => (
                BleLinkState { phase: BlePhase::OpeningStream, ..self },
                BleNotice::Nothing,
            ),
            (BlePhase::Subscribing, BleEvent::Failed(detail)) => (
                self.abandon(),
                BleNotice::Error(BleError::Subscription(detail)),
            ),
            (BlePhase::OpeningStream, BleEvent::NotificationsOpened) => (
                BleLinkState { phase: BlePhase::Streaming, connected: true, ..self },
                BleNotice::Nothing,
            ),
            (BlePhase::OpeningStream, BleEvent::Failed(detail)) => (
                self.abandon(),
                BleNotice::Error(BleError::NotificationSetup(detail)),
            ),
            (BlePhase::Streaming, BleEvent::Notification(payload)) => (
                self,
                match decode_packet(payload@) {
                    Some(sample) => BleNotice::Sample(sample),
                    None => BleNotice::Malformed,
                },
            ),
            (BlePhase::Streaming, BleEvent::StreamEnded) => (self.abandon(), BleNotice::Nothing),
            _ => (self, BleNotice::Nothing),
        }
    }
}

impl View for BleLink {
    type V = BleLinkState;

    closed spec fn view(&self) -> BleLinkState {
        BleLinkState {
            phase: self.phase,
            scan_count: self.scan_count as nat,
            candidates: self.candidates@,
            cursor: self.cursor as nat,
            peripheral: self.peripheral as nat,
            service: self.service as nat,
            characteristic: self.characteristic as nat,
            connected: self.connected,
        }
    }
}

/// Picks the beacons out of a list of advertised names.
pub fn collect_beacons(names: &Vec<Option<String>>) -> (found: Vec<usize>)
    ensures
        found@ == beacon_indices(names@),
{
    let mut found: Vec<usize> = Vec::new();
    let mut at: usize = 0;
    while at < names.len()
        invariant
            at <= names@.len(),
            found@ == beacon_indices(names@.take(at as int)),
        decreases names@.len() - at,
    {
        proof {
            let next = names@.take(at as int + 1);
            assert(next.drop_last() =~= names@.take(at as int));
            assert(next.last() == names@[at as int]);
        }
        let beacon = match &names[at] {
            Some(name) => is_beacon(name.as_str()),
            None => false,
        };
        if beacon {
            found.push(at);
        }
        at = at + 1;
    }
    proof {
        assert(names@.take(names@.len() as int) =~= names@);
    }
    found
}

/// Looks for a UUID in a list.
pub fn locate_uuid(uuids: &Vec<u128>, uuid: u128) -> (place: Option<usize>)
    ensures
        place == find_uuid(uuids@, uuid, 0),
        place matches Some(at) ==> at < uuids@.len() && uuids@[at as int] == uuid,
{
    let mut at: usize = 0;
    while at < uuids.len()
        invariant
            at <= uuids@.len(),
            find_uuid(uuids@, uuid, at as int) == find_uuid(uuids@, uuid, 0),
        decreases uuids@.len() - at,
    {
        if uuids[at] == uuid {
            return Some(at);
        }
        at = at + 1;
    }
    None
}

/// Looks for a service by its UUID.
pub fn locate_service(services: &Vec<GattService>, uuid: u128) -> (place: Option<usize>)
    ensures
        place == find_service(services@, uuid, 0),
        place matches Some(at) ==> at < services@.len() && services@[at as int].uuid == uuid,
{
    let mut at: usize = 0;
    while at < services.len()
        invariant
            at <= services@.len(),
            find_service(services@, uuid, at as int) == find_service(services@, uuid, 0),
        decreases services@.len() - at,
    {
        if services[at].uuid == uuid {
            return Some(at);
        }
        at = at + 1;
    }
    None
}

/// Looks for the beacon's data source among the services of a device.
pub fn locate_data_source(services: &Vec<GattService>) -> (place: Option<(usize, usize)>)
    ensures
        place == find_data_source(services@),
{
    match locate_service(services, UART_SERVICE_UUID) {
        Some(service) => match locate_uuid(&services[service].characteristics, TX_CHAR_UUID) {
            Some(characteristic) => Some((service, characteristic)),
            None => None,
        },
        None => None,
    }
}

impl BleLink {
    /// A link that has not been started.
    pub fn new() -> (link: Self)
        ensures
            link@ == BleLinkState::initial(),
    {
        BleLink {
            phase: BlePhase::Stopped,
            scan_count: 0,
            candidates: Vec::new(),
            cursor: 0,
            peripheral: 0,
            service: 0,
            characteristic: 0,
            connected: false,
        }
    }

    /// The operation the link is waiting on.
    pub fn phase(&self) -> (phase: BlePhase)
        ensures
            phase == self@.phase,
    {
        self.phase
    }

    /// The stage the link is in.
    pub fn state(&self) -> (state: BleState)
        ensures
            state == self@.phase.stage(),
    {
        match self.phase {
            BlePhase::Stopped => BleState::Idle,
            BlePhase::OpeningAdapter => BleState::Scanning,
            BlePhase::StartingScan => BleState::Scanning,
            BlePhase::Waiting => BleState::Scanning,
            BlePhase::Listing => BleState::Scanning,
            BlePhase::Connecting => BleState::Connecting,
            BlePhase::Discovering => BleState::ServiceDiscovery,
            BlePhase::Subscribing => BleState::Subscribing,
            BlePhase::OpeningStream => BleState::Subscribing,
            BlePhase::Streaming => BleState::Streaming,
        }
    }

    /// How many looks at the visible devices have been made.
    pub fn scan_count(&self) -> (count: u64)
        ensures
            count == self@.scan_count,
    {
        self.scan_count
    }

    /// The operation to perform next.
    pub fn command(&self) -> (command: BleCommand)
        ensures
            command == self@.command(),
    {
        match self.phase {
            BlePhase::Stopped => BleCommand::Halt,
            BlePhase::OpeningAdapter => BleCommand::OpenAdapter,
            BlePhase::StartingScan => BleCommand::StartScan,
            BlePhase::Waiting => BleCommand::Wait(scan_delay_ms(self.scan_count)),
            BlePhase::Listing => BleCommand::ListPeripherals,
            BlePhase::Connecting => BleCommand::Connect(self.peripheral),
            BlePhase::Discovering => BleCommand::DiscoverServices(self.peripheral),
            BlePhase::Subscribing => BleCommand::Subscribe {
                peripheral: self.peripheral,
                service: self.service,
                characteristic: self.characteristic,
            },
            BlePhase::OpeningStream => BleCommand::OpenNotifications(self.peripheral),
            BlePhase::Streaming => BleCommand::NextNotification(self.peripheral),
        }
    }

    fn settle(&mut self)
        ensures
            final(self)@ == old(self)@.settle(),
    {
        if self.cursor < self.candidates.len() {
            self.phase = BlePhase::Connecting;
            self.peripheral = self.candidates[self.cursor];
        } else if self.connected {
            self.phase = BlePhase::Stopped;
        } else {
            self.phase = BlePhase::Waiting;
        }
    }

    fn abandon(&mut self)
        ensures
            final(self)@ == old(self)@.abandon(),
    {
        if self.cursor < self.candidates.len() {
            self.cursor = self.cursor + 1;
        }
        self.settle();
    }

    /// Takes the outcome of the last operation, moves to the next state and
    /// says what is to be passed on.
    pub fn handle(&mut self, event: BleEvent) -> (notice: BleNotice)
        ensures
            final(self)@ == old(self)@.step(event).0,
            notice == old(self)@.step(event).1,
    {
        match (self.phase, event) {
            (BlePhase::Stopped, BleEvent::Start) => {
                self.phase = BlePhase::OpeningAdapter;
                self.scan_count = 0;
                self.candidates = Vec::new();
                self.cursor = 0;
                self.peripheral = 0;
                self.service = 0;
                self.characteristic = 0;
                self.connected = false;
                BleNotice::Nothing
            },
            (BlePhase::OpeningAdapter, BleEvent::Failed(detail)) => {
                self.phase = BlePhase::Stopped;
                BleNotice::Error(BleError::ManagerCreation(detail))
            },
            (BlePhase::OpeningAdapter, BleEvent::AdaptersListed(count)) => {
                if count == 0 {
                    self.phase = BlePhase::Stopped;
                    BleNotice::Error(BleError::NoAdapter)
                } else {
                    self.phase = BlePhase::StartingScan;
                    BleNotice::Nothing
                }
            },
            (BlePhase::StartingScan, BleEvent::ScanStarted) => {
                self.phase = BlePhase::Waiting;
                BleNotice::Nothing
            },
            (BlePhase::StartingScan, BleEvent::Failed(detail)) => {
                if is_scan_running(detail.as_str()) {
                    self.phase = BlePhase::Waiting;
                    BleNotice::Nothing
                } else {
                    self.phase = BlePhase::Stopped;
                    BleNotice::Error(BleError::ScanStart(detail))
                }
            },
            (BlePhase::Waiting, BleEvent::WaitElapsed) => {
                self.phase = BlePhase::Listing;
                if self.scan_count < u64::MAX {
                    self.scan_count = self.scan_count + 1;
                }
                BleNotice::Nothing
            },
            (BlePhase::Listing, BleEvent::Failed(detail)) => {
                self.phase = BlePhase::Waiting;
                BleNotice::Error(BleError::PeripheralDiscovery(detail))
            },
            (BlePhase::Listing, BleEvent::PeripheralsListed(names)) => {
                self.candidates = collect_beacons(&names);
                self.cursor = 0;
                self.settle();
                BleNotice::Nothing
            },
            (BlePhase::Connecting, BleEvent::Connected) => {
                self.phase = BlePhase::Discovering;
                BleNotice::Nothing
            },
            (BlePhase::Connecting, BleEvent::Failed(detail)) => {
                self.abandon();
                BleNotice::Error(BleError::Connection(detail))
            },
            (BlePhase::Discovering, BleEvent::ServicesDiscovered(services)) => {
                match locate_data_source(&services) {
                    Some((service, characteristic)) => {
                        self.phase = BlePhase::Subscribing;
                        self.service = service;
                        self.characteristic = characteristic;
                        BleNotice::Nothing
                    },
                    None => {
                        self.abandon();
                        BleNotice::Error(BleError::CharacteristicNotFound)
                    },
                }
            },
            (BlePhase::Discovering, BleEvent::Failed(detail)) => {
                self.abandon();
                BleNotice::Error(BleError::ServiceDiscovery(detail))
            },
            (BlePhase::Subscribing, BleEvent::Subscribed) => {
                self.phase = BlePhase::OpeningStream;
                BleNotice::Nothing
            },
            (BlePhase::Subscribing, BleEvent::Failed(detail)) => {
                self.abandon();
                BleNotice::Error(BleError::Subscription(detail))
            },
            (BlePhase::OpeningStream, BleEvent::NotificationsOpened) => {
                self.phase = BlePhase::Streaming;
                self.connected = true;
                BleNotice::Nothing
            },
            (BlePhase::OpeningStream, BleEvent::Failed(detail)) => {
                self.abandon();
                BleNotice::Error(BleError::NotificationSetup(detail))
            },
            (BlePhase::Streaming, BleEvent::Notification(payload)) => {
                match parse_packet(payload.as_slice()) {
                    Some(sample) => BleNotice::Sample(sample),
                    None => BleNotice::Malformed,
                }
            },
            (BlePhase::Streaming, BleEvent::StreamEnded) => {
                self.abandon();
                BleNotice::Nothing
            },
            _ => BleNotice::Nothing,
        }
    }
}

/// The candidates of a listing are exactly its beacons: each one is the
/// place of a device whose name is a beacon's, they stand in rising order,
/// and no beacon of the listing is left out.
pub proof fn lemma_beacon_indices(names: Seq<Option<String>>)
    requires
        names.len() <= usize::MAX,
    ensures
        forall|k: int|
            0 <= k < beacon_indices(names).len() ==> {
                let place = #[trigger] beacon_indices(names)[k];
                &&& place < names.len()
                &&& names[place as int] matches Some(name) && is_beacon_name(name@)
            },
        forall|k: int, l: int|
            0 <= k < l < beacon_indices(names).len() ==> beacon_indices(names)[k]
                < beacon_indices(names)[l],
        forall|place: int|
            0 <= place < names.len() && place <= usize::MAX && (
            #[trigger] names[place] matches Some(name) && is_beacon_name(name@))
                ==> beacon_indices(names).contains(place as usize),
        beacon_indices(names).len() <= names.len(),
    decreases names.len(),
{
    if names.len() > 0 {
        let shorter = names.drop_last();
        let before = beacon_indices(shorter);
        let found = beacon_indices(names);
        lemma_beacon_indices(shorter);
        assert forall|k: int| 0 <= k < found.len() implies {
            let place = #[trigger] found[k];
            &&& place < names.len()
            &&& names[place as int] matches Some(name) && is_beacon_name(name@)
        } by {
            if k < before.len() {
                assert(found[k] == before[k]);
                assert(before[k] < shorter.len());
                assert(shorter[before[k] as int] == names[before[k] as int]);
            } else {
                assert(found[k] == (names.len() - 1) as usize);
            }
        }
        assert forall|k: int, l: int| 0 <= k < l < found.len() implies found[k] < found[l] by {
            assert(found[k] == before[k]);
            assert(before[k] < shorter.len());
            if l < before.len() {
                assert(found[l] == before[l]);
            } else {
                assert(found[l] == (names.len() - 1) as usize);
            }
        }
        assert forall|place: int|
            0 <= place < names.len() && place <= usize::MAX && (
            #[trigger] names[place] matches Some(name) && is_beacon_name(
                name@,
            )) implies found.contains(place as usize) by {
            if place < shorter.len() {
                assert(shorter[place] == names[place]);
                assert(before.contains(place as usize));
                let k = choose|k: int| 0 <= k < before.len() && before[k] == place as usize;
                assert(found[k] == place as usize);
            } else {
                assert(found[found.len() - 1] == place as usize);
            }
        }
    }
}

/// A UUID is found at the first place at which it stands, and is not found
/// only where it stands nowhere.
pub proof fn lemma_find_uuid(uuids: Seq<u128>, uuid: u128, from: int)
    requires
        0 <= from,
        uuids.len() <= usize::MAX,
    ensures
        match find_uuid(uuids, uuid, from) {
            Some(place) => {
                &&& from <= place < uuids.len()
                &&& uuids[place as int] == uuid
                &&& forall|j: int| from <= j < place ==> uuids[j] != uuid
            },
            None => forall|j: int| from <= j < uuids.len() ==> uuids[j] != uuid,
        },
    decreases uuids.len() - from,
{
    if from < uuids.len() && uuids[from] != uuid {
        lemma_find_uuid(uuids, uuid, from + 1);
    }
}

/// A service is found at the first place at which one with its UUID stands,
/// and is not found only where none stands.
pub proof fn lemma_find_service(services: Seq<GattService>, uuid: u128, from: int)
    requires
        0 <= from,
        services.len() <= usize::MAX,
    ensures
        match find_service(services, uuid, from) {
            Some(place) => {
                &&& from <= place < services.len()
                &&& services[place as int].uuid == uuid
                &&& forall|j: int| from <= j < place ==> services[j].uuid != uuid
            },
            None => forall|j: int| from <= j < services.len() ==> services[j].uuid != uuid,
        },
    decreases services.len() - from,
{
    if from < services.len() && services[from].uuid != uuid {
        lemma_find_service(services, uuid, from + 1);
    }
}

impl BleLinkState {
    /// While the link works on a beacon, that beacon is the candidate under
    /// the cursor.
    pub open spec fn on_candidate(self) -> bool {
        self.phase.on_beacon() ==> self.cursor < self.candidates.len() && self.peripheral
            == self.candidates[self.cursor as int]
    }
}

/// From the start on, the link only ever works on a candidate of the last
/// listing.
pub proof fn lemma_link_works_on_candidates(state: BleLinkState, event: BleEvent)
    requires
        state.on_candidate(),
    ensures
        BleLinkState::initial().on_candidate(),
        state.step(event).0.on_candidate(),
{
}

/// A failure while the link works on a beacon is passed on as an error and
/// does not end the link: it goes on with the next candidate, or back to
/// pausing and looking when none is left. Only after a stream has been open
/// does the link stop when the candidates are used up.
pub proof fn lemma_failure_goes_on(state: BleLinkState, detail: String)
    requires
        state.phase.on_beacon(),
        state.phase != BlePhase::Streaming,
    ensures
        state.step(BleEvent::Failed(detail)).1 is Error,
        ({
            let next = state.step(BleEvent::Failed(detail)).0;
            ||| next.phase == BlePhase::Connecting
            ||| next.phase == BlePhase::Waiting && !state.connected
            ||| next.phase == BlePhase::Stopped && state.connected
        }),
{
}

/// A payload that is no data packet is dropped and changes nothing: the
/// link goes on listening.
pub proof fn lemma_streaming_survives_payloads(state: BleLinkState, payload: Vec<u8>)
    requires
        state.phase == BlePhase::Streaming,
    ensures
        state.step(BleEvent::Notification(payload)).0 == state,
        decode_packet(payload@) is None ==> state.step(BleEvent::Notification(payload)).1
            == BleNotice::Malformed,
        decode_packet(payload@) matches Some(sample) ==> state.step(
            BleEvent::Notification(payload),
        ).1 == BleNotice::Sample(sample),
{
}

/// The pauses between looks never get shorter, and are one of the three
/// fixed lengths.
pub proof fn lemma_scan_delay_grows(earlier: nat, later: nat)
    requires
        earlier <= later,
    ensures
        scan_delay(earlier) <= scan_delay(later),
        scan_delay(earlier) == 1_000 || scan_delay(earlier) == 3_000 || scan_delay(earlier)
            == 10_000,
{
}

} // verus!

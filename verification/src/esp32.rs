//! The serial feed: framing, frame decoding and the link's retry policy.
//!
//! The link owns no device. It says which operation comes next
//! ([`ESP32Connection::command`]), is told how that operation went and at
//! what time ([`ESP32Connection::handle`]), and answers with the sample to
//! publish and the error to record, if any. Time is a count of milliseconds
//! that never runs backwards.

pub mod crc;
pub mod frame;
pub mod encode;

use crate::bytes::u16_from_be;
use crate::esp32::crc::crc16_ccitt;
use crate::esp32::frame::{decode_frame, store_tlv, walk_tlvs, FrameError, FRAME_END,
    FRAME_OVERHEAD, FRAME_START, MIN_FRAME_LEN, TLV_START};
use crate::telemetry::ESP32Data;
use vstd::prelude::*;
use vstd::slice::slice_subrange;

verus! {

/// Speed of the serial line, in bits per second.
pub const UART_BAUD_RATE: u32 = 115200;

/// Data bits in a character on the line.
pub const UART_DATA_BITS: u8 = 8;

/// Stop bits after a character on the line.
pub const UART_STOP_BITS: u8 = 1;

/// The serial device.
pub const UART_DEVICE: &'static str = "/dev/ttyS0";

/// How long one read of a byte may take, in milliseconds.
pub const READ_TIMEOUT_MS: u64 = 1000;

/// After this many milliseconds without a publication the last good sample
/// is published again.
pub const VALUE_RETENTION_MS: u64 = 500;

/// The pause between a failure of the device and the next attempt to open
/// it, in milliseconds. It does not grow.
pub const RECONNECT_DELAY_MS: u64 = 1000;

/// The parity bit of a character on the line.
#[derive(Debug, Clone, Copy, PartialEq, Eq, Structural)]
pub enum Parity {
    /// No parity bit is sent.
    Off,
    Odd,
    Even,
}

/// How the serial device is opened.
#[derive(Debug, Clone, Copy, PartialEq, Eq)]
pub struct SerialSettings {
    pub device: &'static str,
    pub baud_rate: u32,
    pub data_bits: u8,
    pub parity: Parity,
    pub stop_bits: u8,
    /// The longest that one read of a byte may take, in milliseconds.
    pub read_timeout_ms: u64,
}

impl SerialSettings {
    /// The one set-up the link uses: 115200 baud, eight data bits, no
    /// parity, one stop bit, and a second for each read.
    pub open spec fn fixed() -> SerialSettings {
        SerialSettings {
            device: UART_DEVICE,
            baud_rate: UART_BAUD_RATE,
            data_bits: UART_DATA_BITS,
            parity: Parity::Off,
            stop_bits: UART_STOP_BITS,
            read_timeout_ms: READ_TIMEOUT_MS,
        }
    }
}

/// The operation the link is waiting on.
#[derive(Debug, Clone, Copy, PartialEq, Eq, Structural)]
pub enum SerialPhase {
    /// The device is to be opened.
    Closed,
    /// The device is open and a byte is awaited.
    Reading,
    /// The device failed; the link pauses before it opens it again.
    Backoff,
}

/// How the last operation went.
#[derive(Debug, Clone, PartialEq, Eq)]
pub enum SerialEvent {
    /// The device is open.
    Opened,
    /// The device could not be opened.
    OpenFailed(String),
    /// A byte was read.
    Byte(u8),
    /// The read failed.
    ReadFailed(String),
    /// The pause is over.
    WaitElapsed,
}

/// The operation to perform next.
#[derive(Debug, Clone, Copy, PartialEq, Eq, Structural)]
pub enum SerialCommand {
    /// Open the device, set up as [`ESP32Connection::settings`] says.
    Open,
    /// Read one byte.
    ReadByte,
    /// Pause for so many milliseconds.
    Wait(u64),
}

/// A sample to write into the shared snapshot.
#[derive(Debug, Clone, Copy, PartialEq, Eq)]
pub enum Publication {
    /// A sample decoded just now.
    Fresh(ESP32Data),
    /// The last good sample, sent again because nothing new came within the
    /// retention window. It is written only if the snapshot is free.
    Retained(ESP32Data),
}

impl Publication {
    /// The sample that is published.
    pub open spec fn data(self) -> ESP32Data {
        match self {
            Publication::Fresh(data) => data,
            Publication::Retained(data) => data,
        }
    }

    /// Whether the sample was decoded just now.
    pub open spec fn is_fresh(self) -> bool {
        self is Fresh
    }
}

/// What the link passes on after an event.
#[derive(Debug, Clone, PartialEq, Eq)]
pub struct SerialOutcome {
    /// The sample to publish, if any.
    pub publication: Option<Publication>,
    /// The message of a device failure to record, if any.
    pub error: Option<String>,
}

/// The link's state as a mathematical value.
pub struct SerialLinkState {
    pub phase: SerialPhase,
    /// The bytes of the frame that is being received; empty between frames.
    pub buffer: Seq<u8>,
    /// When the last good frame was decoded.
    pub last_update: nat,
    /// When a sample was last handed out.
    pub last_publish: nat,
    /// The last good sample.
    pub last_values: ESP32Data,
}

/// The serial link.
pub struct ESP32Connection {
    phase: SerialPhase,
    frame_buffer: Vec<u8>,
    last_update: u64,
    last_publish: u64,
    last_values: ESP32Data,
}

/// The frame buffer after one more byte, and the sample that the byte
/// completed, if any. A start byte always begins a new frame and drops what
/// was there. Outside a frame other bytes are ignored. Inside a frame a byte
/// is appended; an end byte that brings the buffer to `MIN_FRAME_LEN` bytes
/// or more closes the frame, which is decoded and dropped whether or not it
/// was good.
pub open spec fn feed(buffer: Seq<u8>, byte: u8) -> (Seq<u8>, Option<ESP32Data>) {
    if byte == FRAME_START {
        (seq![byte], None)
    } else if buffer.len() == 0 {
        (buffer, None)
    } else if byte == FRAME_END && buffer.len() + 1 >= MIN_FRAME_LEN {
        (
            Seq::empty(),
            match decode_frame(buffer.push(byte)) {
                Ok(data) => Some(data),
                Err(_) => None,
            },
        )
    } else {
        (buffer.push(byte), None)
    }
}

impl SerialLinkState {
    /// The state of a link made at time `now`.
    pub open spec fn initial(now: nat) -> SerialLinkState {
        SerialLinkState {
            phase: SerialPhase::Closed,
            buffer: Seq::empty(),
            last_update: now,
            last_publish: now,
            last_values: ESP32Data::unset(),
        }
    }

    /// The operation that a state waits on.
    pub open spec fn command(self) -> SerialCommand {
        match self.phase {
            SerialPhase::Closed => SerialCommand::Open,
            SerialPhase::Reading => SerialCommand::ReadByte,
            SerialPhase::Backoff => SerialCommand::Wait(RECONNECT_DELAY_MS),
        }
    }

    /// Whether, at time `now`, the retention window has passed since the
    /// last publication.
    pub open spec fn retention_due(self, now: nat) -> bool {
        now - self.last_publish >= VALUE_RETENTION_MS
    }

    /// The state after an event alone, the sample it completed and the
    /// failure it reported. A failure of the device leads to the pause and
    /// from there to a new attempt to open it, without end. An event that
    /// does not answer the operation the state waits on changes nothing.
    pub open spec fn receive(self, event: SerialEvent, now: nat) -> (
        SerialLinkState,
        Option<ESP32Data>,
        Option<String>,
    ) {
        match (self.phase, event) {
            (SerialPhase::Closed, SerialEvent::Opened) => (
                SerialLinkState { phase: SerialPhase::Reading, ..self },
                None,
                None,
            ),
            (SerialPhase::Closed, SerialEvent::OpenFailed(detail)) => (
                SerialLinkState { phase: SerialPhase::Backoff, ..self },
                None,
                Some(detail),
            ),
            (SerialPhase::Reading, SerialEvent::Byte(byte)) => {
                let (buffer, sample) = feed(self.buffer, byte);
                match sample {
                    Some(data) => (
                        SerialLinkState {
                            buffer,
                            last_update: now,
                            last_publish: now,
                            last_values: data,
                            ..self
                        },
                        sample,
                        None,
                    ),
                    None => (SerialLinkState { buffer, ..self }, None, None),
                }
            },
            (SerialPhase::Reading, SerialEvent::ReadFailed(detail)) => (
                SerialLinkState { phase: SerialPhase::Backoff, ..self },
                None,
                Some(detail),
            ),
            (SerialPhase::Backoff, SerialEvent::WaitElapsed) => (
                SerialLinkState { phase: SerialPhase::Closed, ..self },
                None,
                None,
            ),
            _ => (self, None, None),
        }
    }

    /// The state after an event at time `now`, and what is passed on. A
    /// sample that the event completed is published as fresh. Otherwise,
    /// once the retention window has passed, the last good sample is
    /// published again and the window starts anew.
    pub open spec fn step(self, event: SerialEvent, now: nat) -> (SerialLinkState, SerialOutcome) {
        let (next, sample, error) = self.receive(event, now);
        match sample {
            Some(data) => (
                next,
                SerialOutcome { publication: Some(Publication::Fresh(data)), error },
            ),
            None => if next.retention_due(now) {
                (
                    SerialLinkState { last_publish: now, ..next },
                    SerialOutcome {
                        publication: Some(Publication::Retained(next.last_values)),
                        error,
                    },
                )
            } else {
                (next, SerialOutcome { publication: None, error })
            },
        }
    }
}

impl View for ESP32Connection {
    type V = SerialLinkState;

    closed spec fn view(&self) -> SerialLinkState {
        SerialLinkState {
            phase: self.phase,
            buffer: self.frame_buffer@,
            last_update: self.last_update as nat,
            last_publish: self.last_publish as nat,
            last_values: self.last_values,
        }
    }
}

impl ESP32Connection {
    /// A link made at time `now_ms`, with the device still to be opened.
    pub fn new(now_ms: u64) -> (link: Self)
        ensures
            link@ == SerialLinkState::initial(now_ms as nat),
    {
        ESP32Connection {
            phase: SerialPhase::Closed,
            frame_buffer: Vec::new(),
            last_update: now_ms,
            last_publish: now_ms,
            last_values: ESP32Data::default(),
        }
    }

    /// How the device is to be opened.
    pub fn settings() -> (settings: SerialSettings)
        ensures
            settings == SerialSettings::fixed(),
    {
        SerialSettings {
            device: UART_DEVICE,
            baud_rate: UART_BAUD_RATE,
            data_bits: UART_DATA_BITS,
            parity: Parity::Off,
            stop_bits: UART_STOP_BITS,
            read_timeout_ms: READ_TIMEOUT_MS,
        }
    }

    /// The operation the link is waiting on.
    pub fn phase(&self) -> (phase: SerialPhase)
        ensures
            phase == self@.phase,
    {
        self.phase
    }

    /// The last good sample.
    pub fn last_values(&self) -> (data: ESP32Data)
        ensures
            data == self@.last_values,
    {
        self.last_values
    }

    /// When the last good frame was decoded.
    pub fn last_update(&self) -> (at_ms: u64)
        ensures
            at_ms == self@.last_update,
    {
        self.last_update
    }

    /// The operation to perform next.
    pub fn command(&self) -> (command: SerialCommand)
        ensures
            command == self@.command(),
    {
        match self.phase {
            SerialPhase::Closed => SerialCommand::Open,
            SerialPhase::Reading => SerialCommand::ReadByte,
            SerialPhase::Backoff => SerialCommand::Wait(RECONNECT_DELAY_MS),
        }
    }

    /// Checks a buffer as a frame and decodes its fields.
    pub fn parse_frame(frame: &[u8]) -> (result: Result<ESP32Data, FrameError>)
        ensures
            result == decode_frame(frame@),
    {
        let len = frame.len();
        if len < MIN_FRAME_LEN {
            return Err(FrameError::TooShort);
        }
        if len - FRAME_OVERHEAD != frame[1] as usize {
            return Err(FrameError::LengthMismatch);
        }
        let end = len - 3;
        let sent = u16_from_be(frame[end], frame[end + 1]);
        let computed = crc16_ccitt(slice_subrange(frame, 2, end));
        if sent != computed {
            return Err(FrameError::CrcMismatch);
        }
        if frame[end + 2] != FRAME_END {
            return Err(FrameError::MissingEnd);
        }
        let mut data = ESP32Data::default();
        let mut pos: usize = TLV_START;
        while pos < end
            invariant
                TLV_START <= pos <= end + 0x100,
                end == frame@.len() - 3,
                frame@.len() <= 260,
                walk_tlvs(frame@, pos as int, end as int, data) == walk_tlvs(
                    frame@,
                    TLV_START as int,
                    end as int,
                    ESP32Data::unset(),
                ),
            decreases end + 0x100 - pos,
        {
            let tag = frame[pos];
            let skip = frame[pos + 1] as usize;
            store_tlv(&mut data, tag, frame[pos + 2], frame[pos + 3]);
            pos = pos + 2 + skip;
        }
        Ok(data)
    }

    /// Takes one byte of the stream into the frame buffer and hands out the
    /// sample that it completed, if any.
    fn push_byte(&mut self, byte: u8) -> (sample: Option<ESP32Data>)
        ensures
            final(self)@.buffer == feed(old(self)@.buffer, byte).0,
            sample == feed(old(self)@.buffer, byte).1,
            final(self)@.phase == old(self)@.phase,
            final(self)@.last_update == old(self)@.last_update,
            final(self)@.last_publish == old(self)@.last_publish,
            final(self)@.last_values == old(self)@.last_values,
    {
        if byte == FRAME_START {
            self.frame_buffer.clear();
            self.frame_buffer.push(byte);
            assert(self.frame_buffer@ =~= seq![byte]);
            None
        } else if self.frame_buffer.len() == 0 {
            None
        } else {
            self.frame_buffer.push(byte);
            if byte == FRAME_END && self.frame_buffer.len() >= MIN_FRAME_LEN {
                let decoded = Self::parse_frame(self.frame_buffer.as_slice());
                self.frame_buffer.clear();
                match decoded {
                    Ok(data) => Some(data),
                    Err(_) => None,
                }
            } else {
                None
            }
        }
    }

    /// Takes the outcome of the last operation at time `now_ms`, moves to
    /// the next state and says what is to be passed on.
    pub fn handle(&mut self, event: SerialEvent, now_ms: u64) -> (outcome: SerialOutcome)
        ensures
            final(self)@ == old(self)@.step(event, now_ms as nat).0,
            outcome == old(self)@.step(event, now_ms as nat).1,
    {
        let mut sample: Option<ESP32Data> = None;
        let mut error: Option<String> = None;
        match (self.phase, event) {
            (SerialPhase::Closed, SerialEvent::Opened) => {
                self.phase = SerialPhase::Reading;
            },
            (SerialPhase::Closed, SerialEvent::OpenFailed(detail)) => {
                self.phase = SerialPhase::Backoff;
                error = Some(detail);
            },
            (SerialPhase::Reading, SerialEvent::Byte(byte)) => {
                sample = self.push_byte(byte);
                if let Some(data) = sample {
                    self.last_update = now_ms;
                    self.last_publish = now_ms;
                    self.last_values = data;
                }
            },
            (SerialPhase::Reading, SerialEvent::ReadFailed(detail)) => {
                self.phase = SerialPhase::Backoff;
                error = Some(detail);
            },
            (SerialPhase::Backoff, SerialEvent::WaitElapsed) => {
                self.phase = SerialPhase::Closed;
            },
            _ => {},
        }
        assert(self@ == old(self)@.receive(event, now_ms as nat).0);
        let publication = match sample {
            Some(data) => Some(Publication::Fresh(data)),
            None => if now_ms >= self.last_publish && now_ms - self.last_publish
                >= VALUE_RETENTION_MS {
                self.last_publish = now_ms;
                Some(Publication::Retained(self.last_values))
            } else {
                None
            },
        };
        SerialOutcome { publication, error }
    }
}

/// The frame buffer after all of `bytes`, and the samples completed on the
/// way, in the order they came.
pub open spec fn feed_all(buffer: Seq<u8>, bytes: Seq<u8>) -> (Seq<u8>, Seq<ESP32Data>)
    decreases bytes.len(),
{
    if bytes.len() == 0 {
        (buffer, Seq::empty())
    } else {
        let (before, samples) = feed_all(buffer, bytes.drop_last());
        let (after, sample) = feed(before, bytes.last());
        (
            after,
            match sample {
                Some(data) => samples.push(data),
                None => samples,
            },
        )
    }
}

/// Whether a frame passes through the byte stream whole: it begins with the
/// start byte, holds no other start byte, and holds no end byte that would
/// close it before its last byte.
pub open spec fn is_transparent(frame: Seq<u8>) -> bool {
    &&& frame.len() >= MIN_FRAME_LEN
    &&& frame[0] == FRAME_START
    &&& forall|i: int| 1 <= i < frame.len() ==> frame[i] != FRAME_START
    &&& forall|i: int| MIN_FRAME_LEN - 1 <= i < frame.len() - 1 ==> frame[i] != FRAME_END
}

/// Feeding bytes in two parts gives what feeding them at once gives.
pub proof fn lemma_feed_in_parts(buffer: Seq<u8>, first: Seq<u8>, second: Seq<u8>)
    ensures
        feed_all(buffer, first + second) == ({
            let (between, early) = feed_all(buffer, first);
            let (after, late) = feed_all(between, second);
            (after, early + late)
        }),
    decreases second.len(),
{
    let (between, early) = feed_all(buffer, first);
    if second.len() == 0 {
        assert(first + second =~= first);
        assert(early + Seq::<ESP32Data>::empty() =~= early);
    } else {
        let bytes = first + second;
        assert(bytes.drop_last() =~= first + second.drop_last());
        assert(bytes.last() == second.last());
        lemma_feed_in_parts(buffer, first, second.drop_last());
        let (before, late) = feed_all(between, second.drop_last());
        let sample = feed(before, second.last()).1;
        match sample {
            Some(data) => {
                assert((early + late).push(data) =~= early + late.push(data));
            },
            None => {},
        }
    }
}

/// The first `count` bytes of a frame are gathered in the buffer, whatever
/// it held, as long as no start byte stands among them but the first and no
/// end byte closes the frame among them.
proof fn lemma_stream_collects_frame(buffer: Seq<u8>, frame: Seq<u8>, count: int)
    requires
        1 <= count <= frame.len(),
        frame[0] == FRAME_START,
        forall|i: int| 1 <= i < count ==> frame[i] != FRAME_START,
        forall|i: int| MIN_FRAME_LEN - 1 <= i < count ==> frame[i] != FRAME_END,
    ensures
        feed_all(buffer, frame.take(count)) == (frame.take(count), Seq::<ESP32Data>::empty()),
    decreases count,
{
    let bytes = frame.take(count);
    assert(bytes.last() == frame[count - 1]);
    assert(bytes.drop_last() =~= frame.take(count - 1));
    if count == 1 {
        assert(feed_all(buffer, frame.take(0)) == (buffer, Seq::<ESP32Data>::empty()));
        assert(seq![frame[0]] =~= frame.take(1));
    } else {
        lemma_stream_collects_frame(buffer, frame, count - 1);
        assert(frame.take(count - 1).push(frame[count - 1]) =~= frame.take(count));
    }
}

/// Between frames, bytes other than the start byte are passed over.
proof fn lemma_stream_passes_over(bytes: Seq<u8>)
    requires
        forall|i: int| 0 <= i < bytes.len() ==> bytes[i] != FRAME_START,
    ensures
        feed_all(Seq::empty(), bytes) == (Seq::<u8>::empty(), Seq::<ESP32Data>::empty()),
    decreases bytes.len(),
{
    if bytes.len() > 0 {
        lemma_stream_passes_over(bytes.drop_last());
    }
}

/// Whatever the frame buffer holds, the bytes of a good frame that passes
/// through the stream whole, fed one by one, give the frame's sample with
/// the last byte and nothing before, and leave the buffer empty.
pub proof fn lemma_stream_delivers_frame(buffer: Seq<u8>, frame: Seq<u8>)
    requires
        is_transparent(frame),
        decode_frame(frame) is Ok,
    ensures
        feed_all(buffer, frame) == (Seq::<u8>::empty(), seq![decode_frame(frame)->Ok_0]),
{
    let count = frame.len() - 1;
    lemma_stream_collects_frame(buffer, frame, count);
    assert(frame.drop_last() =~= frame.take(count));
    assert(frame.take(count).push(frame.last()) =~= frame);
    assert(Seq::<ESP32Data>::empty().push(decode_frame(frame)->Ok_0) =~= seq![
        decode_frame(frame)->Ok_0,
    ]);
}

/// A good frame that holds an end byte where it closes the frame too early
/// is lost: the part up to that byte is dropped for its length, and the
/// rest is passed over.
pub proof fn lemma_early_end_byte_loses_frame(buffer: Seq<u8>, frame: Seq<u8>, at: int)
    requires
        decode_frame(frame) is Ok,
        frame[0] == FRAME_START,
        forall|i: int| 1 <= i < frame.len() ==> frame[i] != FRAME_START,
        MIN_FRAME_LEN - 1 <= at < frame.len() - 1,
        frame[at] == FRAME_END,
    ensures
        feed_all(buffer, frame) == (Seq::<u8>::empty(), Seq::<ESP32Data>::empty()),
    decreases at,
{
    if exists|i: int| MIN_FRAME_LEN - 1 <= i < at && frame[i] == FRAME_END {
        let earlier = choose|i: int| MIN_FRAME_LEN - 1 <= i < at && frame[i] == FRAME_END;
        lemma_early_end_byte_loses_frame(buffer, frame, earlier);
    } else {
        let head = frame.take(at + 1);
        let tail = frame.skip(at + 1);
        assert(head + tail =~= frame);
        lemma_stream_collects_frame(buffer, frame, at);
        assert(head.drop_last() =~= frame.take(at));
        assert(head.last() == frame[at]);
        assert(frame.take(at).push(frame[at]) =~= head);
        assert(decode_frame(head) is Err) by {
            assert(head[1] == frame[1]);
        }
        assert(feed_all(buffer, head) == (Seq::<u8>::empty(), Seq::<ESP32Data>::empty()));
        assert forall|i: int| 0 <= i < tail.len() implies tail[i] != FRAME_START by {
            assert(tail[i] == frame[at + 1 + i]);
        }
        lemma_stream_passes_over(tail);
        lemma_feed_in_parts(buffer, head, tail);
        assert(Seq::<ESP32Data>::empty() + Seq::<ESP32Data>::empty() =~= Seq::<
            ESP32Data,
        >::empty());
    }
}

/// A start byte makes the decoder begin anew: what comes out of the bytes
/// from a start byte on does not depend on what the buffer held before it,
/// so an unfinished frame is never joined to the next.
pub proof fn lemma_start_byte_restarts(first: Seq<u8>, second: Seq<u8>, rest: Seq<u8>)
    ensures
        feed_all(first, seq![FRAME_START] + rest) == feed_all(second, seq![FRAME_START] + rest),
    decreases rest.len(),
{
    let bytes = seq![FRAME_START] + rest;
    if rest.len() == 0 {
        assert(bytes.drop_last() =~= Seq::<u8>::empty());
        assert(feed_all(first, bytes.drop_last()).0 == first);
        assert(feed_all(second, bytes.drop_last()).0 == second);
    } else {
        assert(bytes.drop_last() =~= seq![FRAME_START] + rest.drop_last());
        lemma_start_byte_restarts(first, second, rest.drop_last());
    }
}

impl SerialLinkState {
    /// The state after a run of events, each with its time, and what was
    /// passed on after each.
    pub open spec fn run(self, events: Seq<(SerialEvent, nat)>) -> (
        SerialLinkState,
        Seq<SerialOutcome>,
    )
        decreases events.len(),
    {
        if events.len() == 0 {
            (self, Seq::empty())
        } else {
            let (before, outcomes) = self.run(events.drop_last());
            let (after, outcome) = before.step(events.last().0, events.last().1);
            (after, outcomes.push(outcome))
        }
    }
}

/// Whether an outcome carries a freshly decoded sample.
pub open spec fn is_fresh(outcome: SerialOutcome) -> bool {
    outcome.publication matches Some(publication) && publication.is_fresh()
}

/// Every sample that the link hands out is its last good sample, and the
/// last good sample changes only when a fresh one is handed out.
pub proof fn lemma_publication_is_last_good(state: SerialLinkState, event: SerialEvent, now: nat)
    ensures
        ({
            let (next, outcome) = state.step(event, now);
            &&& outcome.publication matches Some(publication) ==> publication.data()
                == next.last_values
            &&& !is_fresh(outcome) ==> next.last_values == state.last_values
            &&& !is_fresh(outcome) && next.retention_due(now) ==> outcome.publication == Some(
                Publication::Retained(state.last_values),
            )
        }),
{
}

/// While no new sample comes, whatever else happens and however long it
/// lasts, the link keeps its last good sample and hands out nothing else:
/// a snapshot that held the last good sample holds it still.
pub proof fn lemma_outage_keeps_last_good(
    state: SerialLinkState,
    events: Seq<(SerialEvent, nat)>,
    shown: crate::telemetry::TelemetryState,
)
    requires
        forall|i: int| 0 <= i < events.len() ==> !is_fresh(#[trigger] state.run(events).1[i]),
        shown.latest_esp32_data == state.last_values,
    ensures
        state.run(events).1.len() == events.len(),
        state.run(events).0.last_values == state.last_values,
        forall|i: int|
            0 <= i < events.len() ==> (#[trigger] state.run(events).1[i].publication matches Some(
                publication,
            ) ==> publication == Publication::Retained(state.last_values)
                && shown.with_esp32_data(publication.data()) == shown),
    decreases events.len(),
{
    if events.len() > 0 {
        let (before, outcomes) = state.run(events.drop_last());
        let (after, outcome) = before.step(events.last().0, events.last().1);
        assert(state.run(events).1 == outcomes.push(outcome));
        assert forall|i: int| 0 <= i < events.len() - 1 implies !is_fresh(
            #[trigger] state.run(events.drop_last()).1[i],
        ) by {
            lemma_run_length(state, events.drop_last());
            assert(state.run(events).1[i] == outcomes[i]);
        }
        lemma_outage_keeps_last_good(state, events.drop_last(), shown);
        lemma_publication_is_last_good(before, events.last().0, events.last().1);
        assert(state.run(events).1[events.len() - 1] == outcome);
        assert forall|i: int| 0 <= i < events.len() implies (
        #[trigger] state.run(events).1[i].publication matches Some(publication) ==> publication
            == Publication::Retained(state.last_values) && shown.with_esp32_data(
            publication.data(),
        ) == shown) by {
            if i < events.len() - 1 {
                assert(state.run(events).1[i] == outcomes[i]);
            }
        }
    }
}

/// A run passes on one outcome for each event.
pub proof fn lemma_run_length(state: SerialLinkState, events: Seq<(SerialEvent, nat)>)
    ensures
        state.run(events).1.len() == events.len(),
    decreases events.len(),
{
    if events.len() > 0 {
        lemma_run_length(state, events.drop_last());
    }
}

} // verus!

//! The shared snapshot and the value types it holds.
//!
//! The snapshot is a plain value. Whoever shares it between the feeds and
//! the display guards it with one lock; every operation here replaces one
//! part of it as a whole, so a reader that holds the lock never sees a part
//! half written.

use crate::esp32::Publication;
use crate::racebox::parser::RaceBoxData;
use vstd::prelude::*;

verus! {

/// Warning-lamp and indicator states carried in one status byte.
#[derive(Debug, Clone, Copy, PartialEq, Eq, Structural)]
pub struct StatusFlags {
    /// Malfunction indicator lamp (check engine).
    pub mil: bool,
    /// ABS warning lamp.
    pub abs_warning: bool,
    /// Airbag warning lamp.
    pub airbag_warning: bool,
    /// Left turn signal active.
    pub left_turn: bool,
    /// Right turn signal active.
    pub right_turn: bool,
    /// High beam active.
    pub high_beam: bool,
    /// Parking brake engaged.
    pub parking_brake: bool,
    /// Reserved bit.
    pub reserved: bool,
}

/// The weight of a flag in the status byte: `weight` when set, 0 when clear.
pub open spec fn flag_value(flag: bool, weight: int) -> int {
    if flag {
        weight
    } else {
        0
    }
}

impl StatusFlags {
    /// No lamp lit, no indicator on.
    pub open spec fn all_clear() -> StatusFlags {
        StatusFlags {
            mil: false,
            abs_warning: false,
            airbag_warning: false,
            left_turn: false,
            right_turn: false,
            high_beam: false,
            parking_brake: false,
            reserved: false,
        }
    }

    /// The flags that a status byte stands for: bit 0 is `mil`, bit 7 is
    /// `reserved`.
    pub open spec fn of_byte(byte: u8) -> StatusFlags {
        StatusFlags {
            mil: byte & 0x01 != 0,
            abs_warning: byte & 0x02 != 0,
            airbag_warning: byte & 0x04 != 0,
            left_turn: byte & 0x08 != 0,
            right_turn: byte & 0x10 != 0,
            high_beam: byte & 0x20 != 0,
            parking_brake: byte & 0x40 != 0,
            reserved: byte & 0x80 != 0,
        }
    }

    /// The status byte of these flags, as the sum of the weights of the
    /// flags that are set.
    pub open spec fn byte_value(self) -> int {
        flag_value(self.mil, 0x01) + flag_value(self.abs_warning, 0x02) + flag_value(
            self.airbag_warning,
            0x04,
        ) + flag_value(self.left_turn, 0x08) + flag_value(self.right_turn, 0x10) + flag_value(
            self.high_beam,
            0x20,
        ) + flag_value(self.parking_brake, 0x40) + flag_value(self.reserved, 0x80)
    }

    /// Expands a status byte into its eight flags.
    pub fn from_byte(byte: u8) -> (flags: Self)
        ensures
            flags == Self::of_byte(byte),
            flags.byte_value() == byte,
    {
        proof {
            Self::lemma_byte_of_flags(byte);
        }
        Self {
            mil: (byte & 0x01) != 0,
            abs_warning: (byte & 0x02) != 0,
            airbag_warning: (byte & 0x04) != 0,
            left_turn: (byte & 0x08) != 0,
            right_turn: (byte & 0x10) != 0,
            high_beam: (byte & 0x20) != 0,
            parking_brake: (byte & 0x40) != 0,
            reserved: (byte & 0x80) != 0,
        }
    }

    /// Packs the eight flags into a status byte.
    pub fn to_byte(&self) -> (byte: u8)
        ensures
            byte == self.byte_value(),
            Self::of_byte(byte) == *self,
    {
        let mut byte: u8 = 0u8;
        if self.mil {
            byte = byte + 0x01;
        }
        if self.abs_warning {
            byte = byte + 0x02;
        }
        if self.airbag_warning {
            byte = byte + 0x04;
        }
        if self.left_turn {
            byte = byte + 0x08;
        }
        if self.right_turn {
            byte = byte + 0x10;
        }
        if self.high_beam {
            byte = byte + 0x20;
        }
        if self.parking_brake {
            byte = byte + 0x40;
        }
        if self.reserved {
            byte = byte + 0x80;
        }
        proof {
            Self::lemma_flags_of_byte(*self);
        }
        byte
    }

    /// Expanding a byte and packing the flags again gives the byte back.
    pub proof fn lemma_byte_of_flags(byte: u8)
        ensures
            Self::of_byte(byte).byte_value() == byte,
    {
        let b0: u8 = if byte & 0x01 != 0 { 0x01 } else { 0 };
        let b1: u8 = if byte & 0x02 != 0 { 0x02 } else { 0 };
        let b2: u8 = if byte & 0x04 != 0 { 0x04 } else { 0 };
        let b3: u8 = if byte & 0x08 != 0 { 0x08 } else { 0 };
        let b4: u8 = if byte & 0x10 != 0 { 0x10 } else { 0 };
        let b5: u8 = if byte & 0x20 != 0 { 0x20 } else { 0 };
        let b6: u8 = if byte & 0x40 != 0 { 0x40 } else { 0 };
        let b7: u8 = if byte & 0x80 != 0 { 0x80 } else { 0 };
        assert(byte == b0 + b1 + b2 + b3 + b4 + b5 + b6 + b7) by (bit_vector)
            requires
                b0 == (if byte & 0x01 != 0 { 0x01u8 } else { 0 }),
                b1 == (if byte & 0x02 != 0 { 0x02u8 } else { 0 }),
                b2 == (if byte & 0x04 != 0 { 0x04u8 } else { 0 }),
                b3 == (if byte & 0x08 != 0 { 0x08u8 } else { 0 }),
                b4 == (if byte & 0x10 != 0 { 0x10u8 } else { 0 }),
                b5 == (if byte & 0x20 != 0 { 0x20u8 } else { 0 }),
                b6 == (if byte & 0x40 != 0 { 0x40u8 } else { 0 }),
                b7 == (if byte & 0x80 != 0 { 0x80u8 } else { 0 }),
        ;
    }

    /// Packing flags and expanding the byte again gives the flags back.
    pub proof fn lemma_flags_of_byte(flags: StatusFlags)
        ensures
            0 <= flags.byte_value() < 256,
            Self::of_byte(flags.byte_value() as u8) == flags,
    {
        let b0: u8 = if flags.mil { 0x01 } else { 0 };
        let b1: u8 = if flags.abs_warning { 0x02 } else { 0 };
        let b2: u8 = if flags.airbag_warning { 0x04 } else { 0 };
        let b3: u8 = if flags.left_turn { 0x08 } else { 0 };
        let b4: u8 = if flags.right_turn { 0x10 } else { 0 };
        let b5: u8 = if flags.high_beam { 0x20 } else { 0 };
        let b6: u8 = if flags.parking_brake { 0x40 } else { 0 };
        let b7: u8 = if flags.reserved { 0x80 } else { 0 };
        let byte: u8 = (b0 + b1 + b2 + b3 + b4 + b5 + b6 + b7) as u8;
        assert(byte == flags.byte_value());
        assert((byte & 0x01 != 0) == (b0 != 0) && (byte & 0x02 != 0) == (b1 != 0) && (byte & 0x04
            != 0) == (b2 != 0) && (byte & 0x08 != 0) == (b3 != 0) && (byte & 0x10 != 0) == (b4
            != 0) && (byte & 0x20 != 0) == (b5 != 0) && (byte & 0x40 != 0) == (b6 != 0) && (byte
            & 0x80 != 0) == (b7 != 0)) by (bit_vector)
            requires
                b0 == 0 || b0 == 0x01,
                b1 == 0 || b1 == 0x02,
                b2 == 0 || b2 == 0x04,
                b3 == 0 || b3 == 0x08,
                b4 == 0 || b4 == 0x10,
                b5 == 0 || b5 == 0x20,
                b6 == 0 || b6 == 0x40,
                b7 == 0 || b7 == 0x80,
                byte == (b0 + b1 + b2 + b3 + b4 + b5 + b6 + b7) as u8,
        ;
    }
}

/// The latest engine and chassis readings. A field is `None` until a frame
/// carries its tag.
#[derive(Debug, Clone, Copy, PartialEq, Eq)]
pub struct ESP32Data {
    pub fuel_level: Option<u16>,
    pub oil_pressure: Option<u16>,
    pub boost_pressure: Option<u16>,
    pub rpm: Option<u16>,
    pub speed: Option<u16>,
    pub status_flags: Option<StatusFlags>,
    pub steering_angle: Option<i16>,
    pub brake_pressure: Option<u16>,
    pub throttle_position: Option<u8>,
    pub gear_position: Option<u8>,
    pub tyre_pressures: [Option<u16>; 4],
    pub tyre_temps: [Option<i16>; 4],
}

impl ESP32Data {
    /// The sample in which no field is known.
    pub open spec fn unset() -> ESP32Data {
        ESP32Data {
            fuel_level: None,
            oil_pressure: None,
            boost_pressure: None,
            rpm: None,
            speed: None,
            status_flags: None,
            steering_angle: None,
            brake_pressure: None,
            throttle_position: None,
            gear_position: None,
            tyre_pressures: [None, None, None, None],
            tyre_temps: [None, None, None, None],
        }
    }
}

impl Default for StatusFlags {
    fn default() -> (flags: Self)
        ensures
            flags == StatusFlags::all_clear(),
    {
        StatusFlags {
            mil: false,
            abs_warning: false,
            airbag_warning: false,
            left_turn: false,
            right_turn: false,
            high_beam: false,
            parking_brake: false,
            reserved: false,
        }
    }
}

impl Default for ESP32Data {
    fn default() -> (data: Self)
        ensures
            data == ESP32Data::unset(),
    {
        ESP32Data {
            fuel_level: None,
            oil_pressure: None,
            boost_pressure: None,
            rpm: None,
            speed: None,
            status_flags: None,
            steering_angle: None,
            brake_pressure: None,
            throttle_position: None,
            gear_position: None,
            tyre_pressures: [None, None, None, None],
            tyre_temps: [None, None, None, None],
        }
    }
}

/// A failure of one of the feeds, tagged with the feed.
#[derive(Debug, Clone, PartialEq, Eq)]
pub enum TelemetryError {
    /// The wireless feed.
    BLE(String),
    /// The serial feed.
    ESP32(String),
}

/// What the display is tuned for.
#[derive(Debug, Clone, Copy, PartialEq, Eq, Structural)]
pub enum DriveMode {
    Road,
    Track,
}

/// The colours of the display.
#[derive(Debug, Clone, Copy, PartialEq, Eq, Structural)]
pub enum ColorScheme {
    Light,
    Dark,
}

/// The snapshot: the latest sample of each feed, the last failure of each
/// feed with the time it was recorded at, in milliseconds, and the two
/// display selectors.
pub struct TelemetryState {
    pub latest_racebox_data: Option<RaceBoxData>,
    pub latest_esp32_data: ESP32Data,
    pub racebox_error: Option<(TelemetryError, u64)>,
    pub esp32_error: Option<(TelemetryError, u64)>,
    pub drive_mode: DriveMode,
    pub color_scheme: ColorScheme,
}

impl TelemetryState {
    /// The snapshot before anything was received.
    pub open spec fn initial() -> TelemetryState {
        TelemetryState {
            latest_racebox_data: None,
            latest_esp32_data: ESP32Data::unset(),
            racebox_error: None,
            esp32_error: None,
            drive_mode: DriveMode::Road,
            color_scheme: ColorScheme::Light,
        }
    }

    /// The snapshot with another engine sample.
    pub open spec fn with_esp32_data(self, data: ESP32Data) -> TelemetryState {
        TelemetryState { latest_esp32_data: data, ..self }
    }

    /// The snapshot with another position sample.
    pub open spec fn with_racebox_data(self, data: RaceBoxData) -> TelemetryState {
        TelemetryState { latest_racebox_data: Some(data), ..self }
    }

    /// An empty snapshot, in road mode with the light scheme.
    pub fn new() -> (state: Self)
        ensures
            state == TelemetryState::initial(),
    {
        Self {
            latest_racebox_data: None,
            latest_esp32_data: ESP32Data::default(),
            racebox_error: None,
            esp32_error: None,
            drive_mode: DriveMode::Road,
            color_scheme: ColorScheme::Light,
        }
    }

    /// Replaces the engine sample.
    pub fn set_latest_esp32_data(&mut self, data: ESP32Data)
        ensures
            *final(self) == old(self).with_esp32_data(data),
    {
        self.latest_esp32_data = data;
    }

    /// Replaces the position sample.
    pub fn set_latest_racebox_data(&mut self, data: RaceBoxData)
        ensures
            *final(self) == old(self).with_racebox_data(data),
    {
        self.latest_racebox_data = Some(data);
    }

    /// Replaces the engine sample by the one that the serial link hands out.
    pub fn publish(&mut self, publication: Publication)
        ensures
            *final(self) == old(self).with_esp32_data(publication.data()),
    {
        match publication {
            Publication::Fresh(data) => self.set_latest_esp32_data(data),
            Publication::Retained(data) => self.set_latest_esp32_data(data),
        }
    }

    /// Records a failure of the wireless feed at time `now_ms`.
    pub fn set_racebox_error(&mut self, error: String, now_ms: u64)
        ensures
            *final(self) == (TelemetryState {
                racebox_error: Some((TelemetryError::BLE(error), now_ms)),
                ..*old(self)
            }),
    {
        self.racebox_error = Some((TelemetryError::BLE(error), now_ms));
    }

    /// Records a failure of the serial feed at time `now_ms`.
    pub fn set_esp32_error(&mut self, error: String, now_ms: u64)
        ensures
            *final(self) == (TelemetryState {
                esp32_error: Some((TelemetryError::ESP32(error), now_ms)),
                ..*old(self)
            }),
    {
        self.esp32_error = Some((TelemetryError::ESP32(error), now_ms));
    }

    /// Forgets the failure of the wireless feed.
    pub fn clear_racebox_error(&mut self)
        ensures
            *final(self) == (TelemetryState { racebox_error: None, ..*old(self) }),
    {
        self.racebox_error = None;
    }

    /// Forgets the failure of the serial feed.
    pub fn clear_esp32_error(&mut self)
        ensures
            *final(self) == (TelemetryState { esp32_error: None, ..*old(self) }),
    {
        self.esp32_error = None;
    }

    /// Selects the drive mode.
    pub fn set_drive_mode(&mut self, mode: DriveMode)
        ensures
            *final(self) == (TelemetryState { drive_mode: mode, ..*old(self) }),
    {
        self.drive_mode = mode;
    }

    /// The drive mode selected.
    pub fn get_drive_mode(&self) -> (mode: DriveMode)
        ensures
            mode == self.drive_mode,
    {
        self.drive_mode
    }

    /// Selects the colour scheme.
    pub fn set_color_scheme(&mut self, scheme: ColorScheme)
        ensures
            *final(self) == (TelemetryState { color_scheme: scheme, ..*old(self) }),
    {
        self.color_scheme = scheme;
    }

    /// The colour scheme selected.
    pub fn get_color_scheme(&self) -> (scheme: ColorScheme)
        ensures
            scheme == self.color_scheme,
    {
        self.color_scheme
    }
}

/// One whole write of a sample into the snapshot, by the writer of the
/// engine feed or by the writer of the position feed.
pub enum SampleWrite {
    Engine(ESP32Data),
    Position(RaceBoxData),
}

impl TelemetryState {
    /// The snapshot after one write.
    pub open spec fn written(self, write: SampleWrite) -> TelemetryState {
        match write {
            SampleWrite::Engine(data) => self.with_esp32_data(data),
            SampleWrite::Position(data) => self.with_racebox_data(data),
        }
    }

    /// The snapshot after a run of writes, made one after the other in the
    /// order in which the writers got hold of the snapshot.
    pub open spec fn written_all(self, writes: Seq<SampleWrite>) -> TelemetryState
        decreases writes.len(),
    {
        if writes.len() == 0 {
            self
        } else {
            self.written_all(writes.drop_last()).written(writes.last())
        }
    }
}

/// The sample of the last engine write of a run, if there is one.
pub open spec fn last_engine_write(writes: Seq<SampleWrite>) -> Option<ESP32Data>
    decreases writes.len(),
{
    if writes.len() == 0 {
        None
    } else {
        match writes.last() {
            SampleWrite::Engine(data) => Some(data),
            SampleWrite::Position(_) => last_engine_write(writes.drop_last()),
        }
    }
}

/// The sample of the last position write of a run, if there is one.
pub open spec fn last_position_write(writes: Seq<SampleWrite>) -> Option<RaceBoxData>
    decreases writes.len(),
{
    if writes.len() == 0 {
        None
    } else {
        match writes.last() {
            SampleWrite::Position(data) => Some(data),
            SampleWrite::Engine(_) => last_position_write(writes.drop_last()),
        }
    }
}

/// However the writes of the two feeds take turns, the snapshot after them
/// holds, whole, the sample of the last engine write and the sample of the
/// last position write, and what no write touched is as it was. A reader
/// that looks between two writes therefore never sees a sample mixed from
/// two writes.
pub proof fn lemma_reads_see_whole_writes(state: TelemetryState, writes: Seq<SampleWrite>)
    ensures
        state.written_all(writes) == (TelemetryState {
            latest_esp32_data: match last_engine_write(writes) {
                Some(data) => data,
                None => state.latest_esp32_data,
            },
            latest_racebox_data: match last_position_write(writes) {
                Some(data) => Some(data),
                None => state.latest_racebox_data,
            },
            ..state
        }),
    decreases writes.len(),
{
    if writes.len() > 0 {
        lemma_reads_see_whole_writes(state, writes.drop_last());
    }
}

/// Writers of different parts do not disturb each other: in whichever order
/// an engine sample and a position sample are written, the snapshot then
/// holds both of them whole, and nothing else has changed.
pub proof fn lemma_writers_commute(state: TelemetryState, engine: ESP32Data, position: RaceBoxData)
    ensures
        state.with_esp32_data(engine).with_racebox_data(position) == state.with_racebox_data(
            position,
        ).with_esp32_data(engine),
        state.with_esp32_data(engine).with_racebox_data(position) == (TelemetryState {
            latest_esp32_data: engine,
            latest_racebox_data: Some(position),
            ..state
        }),
{
}

} // verus!

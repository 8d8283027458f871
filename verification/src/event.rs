//! Shapes of the records that report an event.
//!
//! An event record extends the common header by the event's group, its
//! identifier and one word of data; some events add fields of their own.

use vstd::prelude::*;
use crate::recv::{read_header, Guid, RecvHeader};
use crate::wire::{
    le_u32, le_u64, lemma_join, lemma_u32_image, lemma_u64_image, read_bytes, read_u32, read_u64,
    u32_le, u64_le,
};

verus! {

/// An event that the client subscribed to, or one of its own that came
/// back to it.
#[derive(Clone, Copy, Debug, PartialEq, Eq)]
pub struct RecvEvent {
    pub header: RecvHeader,
    /// The notification group of the event, or all ones if it has none.
    pub group_id: u32,
    pub event_id: u32,
    /// A value whose meaning depends on the event.
    pub data: u32,
}

impl RecvEvent {
    /// The number of bytes the shape occupies.
    pub const SIZE: usize = 24;

    /// `rec` is long enough to hold the shape.
    pub open spec fn fits(rec: Seq<u8>) -> bool {
        rec.len() >= 24
    }

    /// This value is what `rec` holds.
    pub open spec fn reads(&self, rec: Seq<u8>) -> bool {
        &&& self.header.reads(rec)
        &&& self.group_id == le_u32(rec, 12)
        &&& self.event_id == le_u32(rec, 16)
        &&& self.data == le_u32(rec, 20)
    }

    /// The byte image of this value.
    pub open spec fn wire(&self) -> Seq<u8> {
        self.header.wire() + u32_le(self.group_id) + u32_le(self.event_id) + u32_le(self.data)
    }

    /// A value read from a record has the record's first bytes as its
    /// image.
    pub proof fn lemma_wire(&self, rec: Seq<u8>)
        requires
            Self::fits(rec),
            self.reads(rec),
        ensures
            self.wire() == rec.subrange(0, 24),
    {
        self.header.lemma_wire(rec);
        lemma_u32_image(rec, 12);
        lemma_u32_image(rec, 16);
        lemma_u32_image(rec, 20);
        lemma_join(rec, 0, 12, 16);
        lemma_join(rec, 0, 16, 20);
        lemma_join(rec, 0, 20, 24);
    }

    /// Reads the shape from `rec`, if `rec` is long enough to hold it.
    pub fn parse(rec: &[u8]) -> (out: Option<RecvEvent>)
        ensures
            out is Some <==> Self::fits(rec@),
            out matches Some(m) ==> m.reads(rec@),
    {
        if rec.len() < Self::SIZE {
            return None;
        }
        Some(read_event(rec))
    }
}

/// Reads the event fields of a record known to hold them.
pub(crate) fn read_event(rec: &[u8]) -> (e: RecvEvent)
    requires
        rec.len() >= 24,
    ensures
        e.reads(rec@),
{
    RecvEvent {
        header: read_header(rec),
        group_id: read_u32(rec, 12),
        event_id: read_u32(rec, 16),
        data: read_u32(rec, 20),
    }
}

/// An object was added to the simulation, or taken out of it.
#[derive(Clone, Copy, Debug, PartialEq, Eq)]
pub struct RecvEventObjectAddRemove {
    pub event: RecvEvent,
    /// The kind of the object.
    pub object_type: u32,
}

impl RecvEventObjectAddRemove {
    /// The number of bytes the shape occupies.
    pub const SIZE: usize = 28;

    /// `rec` is long enough to hold the shape.
    pub open spec fn fits(rec: Seq<u8>) -> bool {
        rec.len() >= 28
    }

    /// This value is what `rec` holds.
    pub open spec fn reads(&self, rec: Seq<u8>) -> bool {
        &&& self.event.reads(rec)
        &&& self.object_type == le_u32(rec, 24)
    }

    /// The byte image of this value.
    pub open spec fn wire(&self) -> Seq<u8> {
        self.event.wire() + u32_le(self.object_type)
    }

    /// A value read from a record has the record's first bytes as its
    /// image.
    pub proof fn lemma_wire(&self, rec: Seq<u8>)
        requires
            Self::fits(rec),
            self.reads(rec),
        ensures
            self.wire() == rec.subrange(0, 28),
    {
        self.event.lemma_wire(rec);
        lemma_u32_image(rec, 24);
        lemma_join(rec, 0, 24, 28);
    }

    /// Reads the shape from `rec`, if `rec` is long enough to hold it.
    pub fn parse(rec: &[u8]) -> (out: Option<RecvEventObjectAddRemove>)
        ensures
            out is Some <==> Self::fits(rec@),
            out matches Some(m) ==> m.reads(rec@),
    {
        if rec.len() < Self::SIZE {
            return None;
        }
        Some(RecvEventObjectAddRemove { event: read_event(rec), object_type: read_u32(rec, 24) })
    }
}

/// An event that names a file, such as a flight that was loaded.
#[derive(Clone, Debug, PartialEq, Eq)]
pub struct RecvEventFilename {
    pub event: RecvEvent,
    /// The file's path: 260 bytes, ended by a zero byte.
    pub file_name: Vec<u8>,
    pub flags: u32,
}

impl RecvEventFilename {
    /// The number of bytes the shape occupies.
    pub const SIZE: usize = 288;

    /// `rec` is long enough to hold the shape.
    pub open spec fn fits(rec: Seq<u8>) -> bool {
        rec.len() >= 288
    }

    /// This value is what `rec` holds.
    pub open spec fn reads(&self, rec: Seq<u8>) -> bool {
        &&& self.event.reads(rec)
        &&& self.file_name@ == rec.subrange(24, 284)
        &&& self.flags == le_u32(rec, 284)
    }

    /// The byte image of this value.
    pub open spec fn wire(&self) -> Seq<u8> {
        self.event.wire() + self.file_name@ + u32_le(self.flags)
    }

    /// A value read from a record has the record's first bytes as its
    /// image.
    pub proof fn lemma_wire(&self, rec: Seq<u8>)
        requires
            Self::fits(rec),
            self.reads(rec),
        ensures
            self.wire() == rec.subrange(0, 288),
    {
        self.event.lemma_wire(rec);
        lemma_u32_image(rec, 284);
        lemma_join(rec, 0, 24, 284);
        lemma_join(rec, 0, 284, 288);
    }

    /// Reads the shape from `rec`, if `rec` is long enough to hold it.
    pub fn parse(rec: &[u8]) -> (out: Option<RecvEventFilename>)
        ensures
            out is Some <==> Self::fits(rec@),
            out matches Some(m) ==> m.reads(rec@),
    {
        if rec.len() < Self::SIZE {
            return None;
        }
        Some(
            RecvEventFilename {
                event: read_event(rec),
                file_name: read_bytes(rec, 24, 284),
                flags: read_u32(rec, 284),
            },
        )
    }
}

/// A frame was drawn.
#[derive(Clone, Copy, Debug, PartialEq, Eq)]
pub struct RecvEventFrame {
    pub event: RecvEvent,
    /// The frames drawn in a second, a single-precision number: its bits.
    pub frame_rate_bits: u32,
    /// The speed of simulated time, a single-precision number: its bits.
    pub sim_speed_bits: u32,
}

impl RecvEventFrame {
    /// The number of bytes the shape occupies.
    pub const SIZE: usize = 32;

    /// `rec` is long enough to hold the shape.
    pub open spec fn fits(rec: Seq<u8>) -> bool {
        rec.len() >= 32
    }

    /// This value is what `rec` holds.
    pub open spec fn reads(&self, rec: Seq<u8>) -> bool {
        &&& self.event.reads(rec)
        &&& self.frame_rate_bits == le_u32(rec, 24)
        &&& self.sim_speed_bits == le_u32(rec, 28)
    }

    /// The byte image of this value.
    pub open spec fn wire(&self) -> Seq<u8> {
        self.event.wire() + u32_le(self.frame_rate_bits) + u32_le(self.sim_speed_bits)
    }

    /// A value read from a record has the record's first bytes as its
    /// image.
    pub proof fn lemma_wire(&self, rec: Seq<u8>)
        requires
            Self::fits(rec),
            self.reads(rec),
        ensures
            self.wire() == rec.subrange(0, 32),
    {
        self.event.lemma_wire(rec);
        lemma_u32_image(rec, 24);
        lemma_u32_image(rec, 28);
        lemma_join(rec, 0, 24, 28);
        lemma_join(rec, 0, 28, 32);
    }

    /// Reads the shape from `rec`, if `rec` is long enough to hold it.
    pub fn parse(rec: &[u8]) -> (out: Option<RecvEventFrame>)
        ensures
            out is Some <==> Self::fits(rec@),
            out matches Some(m) ==> m.reads(rec@),
    {
        if rec.len() < Self::SIZE {
            return None;
        }
        Some(
            RecvEventFrame {
                event: read_event(rec),
                frame_rate_bits: read_u32(rec, 24),
                sim_speed_bits: read_u32(rec, 28),
            },
        )
    }
}

/// A mission action of the client's own kind was carried out.
#[derive(Clone, Debug, PartialEq, Eq)]
pub struct RecvCustomAction {
    pub event: RecvEvent,
    /// The instance of the action.
    pub instance_id: Guid,
    /// Whether the mission waits for the client to report completion.
    pub wait_for_completion: u32,
    /// The text that the mission attached to the action, ended by a zero
    /// byte: every byte of the record after the fixed fields.
    pub payload: Vec<u8>,
}

impl RecvCustomAction {
    /// The number of bytes the fixed fields occupy.
    pub const SIZE: usize = 44;

    /// `rec` is long enough to hold the fixed fields.
    pub open spec fn fits(rec: Seq<u8>) -> bool {
        rec.len() >= 44
    }

    /// This value is what `rec` holds.
    pub open spec fn reads(&self, rec: Seq<u8>) -> bool {
        &&& self.event.reads(rec)
        &&& self.instance_id.reads_at(rec, 24)
        &&& self.wait_for_completion == le_u32(rec, 40)
        &&& self.payload@ == rec.subrange(44, rec.len() as int)
    }

    /// The byte image of this value.
    pub open spec fn wire(&self) -> Seq<u8> {
        self.event.wire() + self.instance_id.wire() + u32_le(self.wait_for_completion)
            + self.payload@
    }

    /// A value read from a record has the whole record as its image.
    pub proof fn lemma_wire(&self, rec: Seq<u8>)
        requires
            Self::fits(rec),
            self.reads(rec),
        ensures
            self.wire() == rec,
    {
        self.event.lemma_wire(rec);
        self.instance_id.lemma_wire(rec, 24);
        lemma_u32_image(rec, 40);
        lemma_join(rec, 0, 24, 40);
        lemma_join(rec, 0, 40, 44);
        lemma_join(rec, 0, 44, rec.len() as int);
        assert(rec.subrange(0, rec.len() as int) =~= rec);
    }

    /// Reads the shape from `rec`, if `rec` is long enough to hold it.
    pub fn parse(rec: &[u8]) -> (out: Option<RecvCustomAction>)
        ensures
            out is Some <==> Self::fits(rec@),
            out matches Some(m) ==> m.reads(rec@),
    {
        if rec.len() < Self::SIZE {
            return None;
        }
        Some(
            RecvCustomAction {
                event: read_event(rec),
                instance_id: Guid::read_at(rec, 24),
                wait_for_completion: read_u32(rec, 40),
                payload: read_bytes(rec, 44, rec.len()),
            },
        )
    }
}

/// How one racer fared in a race or in a lap of it.
#[derive(Clone, Debug, PartialEq, Eq)]
pub struct RaceResult {
    /// The number of racers.
    pub number_of_racers: u32,
    /// The mission that was flown.
    pub mission_guid: Guid,
    /// The player's name: 260 bytes, ended by a zero byte.
    pub player_name: Vec<u8>,
    /// The kind of session: 260 bytes, ended by a zero byte.
    pub session_type: Vec<u8>,
    /// The aircraft flown: 260 bytes, ended by a zero byte.
    pub aircraft: Vec<u8>,
    /// The player's part in the mission: 260 bytes, ended by a zero byte.
    pub player_role: Vec<u8>,
    /// The time taken in seconds, a double-precision number: its bits.
    pub total_time_bits: u64,
    /// The penalty in seconds, a double-precision number: its bits.
    pub penalty_time_bits: u64,
    /// Not zero if the racer was disqualified.
    pub is_disqualified: u32,
}

impl RaceResult {
    /// The number of bytes a result occupies.
    pub const SIZE: usize = 1080;

    /// This result is what the bytes of `rec` from `at` hold.
    pub open spec fn reads_at(&self, rec: Seq<u8>, at: int) -> bool {
        &&& self.number_of_racers == le_u32(rec, at)
        &&& self.mission_guid.reads_at(rec, at + 4)
        &&& self.player_name@ == rec.subrange(at + 20, at + 280)
        &&& self.session_type@ == rec.subrange(at + 280, at + 540)
        &&& self.aircraft@ == rec.subrange(at + 540, at + 800)
        &&& self.player_role@ == rec.subrange(at + 800, at + 1060)
        &&& self.total_time_bits == le_u64(rec, at + 1060)
        &&& self.penalty_time_bits == le_u64(rec, at + 1068)
        &&& self.is_disqualified == le_u32(rec, at + 1076)
    }

    /// The byte image of this result.
    pub open spec fn wire(&self) -> Seq<u8> {
        u32_le(self.number_of_racers) + self.mission_guid.wire() + self.player_name@
            + self.session_type@ + self.aircraft@ + self.player_role@ + u64_le(
            self.total_time_bits,
        ) + u64_le(self.penalty_time_bits) + u32_le(self.is_disqualified)
    }

    /// A result read from a record has the bytes it was read from as its
    /// image.
    pub proof fn lemma_wire(&self, rec: Seq<u8>, at: int)
        requires
            0 <= at,
            at + 1080 <= rec.len(),
            self.reads_at(rec, at),
        ensures
            self.wire() == rec.subrange(at, at + 1080),
    {
        lemma_u32_image(rec, at);
        self.mission_guid.lemma_wire(rec, at + 4);
        lemma_u64_image(rec, at + 1060);
        lemma_u64_image(rec, at + 1068);
        lemma_u32_image(rec, at + 1076);
        lemma_join(rec, at, at + 4, at + 20);
        lemma_join(rec, at, at + 20, at + 280);
        lemma_join(rec, at, at + 280, at + 540);
        lemma_join(rec, at, at + 540, at + 800);
        lemma_join(rec, at, at + 800, at + 1060);
        lemma_join(rec, at, at + 1060, at + 1068);
        lemma_join(rec, at, at + 1068, at + 1076);
        lemma_join(rec, at, at + 1076, at + 1080);
    }

    /// Reads the result stored at `at`.
    pub(crate) fn read_at(buf: &[u8], at: usize) -> (r: RaceResult)
        requires
            at + 1080 <= buf.len(),
        ensures
            r.reads_at(buf@, at as int),
    {
        RaceResult {
            number_of_racers: read_u32(buf, at),
            mission_guid: Guid::read_at(buf, at + 4),
            player_name: read_bytes(buf, at + 20, at + 280),
            session_type: read_bytes(buf, at + 280, at + 540),
            aircraft: read_bytes(buf, at + 540, at + 800),
            player_role: read_bytes(buf, at + 800, at + 1060),
            total_time_bits: read_u64(buf, at + 1060),
            penalty_time_bits: read_u64(buf, at + 1068),
            is_disqualified: read_u32(buf, at + 1076),
        }
    }
}

/// A racer finished a race, or a lap of one.
#[derive(Clone, Debug, PartialEq, Eq)]
pub struct RecvEventRace {
    pub event: RecvEvent,
    /// At the end of a race, the racer that the result is for; at the end
    /// of a lap, the lap. Both are counted from zero.
    pub number: u32,
    pub racer_data: RaceResult,
}

impl RecvEventRace {
    /// The number of bytes the shape occupies.
    pub const SIZE: usize = 1108;

    /// `rec` is long enough to hold the shape.
    pub open spec fn fits(rec: Seq<u8>) -> bool {
        rec.len() >= 1108
    }

    /// This value is what `rec` holds.
    pub open spec fn reads(&self, rec: Seq<u8>) -> bool {
        &&& self.event.reads(rec)
        &&& self.number == le_u32(rec, 24)
        &&& self.racer_data.reads_at(rec, 28)
    }

    /// The byte image of this value.
    pub open spec fn wire(&self) -> Seq<u8> {
        self.event.wire() + u32_le(self.number) + self.racer_data.wire()
    }

    /// A value read from a record has the record's first bytes as its
    /// image.
    pub proof fn lemma_wire(&self, rec: Seq<u8>)
        requires
            Self::fits(rec),
            self.reads(rec),
        ensures
            self.wire() == rec.subrange(0, 1108),
    {
        self.event.lemma_wire(rec);
        lemma_u32_image(rec, 24);
        self.racer_data.lemma_wire(rec, 28);
        lemma_join(rec, 0, 24, 28);
        lemma_join(rec, 0, 28, 1108);
    }

    /// Reads the shape from `rec`, if `rec` is long enough to hold it.
    pub fn parse(rec: &[u8]) -> (out: Option<RecvEventRace>)
        ensures
            out is Some <==> Self::fits(rec@),
            out matches Some(m) ==> m.reads(rec@),
    {
        if rec.len() < Self::SIZE {
            return None;
        }
        Some(
            RecvEventRace {
                event: read_event(rec),
                number: read_u32(rec, 24),
                racer_data: RaceResult::read_at(rec, 28),
            },
        )
    }
}

} // verus!

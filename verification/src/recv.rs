//! Shapes of the records that the connection library delivers.
//!
//! Every record starts with the same three-word header; what follows
//! depends on the record's identifier. Fields lie one after another
//! without padding. Floating-point fields are kept as their IEEE-754 bit
//! patterns, so that a decoded value holds exactly the bits received.
//!
//! Each shape comes with three spec functions: `fits` says when a record
//! is long enough to hold the shape, `reads` says that a value is what a
//! record holds, and `wire` gives a value's byte image.

use vstd::prelude::*;
use crate::wire::{
    le_u16, le_u32, lemma_join, lemma_u16_image, lemma_u32_image, read_bytes, read_u16, read_u32,
    u16_le, u32_le,
};

verus! {

/// A 128-bit identifier in the layout of the host platform.
#[derive(Clone, Copy, Debug, PartialEq, Eq)]
pub struct Guid {
    pub data1: u32,
    pub data2: u16,
    pub data3: u16,
    pub data4: [u8; 8],
}

impl Guid {
    /// The number of bytes an identifier occupies.
    pub const SIZE: usize = 16;

    /// This identifier is what the sixteen bytes of `rec` from `at` hold.
    pub open spec fn reads_at(&self, rec: Seq<u8>, at: int) -> bool {
        &&& self.data1 == le_u32(rec, at)
        &&& self.data2 == le_u16(rec, at + 4)
        &&& self.data3 == le_u16(rec, at + 6)
        &&& self.data4@ == rec.subrange(at + 8, at + 16)
    }

    /// The byte image of this identifier.
    pub open spec fn wire(&self) -> Seq<u8> {
        u32_le(self.data1) + u16_le(self.data2) + u16_le(self.data3) + self.data4@
    }

    /// An identifier read from a record has the bytes it was read from as
    /// its image.
    pub proof fn lemma_wire(&self, rec: Seq<u8>, at: int)
        requires
            0 <= at,
            at + 16 <= rec.len(),
            self.reads_at(rec, at),
        ensures
            self.wire() == rec.subrange(at, at + 16),
    {
        lemma_u32_image(rec, at);
        lemma_u16_image(rec, at + 4);
        lemma_u16_image(rec, at + 6);
        lemma_join(rec, at, at + 4, at + 6);
        lemma_join(rec, at, at + 6, at + 8);
        lemma_join(rec, at, at + 8, at + 16);
    }

    /// Reads the identifier stored at `at`.
    pub(crate) fn read_at(buf: &[u8], at: usize) -> (g: Guid)
        requires
            at + 16 <= buf.len(),
        ensures
            g.reads_at(buf@, at as int),
    {
        let data4: [u8; 8] = [
            buf[at + 8],
            buf[at + 9],
            buf[at + 10],
            buf[at + 11],
            buf[at + 12],
            buf[at + 13],
            buf[at + 14],
            buf[at + 15],
        ];
        assert(data4@ =~= buf@.subrange(at + 8, at + 16));
        Guid {
            data1: read_u32(buf, at),
            data2: read_u16(buf, at + 4),
            data3: read_u16(buf, at + 6),
            data4,
        }
    }
}

/// The header that every record starts with.
#[derive(Clone, Copy, Debug, PartialEq, Eq)]
pub struct RecvHeader {
    /// The record's length in bytes, header included.
    pub size: u32,
    /// The interface version of the sender.
    pub version: u32,
    /// The identifier that selects the record's shape.
    pub id: u32,
}

impl RecvHeader {
    /// The number of bytes the header occupies.
    pub const SIZE: usize = 12;

    /// `rec` is long enough to hold a header.
    pub open spec fn fits(rec: Seq<u8>) -> bool {
        rec.len() >= 12
    }

    /// This header is what `rec` holds.
    pub open spec fn reads(&self, rec: Seq<u8>) -> bool {
        &&& self.size == le_u32(rec, 0)
        &&& self.version == le_u32(rec, 4)
        &&& self.id == le_u32(rec, 8)
    }

    /// The byte image of this header.
    pub open spec fn wire(&self) -> Seq<u8> {
        u32_le(self.size) + u32_le(self.version) + u32_le(self.id)
    }

    /// A header read from a record has the record's first bytes as its
    /// image.
    pub proof fn lemma_wire(&self, rec: Seq<u8>)
        requires
            Self::fits(rec),
            self.reads(rec),
        ensures
            self.wire() == rec.subrange(0, 12),
    {
        lemma_u32_image(rec, 0);
        lemma_u32_image(rec, 4);
        lemma_u32_image(rec, 8);
        lemma_join(rec, 0, 4, 8);
        lemma_join(rec, 0, 8, 12);
    }

    /// Reads the header of `rec`, if `rec` is long enough to hold one.
    pub fn parse(rec: &[u8]) -> (out: Option<RecvHeader>)
        ensures
            out is Some <==> Self::fits(rec@),
            out matches Some(h) ==> h.reads(rec@),
    {
        if rec.len() < Self::SIZE {
            return None;
        }
        Some(RecvHeader { size: read_u32(rec, 0), version: read_u32(rec, 4), id: read_u32(rec, 8) })
    }
}

/// A report that an earlier request was refused.
#[derive(Clone, Copy, Debug, PartialEq, Eq)]
pub struct RecvException {
    pub header: RecvHeader,
    /// The kind of error.
    pub exception: u32,
    /// The number of the packet that caused the error, or zero if unknown.
    pub send_id: u32,
    /// The position of the offending argument, or all ones if unknown.
    pub index: u32,
}

impl RecvException {
    /// The number of bytes the shape occupies.
    pub const SIZE: usize = 24;

    /// `rec` is long enough to hold the shape.
    pub open spec fn fits(rec: Seq<u8>) -> bool {
        rec.len() >= 24
    }

    /// This value is what `rec` holds.
    pub open spec fn reads(&self, rec: Seq<u8>) -> bool {
        &&& self.header.reads(rec)
        &&& self.exception == le_u32(rec, 12)
        &&& self.send_id == le_u32(rec, 16)
        &&& self.index == le_u32(rec, 20)
    }

    /// The byte image of this value.
    pub open spec fn wire(&self) -> Seq<u8> {
        self.header.wire() + u32_le(self.exception) + u32_le(self.send_id) + u32_le(self.index)
    }

    /// A value read from a record has the record's first bytes as its
    /// image.
    pub proof fn lemma_wire(&self, rec: Seq<u8>)
        requires
            Self::fits(rec),
            self.reads(rec),
        ensures
            self.wire() == rec.subrange(0, 24),
    {
        self.header.lemma_wire(rec);
        lemma_u32_image(rec, 12);
        lemma_u32_image(rec, 16);
        lemma_u32_image(rec, 20);
        lemma_join(rec, 0, 12, 16);
        lemma_join(rec, 0, 16, 20);
        lemma_join(rec, 0, 20, 24);
    }

    /// Reads the shape from `rec`, if `rec` is long enough to hold it.
    pub fn parse(rec: &[u8]) -> (out: Option<RecvException>)
        ensures
            out is Some <==> Self::fits(rec@),
            out matches Some(m) ==> m.reads(rec@),
    {
        if rec.len() < Self::SIZE {
            return None;
        }
        Some(
            RecvException {
                header: read_header(rec),
                exception: read_u32(rec, 12),
                send_id: read_u32(rec, 16),
                index: read_u32(rec, 20),
            },
        )
    }
}

/// Reads the header of a record known to hold one.
pub(crate) fn read_header(rec: &[u8]) -> (h: RecvHeader)
    requires
        rec.len() >= 12,
    ensures
        h.reads(rec@),
{
    RecvHeader { size: read_u32(rec, 0), version: read_u32(rec, 4), id: read_u32(rec, 8) }
}

/// The acknowledgement of a newly opened connection.
#[derive(Clone, Debug, PartialEq, Eq)]
pub struct RecvOpen {
    pub header: RecvHeader,
    /// The simulator's name: 256 bytes, ended by a zero byte.
    pub application_name: Vec<u8>,
    pub application_version_major: u32,
    pub application_version_minor: u32,
    pub application_build_major: u32,
    pub application_build_minor: u32,
    pub simconnect_version_major: u32,
    pub simconnect_version_minor: u32,
    pub simconnect_build_major: u32,
    pub simconnect_build_minor: u32,
    pub reserved1: u32,
    pub reserved2: u32,
}

impl RecvOpen {
    /// The number of bytes the shape occupies.
    pub const SIZE: usize = 308;

    /// `rec` is long enough to hold the shape.
    pub open spec fn fits(rec: Seq<u8>) -> bool {
        rec.len() >= 308
    }

    /// This value is what `rec` holds.
    pub open spec fn reads(&self, rec: Seq<u8>) -> bool {
        &&& self.header.reads(rec)
        &&& self.application_name@ == rec.subrange(12, 268)
        &&& self.application_version_major == le_u32(rec, 268)
        &&& self.application_version_minor == le_u32(rec, 272)
        &&& self.application_build_major == le_u32(rec, 276)
        &&& self.application_build_minor == le_u32(rec, 280)
        &&& self.simconnect_version_major == le_u32(rec, 284)
        &&& self.simconnect_version_minor == le_u32(rec, 288)
        &&& self.simconnect_build_major == le_u32(rec, 292)
        &&& self.simconnect_build_minor == le_u32(rec, 296)
        &&& self.reserved1 == le_u32(rec, 300)
        &&& self.reserved2 == le_u32(rec, 304)
    }

    /// The byte image of this value.
    pub open spec fn wire(&self) -> Seq<u8> {
        self.header.wire() + self.application_name@ + u32_le(self.application_version_major)
            + u32_le(self.application_version_minor) + u32_le(self.application_build_major)
            + u32_le(self.application_build_minor) + u32_le(self.simconnect_version_major)
            + u32_le(self.simconnect_version_minor) + u32_le(self.simconnect_build_major)
            + u32_le(self.simconnect_build_minor) + u32_le(self.reserved1) + u32_le(
            self.reserved2,
        )
    }

    /// A value read from a record has the record's first bytes as its
    /// image.
    pub proof fn lemma_wire(&self, rec: Seq<u8>)
        requires
            Self::fits(rec),
            self.reads(rec),
        ensures
            self.wire() == rec.subrange(0, 308),
    {
        self.header.lemma_wire(rec);
        lemma_u32_image(rec, 268);
        lemma_u32_image(rec, 272);
        lemma_u32_image(rec, 276);
        lemma_u32_image(rec, 280);
        lemma_u32_image(rec, 284);
        lemma_u32_image(rec, 288);
        lemma_u32_image(rec, 292);
        lemma_u32_image(rec, 296);
        lemma_u32_image(rec, 300);
        lemma_u32_image(rec, 304);
        lemma_join(rec, 0, 12, 268);
        lemma_join(rec, 0, 268, 272);
        lemma_join(rec, 0, 272, 276);
        lemma_join(rec, 0, 276, 280);
        lemma_join(rec, 0, 280, 284);
        lemma_join(rec, 0, 284, 288);
        lemma_join(rec, 0, 288, 292);
        lemma_join(rec, 0, 292, 296);
        lemma_join(rec, 0, 296, 300);
        lemma_join(rec, 0, 300, 304);
        lemma_join(rec, 0, 304, 308);
    }

    /// Reads the shape from `rec`, if `rec` is long enough to hold it.
    pub fn parse(rec: &[u8]) -> (out: Option<RecvOpen>)
        ensures
            out is Some <==> Self::fits(rec@),
            out matches Some(m) ==> m.reads(rec@),
    {
        if rec.len() < Self::SIZE {
            return None;
        }
        Some(
            RecvOpen {
                header: read_header(rec),
                application_name: read_bytes(rec, 12, 268),
                application_version_major: read_u32(rec, 268),
                application_version_minor: read_u32(rec, 272),
                application_build_major: read_u32(rec, 276),
                application_build_minor: read_u32(rec, 280),
                simconnect_version_major: read_u32(rec, 284),
                simconnect_version_minor: read_u32(rec, 288),
                simconnect_build_major: read_u32(rec, 292),
                simconnect_build_minor: read_u32(rec, 296),
                reserved1: read_u32(rec, 300),
                reserved2: read_u32(rec, 304),
            },
        )
    }
}

/// The identifier given to an object that the client asked to create.
#[derive(Clone, Copy, Debug, PartialEq, Eq)]
pub struct RecvAssignedObjectId {
    pub header: RecvHeader,
    pub request_id: u32,
    pub object_id: u32,
}

impl RecvAssignedObjectId {
    /// The number of bytes the shape occupies.
    pub const SIZE: usize = 20;

    /// `rec` is long enough to hold the shape.
    pub open spec fn fits(rec: Seq<u8>) -> bool {
        rec.len() >= 20
    }

    /// This value is what `rec` holds.
    pub open spec fn reads(&self, rec: Seq<u8>) -> bool {
        &&& self.header.reads(rec)
        &&& self.request_id == le_u32(rec, 12)
        &&& self.object_id == le_u32(rec, 16)
    }

    /// The byte image of this value.
    pub open spec fn wire(&self) -> Seq<u8> {
        self.header.wire() + u32_le(self.request_id) + u32_le(self.object_id)
    }

    /// A value read from a record has the record's first bytes as its
    /// image.
    pub proof fn lemma_wire(&self, rec: Seq<u8>)
        requires
            Self::fits(rec),
            self.reads(rec),
        ensures
            self.wire() == rec.subrange(0, 20),
    {
        self.header.lemma_wire(rec);
        lemma_u32_image(rec, 12);
        lemma_u32_image(rec, 16);
        lemma_join(rec, 0, 12, 16);
        lemma_join(rec, 0, 16, 20);
    }

    /// Reads the shape from `rec`, if `rec` is long enough to hold it.
    pub fn parse(rec: &[u8]) -> (out: Option<RecvAssignedObjectId>)
        ensures
            out is Some <==> Self::fits(rec@),
            out matches Some(m) ==> m.reads(rec@),
    {
        if rec.len() < Self::SIZE {
            return None;
        }
        Some(
            RecvAssignedObjectId {
                header: read_header(rec),
                request_id: read_u32(rec, 12),
                object_id: read_u32(rec, 16),
            },
        )
    }
}

/// The key that was reserved for the client, out of those it proposed.
#[derive(Clone, Debug, PartialEq, Eq)]
pub struct RecvReservedKey {
    pub header: RecvHeader,
    /// The proposal that was taken: 30 bytes, ended by a zero byte.
    pub choice_reserved: Vec<u8>,
    /// The key in readable form: 50 bytes, ended by a zero byte.
    pub reserved_key: Vec<u8>,
}

impl RecvReservedKey {
    /// The number of bytes the shape occupies.
    pub const SIZE: usize = 92;

    /// `rec` is long enough to hold the shape.
    pub open spec fn fits(rec: Seq<u8>) -> bool {
        rec.len() >= 92
    }

    /// This value is what `rec` holds.
    pub open spec fn reads(&self, rec: Seq<u8>) -> bool {
        &&& self.header.reads(rec)
        &&& self.choice_reserved@ == rec.subrange(12, 42)
        &&& self.reserved_key@ == rec.subrange(42, 92)
    }

    /// The byte image of this value.
    pub open spec fn wire(&self) -> Seq<u8> {
        self.header.wire() + self.choice_reserved@ + self.reserved_key@
    }

    /// A value read from a record has the record's first bytes as its
    /// image.
    pub proof fn lemma_wire(&self, rec: Seq<u8>)
        requires
            Self::fits(rec),
            self.reads(rec),
        ensures
            self.wire() == rec.subrange(0, 92),
    {
        self.header.lemma_wire(rec);
        lemma_join(rec, 0, 12, 42);
        lemma_join(rec, 0, 42, 92);
    }

    /// Reads the shape from `rec`, if `rec` is long enough to hold it.
    pub fn parse(rec: &[u8]) -> (out: Option<RecvReservedKey>)
        ensures
            out is Some <==> Self::fits(rec@),
            out matches Some(m) ==> m.reads(rec@),
    {
        if rec.len() < Self::SIZE {
            return None;
        }
        Some(
            RecvReservedKey {
                header: read_header(rec),
                choice_reserved: read_bytes(rec, 12, 42),
                reserved_key: read_bytes(rec, 42, 92),
            },
        )
    }
}

/// The answer to a question about the simulator's state.
#[derive(Clone, Debug, PartialEq, Eq)]
pub struct RecvSystemState {
    pub header: RecvHeader,
    pub request_id: u32,
    /// The answer, where it is a whole number.
    pub integer: u32,
    /// The answer, where it is a single-precision number: its bits.
    pub float_bits: u32,
    /// The answer, where it is text: 260 bytes, ended by a zero byte.
    pub string: Vec<u8>,
}

impl RecvSystemState {
    /// The number of bytes the shape occupies.
    pub const SIZE: usize = 284;

    /// `rec` is long enough to hold the shape.
    pub open spec fn fits(rec: Seq<u8>) -> bool {
        rec.len() >= 284
    }

    /// This value is what `rec` holds.
    pub open spec fn reads(&self, rec: Seq<u8>) -> bool {
        &&& self.header.reads(rec)
        &&& self.request_id == le_u32(rec, 12)
        &&& self.integer == le_u32(rec, 16)
        &&& self.float_bits == le_u32(rec, 20)
        &&& self.string@ == rec.subrange(24, 284)
    }

    /// The byte image of this value.
    pub open spec fn wire(&self) -> Seq<u8> {
        self.header.wire() + u32_le(self.request_id) + u32_le(self.integer) + u32_le(
            self.float_bits,
        ) + self.string@
    }

    /// A value read from a record has the record's first bytes as its
    /// image.
    pub proof fn lemma_wire(&self, rec: Seq<u8>)
        requires
            Self::fits(rec),
            self.reads(rec),
        ensures
            self.wire() == rec.subrange(0, 284),
    {
        self.header.lemma_wire(rec);
        lemma_u32_image(rec, 12);
        lemma_u32_image(rec, 16);
        lemma_u32_image(rec, 20);
        lemma_join(rec, 0, 12, 16);
        lemma_join(rec, 0, 16, 20);
        lemma_join(rec, 0, 20, 24);
        lemma_join(rec, 0, 24, 284);
    }

    /// Reads the shape from `rec`, if `rec` is long enough to hold it.
    pub fn parse(rec: &[u8]) -> (out: Option<RecvSystemState>)
        ensures
            out is Some <==> Self::fits(rec@),
            out matches Some(m) ==> m.reads(rec@),
    {
        if rec.len() < Self::SIZE {
            return None;
        }
        Some(
            RecvSystemState {
                header: read_header(rec),
                request_id: read_u32(rec, 12),
                integer: read_u32(rec, 16),
                float_bits: read_u32(rec, 20),
                string: read_bytes(rec, 24, 284),
            },
        )
    }
}

/// The values of a data definition for one object.
#[derive(Clone, Debug, PartialEq, Eq)]
pub struct RecvSimobjectData {
    pub header: RecvHeader,
    pub request_id: u32,
    pub object_id: u32,
    pub define_id: u32,
    /// The flags the request was made with.
    pub flags: u32,
    /// Where several objects answer one request, the place of this one,
    /// counted from one.
    pub entry_number: u32,
    /// The number of objects that answer the request.
    pub out_of: u32,
    /// The number of values in `data`, not of bytes.
    pub define_count: u32,
    /// The values, as laid out by the data definition: every byte of the
    /// record after the fixed fields.
    pub data: Vec<u8>,
}

impl RecvSimobjectData {
    /// The number of bytes the fixed fields occupy.
    pub const SIZE: usize = 40;

    /// `rec` is long enough to hold the fixed fields.
    pub open spec fn fits(rec: Seq<u8>) -> bool {
        rec.len() >= 40
    }

    /// This value is what `rec` holds.
    pub open spec fn reads(&self, rec: Seq<u8>) -> bool {
        &&& self.header.reads(rec)
        &&& self.request_id == le_u32(rec, 12)
        &&& self.object_id == le_u32(rec, 16)
        &&& self.define_id == le_u32(rec, 20)
        &&& self.flags == le_u32(rec, 24)
        &&& self.entry_number == le_u32(rec, 28)
        &&& self.out_of == le_u32(rec, 32)
        &&& self.define_count == le_u32(rec, 36)
        &&& self.data@ == rec.subrange(40, rec.len() as int)
    }

    /// The byte image of this value.
    pub open spec fn wire(&self) -> Seq<u8> {
        self.header.wire() + u32_le(self.request_id) + u32_le(self.object_id) + u32_le(
            self.define_id,
        ) + u32_le(self.flags) + u32_le(self.entry_number) + u32_le(self.out_of) + u32_le(
            self.define_count,
        ) + self.data@
    }

    /// A value read from a record has the whole record as its image.
    pub proof fn lemma_wire(&self, rec: Seq<u8>)
        requires
            Self::fits(rec),
            self.reads(rec),
        ensures
            self.wire() == rec,
    {
        self.header.lemma_wire(rec);
        lemma_u32_image(rec, 12);
        lemma_u32_image(rec, 16);
        lemma_u32_image(rec, 20);
        lemma_u32_image(rec, 24);
        lemma_u32_image(rec, 28);
        lemma_u32_image(rec, 32);
        lemma_u32_image(rec, 36);
        lemma_join(rec, 0, 12, 16);
        lemma_join(rec, 0, 16, 20);
        lemma_join(rec, 0, 20, 24);
        lemma_join(rec, 0, 24, 28);
        lemma_join(rec, 0, 28, 32);
        lemma_join(rec, 0, 32, 36);
        lemma_join(rec, 0, 36, 40);
        lemma_join(rec, 0, 40, rec.len() as int);
        assert(rec.subrange(0, rec.len() as int) =~= rec);
    }

    /// Reads the shape from `rec`, if `rec` is long enough to hold it.
    pub fn parse(rec: &[u8]) -> (out: Option<RecvSimobjectData>)
        ensures
            out is Some <==> Self::fits(rec@),
            out matches Some(m) ==> m.reads(rec@),
    {
        if rec.len() < Self::SIZE {
            return None;
        }
        Some(
            RecvSimobjectData {
                header: read_header(rec),
                request_id: read_u32(rec, 12),
                object_id: read_u32(rec, 16),
                define_id: read_u32(rec, 20),
                flags: read_u32(rec, 24),
                entry_number: read_u32(rec, 28),
                out_of: read_u32(rec, 32),
                define_count: read_u32(rec, 36),
                data: read_bytes(rec, 40, rec.len()),
            },
        )
    }
}

/// A weather report for a station or a place.
#[derive(Clone, Debug, PartialEq, Eq)]
pub struct RecvWeatherObservation {
    pub header: RecvHeader,
    pub request_id: u32,
    /// The report's text, ended by a zero byte: every byte of the record
    /// after the fixed fields.
    pub metar: Vec<u8>,
}

impl RecvWeatherObservation {
    /// The number of bytes the fixed fields occupy.
    pub const SIZE: usize = 16;

    /// `rec` is long enough to hold the fixed fields.
    pub open spec fn fits(rec: Seq<u8>) -> bool {
        rec.len() >= 16
    }

    /// This value is what `rec` holds.
    pub open spec fn reads(&self, rec: Seq<u8>) -> bool {
        &&& self.header.reads(rec)
        &&& self.request_id == le_u32(rec, 12)
        &&& self.metar@ == rec.subrange(16, rec.len() as int)
    }

    /// The byte image of this value.
    pub open spec fn wire(&self) -> Seq<u8> {
        self.header.wire() + u32_le(self.request_id) + self.metar@
    }

    /// A value read from a record has the whole record as its image.
    pub proof fn lemma_wire(&self, rec: Seq<u8>)
        requires
            Self::fits(rec),
            self.reads(rec),
        ensures
            self.wire() == rec,
    {
        self.header.lemma_wire(rec);
        lemma_u32_image(rec, 12);
        lemma_join(rec, 0, 12, 16);
        lemma_join(rec, 0, 16, rec.len() as int);
        assert(rec.subrange(0, rec.len() as int) =~= rec);
    }

    /// Reads the shape from `rec`, if `rec` is long enough to hold it.
    pub fn parse(rec: &[u8]) -> (out: Option<RecvWeatherObservation>)
        ensures
            out is Some <==> Self::fits(rec@),
            out matches Some(m) ==> m.reads(rec@),
    {
        if rec.len() < Self::SIZE {
            return None;
        }
        Some(
            RecvWeatherObservation {
                header: read_header(rec),
                request_id: read_u32(rec, 12),
                metar: read_bytes(rec, 16, rec.len()),
            },
        )
    }
}

/// The cloud density around a place, one byte for each cell of a grid.
#[derive(Clone, Debug, PartialEq, Eq)]
pub struct RecvCloudState {
    pub header: RecvHeader,
    pub request_id: u32,
    /// The number of cells that the record announces.
    pub array_size: u32,
    /// The cells: as many bytes as `array_size` says.
    pub data: Vec<u8>,
}

impl RecvCloudState {
    /// The number of bytes the fixed fields occupy.
    pub const SIZE: usize = 20;

    /// `rec` holds the fixed fields and every cell that it announces.
    pub open spec fn fits(rec: Seq<u8>) -> bool {
        rec.len() >= 20 && 20 + le_u32(rec, 16) <= rec.len()
    }

    /// This value is what `rec` holds.
    pub open spec fn reads(&self, rec: Seq<u8>) -> bool {
        &&& self.header.reads(rec)
        &&& self.request_id == le_u32(rec, 12)
        &&& self.array_size == le_u32(rec, 16)
        &&& self.data@ == rec.subrange(20, 20 + self.array_size)
    }

    /// The byte image of this value.
    pub open spec fn wire(&self) -> Seq<u8> {
        self.header.wire() + u32_le(self.request_id) + u32_le(self.array_size) + self.data@
    }

    /// A value read from a record has the record's bytes, up to the last
    /// announced cell, as its image.
    pub proof fn lemma_wire(&self, rec: Seq<u8>)
        requires
            Self::fits(rec),
            self.reads(rec),
        ensures
            self.wire() == rec.subrange(0, 20 + self.array_size),
    {
        self.header.lemma_wire(rec);
        lemma_u32_image(rec, 12);
        lemma_u32_image(rec, 16);
        lemma_join(rec, 0, 12, 16);
        lemma_join(rec, 0, 16, 20);
        lemma_join(rec, 0, 20, 20 + self.array_size);
    }

    /// Reads the shape from `rec`, if `rec` holds all that it announces.
    pub fn parse(rec: &[u8]) -> (out: Option<RecvCloudState>)
        ensures
            out is Some <==> Self::fits(rec@),
            out matches Some(m) ==> m.reads(rec@),
    {
        if rec.len() < Self::SIZE {
            return None;
        }
        let array_size: u32 = read_u32(rec, 16);
        if array_size as usize > rec.len() - Self::SIZE {
            return None;
        }
        Some(
            RecvCloudState {
                header: read_header(rec),
                request_id: read_u32(rec, 12),
                array_size,
                data: read_bytes(rec, 20, 20 + array_size as usize),
            },
        )
    }
}

} // verus!

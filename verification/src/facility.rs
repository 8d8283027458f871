//! Lists of facilities: airports, waypoints and radio beacons.
//!
//! A list record holds a fixed part, which says how many entries follow,
//! and then the entries, each of the same size. A list is read only if the
//! record holds every entry that it announces.

use vstd::prelude::*;
use crate::recv::{read_header, RecvHeader};
use crate::wire::{
    le_u32, le_u64, lemma_join, lemma_u32_image, lemma_u64_image, read_bytes, read_u32, read_u64,
    u32_le, u64_le,
};

verus! {

/// An entry of a facility list: a value of fixed size that can be read at
/// any position of a record.
pub trait FacilityEntry: Sized {
    /// The number of bytes an entry occupies.
    spec fn entry_size() -> nat;

    /// This entry is what the bytes of `rec` from `at` hold.
    spec fn reads_at(&self, rec: Seq<u8>, at: int) -> bool;

    /// The byte image of this entry.
    spec fn wire(&self) -> Seq<u8>;

    /// An entry read from a record has the bytes it was read from as its
    /// image.
    proof fn lemma_wire(&self, rec: Seq<u8>, at: int)
        requires
            0 <= at,
            at + Self::entry_size() <= rec.len(),
            self.reads_at(rec, at),
        ensures
            self.wire() == rec.subrange(at, at + Self::entry_size()),
    ;

    /// The number of bytes an entry occupies.
    fn size() -> (n: usize)
        ensures
            n == Self::entry_size(),
    ;

    /// Reads the entry stored at `at`, if the buffer holds a whole entry
    /// there.
    fn read_at(buf: &[u8], at: usize) -> (out: Option<Self>)
        ensures
            out is Some <==> at + Self::entry_size() <= buf@.len(),
            out matches Some(e) ==> e.reads_at(buf@, at as int),
    ;
}

/// Tells whether `buf` holds `size` bytes from `at` on.
fn holds(buf: &[u8], at: usize, size: usize) -> (yes: bool)
    ensures
        yes == (at + size <= buf@.len()),
{
    size <= buf.len() && at <= buf.len() - size
}

/// An airport.
#[derive(Clone, Debug, PartialEq, Eq)]
pub struct FacilityAirport {
    /// The airport's code: nine bytes, ended by a zero byte.
    pub icao: Vec<u8>,
    /// Degrees of latitude, a double-precision number: its bits.
    pub latitude_bits: u64,
    /// Degrees of longitude, a double-precision number: its bits.
    pub longitude_bits: u64,
    /// Metres of altitude, a double-precision number: its bits.
    pub altitude_bits: u64,
}

impl FacilityEntry for FacilityAirport {
    open spec fn entry_size() -> nat {
        33
    }

    open spec fn reads_at(&self, rec: Seq<u8>, at: int) -> bool {
        &&& self.icao@ == rec.subrange(at, at + 9)
        &&& self.latitude_bits == le_u64(rec, at + 9)
        &&& self.longitude_bits == le_u64(rec, at + 17)
        &&& self.altitude_bits == le_u64(rec, at + 25)
    }

    open spec fn wire(&self) -> Seq<u8> {
        self.icao@ + u64_le(self.latitude_bits) + u64_le(self.longitude_bits) + u64_le(
            self.altitude_bits,
        )
    }

    proof fn lemma_wire(&self, rec: Seq<u8>, at: int) {
        lemma_u64_image(rec, at + 9);
        lemma_u64_image(rec, at + 17);
        lemma_u64_image(rec, at + 25);
        lemma_join(rec, at, at + 9, at + 17);
        lemma_join(rec, at, at + 17, at + 25);
        lemma_join(rec, at, at + 25, at + 33);
    }

    fn size() -> (n: usize) {
        33
    }

    fn read_at(buf: &[u8], at: usize) -> (out: Option<FacilityAirport>) {
        if holds(buf, at, 33) {
            Some(FacilityAirport::read(buf, at))
        } else {
            None
        }
    }
}

impl FacilityAirport {
    /// Reads the airport stored at `at`.
    fn read(buf: &[u8], at: usize) -> (e: FacilityAirport)
        requires
            at + 33 <= buf.len(),
        ensures
            e.reads_at(buf@, at as int),
    {
        FacilityAirport {
            icao: read_bytes(buf, at, at + 9),
            latitude_bits: read_u64(buf, at + 9),
            longitude_bits: read_u64(buf, at + 17),
            altitude_bits: read_u64(buf, at + 25),
        }
    }
}

/// A waypoint: a named place, with the magnetic variation there.
#[derive(Clone, Debug, PartialEq, Eq)]
pub struct FacilityWaypoint {
    pub airport: FacilityAirport,
    /// Degrees of magnetic variation, a single-precision number: its bits.
    pub mag_var_bits: u32,
}

impl FacilityEntry for FacilityWaypoint {
    open spec fn entry_size() -> nat {
        37
    }

    open spec fn reads_at(&self, rec: Seq<u8>, at: int) -> bool {
        &&& self.airport.reads_at(rec, at)
        &&& self.mag_var_bits == le_u32(rec, at + 33)
    }

    open spec fn wire(&self) -> Seq<u8> {
        self.airport.wire() + u32_le(self.mag_var_bits)
    }

    proof fn lemma_wire(&self, rec: Seq<u8>, at: int) {
        self.airport.lemma_wire(rec, at);
        lemma_u32_image(rec, at + 33);
        lemma_join(rec, at, at + 33, at + 37);
    }

    fn size() -> (n: usize) {
        37
    }

    fn read_at(buf: &[u8], at: usize) -> (out: Option<FacilityWaypoint>) {
        if holds(buf, at, 37) {
            Some(FacilityWaypoint::read(buf, at))
        } else {
            None
        }
    }
}

impl FacilityWaypoint {
    /// Reads the waypoint stored at `at`.
    fn read(buf: &[u8], at: usize) -> (e: FacilityWaypoint)
        requires
            at + 37 <= buf.len(),
        ensures
            e.reads_at(buf@, at as int),
    {
        FacilityWaypoint {
            airport: FacilityAirport::read(buf, at),
            mag_var_bits: read_u32(buf, at + 33),
        }
    }
}

/// A non-directional beacon.
#[derive(Clone, Debug, PartialEq, Eq)]
pub struct FacilityNdb {
    pub waypoint: FacilityWaypoint,
    /// The beacon's frequency in hertz.
    pub frequency: u32,
}

impl FacilityEntry for FacilityNdb {
    open spec fn entry_size() -> nat {
        41
    }

    open spec fn reads_at(&self, rec: Seq<u8>, at: int) -> bool {
        &&& self.waypoint.reads_at(rec, at)
        &&& self.frequency == le_u32(rec, at + 37)
    }

    open spec fn wire(&self) -> Seq<u8> {
        self.waypoint.wire() + u32_le(self.frequency)
    }

    proof fn lemma_wire(&self, rec: Seq<u8>, at: int) {
        self.waypoint.lemma_wire(rec, at);
        lemma_u32_image(rec, at + 37);
        lemma_join(rec, at, at + 37, at + 41);
    }

    fn size() -> (n: usize) {
        41
    }

    fn read_at(buf: &[u8], at: usize) -> (out: Option<FacilityNdb>) {
        if holds(buf, at, 41) {
            Some(FacilityNdb::read(buf, at))
        } else {
            None
        }
    }
}

impl FacilityNdb {
    /// Reads the beacon stored at `at`.
    fn read(buf: &[u8], at: usize) -> (e: FacilityNdb)
        requires
            at + 41 <= buf.len(),
        ensures
            e.reads_at(buf@, at as int),
    {
        FacilityNdb { waypoint: FacilityWaypoint::read(buf, at), frequency: read_u32(buf, at + 37) }
    }
}

/// An omnidirectional range beacon, with its landing aids where it has any.
#[derive(Clone, Debug, PartialEq, Eq)]
pub struct FacilityVor {
    pub ndb: FacilityNdb,
    /// Which of the fields below are in use.
    pub flags: u32,
    /// Degrees of the localizer, a single-precision number: its bits.
    pub localizer_bits: u32,
    /// Degrees of latitude of the glide slope, a double-precision number:
    /// its bits.
    pub glide_lat_bits: u64,
    /// Degrees of longitude of the glide slope, a double-precision number:
    /// its bits.
    pub glide_lon_bits: u64,
    /// Metres of altitude of the glide slope, a double-precision number:
    /// its bits.
    pub glide_alt_bits: u64,
    /// Degrees of the glide slope, a single-precision number: its bits.
    pub glide_slope_angle_bits: u32,
}

impl FacilityEntry for FacilityVor {
    open spec fn entry_size() -> nat {
        77
    }

    open spec fn reads_at(&self, rec: Seq<u8>, at: int) -> bool {
        &&& self.ndb.reads_at(rec, at)
        &&& self.flags == le_u32(rec, at + 41)
        &&& self.localizer_bits == le_u32(rec, at + 45)
        &&& self.glide_lat_bits == le_u64(rec, at + 49)
        &&& self.glide_lon_bits == le_u64(rec, at + 57)
        &&& self.glide_alt_bits == le_u64(rec, at + 65)
        &&& self.glide_slope_angle_bits == le_u32(rec, at + 73)
    }

    open spec fn wire(&self) -> Seq<u8> {
        self.ndb.wire() + u32_le(self.flags) + u32_le(self.localizer_bits) + u64_le(
            self.glide_lat_bits,
        ) + u64_le(self.glide_lon_bits) + u64_le(self.glide_alt_bits) + u32_le(
            self.glide_slope_angle_bits,
        )
    }

    proof fn lemma_wire(&self, rec: Seq<u8>, at: int) {
        self.ndb.lemma_wire(rec, at);
        lemma_u32_image(rec, at + 41);
        lemma_u32_image(rec, at + 45);
        lemma_u64_image(rec, at + 49);
        lemma_u64_image(rec, at + 57);
        lemma_u64_image(rec, at + 65);
        lemma_u32_image(rec, at + 73);
        lemma_join(rec, at, at + 41, at + 45);
        lemma_join(rec, at, at + 45, at + 49);
        lemma_join(rec, at, at + 49, at + 57);
        lemma_join(rec, at, at + 57, at + 65);
        lemma_join(rec, at, at + 65, at + 73);
        lemma_join(rec, at, at + 73, at + 77);
    }

    fn size() -> (n: usize) {
        77
    }

    fn read_at(buf: &[u8], at: usize) -> (out: Option<FacilityVor>) {
        if holds(buf, at, 77) {
            Some(FacilityVor::read(buf, at))
        } else {
            None
        }
    }
}

impl FacilityVor {
    /// Reads the beacon stored at `at`.
    fn read(buf: &[u8], at: usize) -> (e: FacilityVor)
        requires
            at + 77 <= buf.len(),
        ensures
            e.reads_at(buf@, at as int),
    {
        FacilityVor {
            ndb: FacilityNdb::read(buf, at),
            flags: read_u32(buf, at + 41),
            localizer_bits: read_u32(buf, at + 45),
            glide_lat_bits: read_u64(buf, at + 49),
            glide_lon_bits: read_u64(buf, at + 57),
            glide_alt_bits: read_u64(buf, at + 65),
            glide_slope_angle_bits: read_u32(buf, at + 73),
        }
    }
}

/// The fixed part of a facility list.
#[derive(Clone, Copy, Debug, PartialEq, Eq)]
pub struct RecvFacilitiesList {
    pub header: RecvHeader,
    pub request_id: u32,
    /// The number of entries in this record.
    pub array_size: u32,
    /// Where a list is sent in several records, the place of this one,
    /// counted from zero.
    pub entry_number: u32,
    /// The number of records that the list is sent in.
    pub out_of: u32,
}

impl RecvFacilitiesList {
    /// The number of bytes the fixed part occupies.
    pub const SIZE: usize = 28;

    /// `rec` is long enough to hold the fixed part.
    pub open spec fn fits(rec: Seq<u8>) -> bool {
        rec.len() >= 28
    }

    /// This value is what `rec` holds.
    pub open spec fn reads(&self, rec: Seq<u8>) -> bool {
        &&& self.header.reads(rec)
        &&& self.request_id == le_u32(rec, 12)
        &&& self.array_size == le_u32(rec, 16)
        &&& self.entry_number == le_u32(rec, 20)
        &&& self.out_of == le_u32(rec, 24)
    }

    /// The byte image of this value.
    pub open spec fn wire(&self) -> Seq<u8> {
        self.header.wire() + u32_le(self.request_id) + u32_le(self.array_size) + u32_le(
            self.entry_number,
        ) + u32_le(self.out_of)
    }

    /// A value read from a record has the record's first bytes as its
    /// image.
    pub proof fn lemma_wire(&self, rec: Seq<u8>)
        requires
            Self::fits(rec),
            self.reads(rec),
        ensures
            self.wire() == rec.subrange(0, 28),
    {
        self.header.lemma_wire(rec);
        lemma_u32_image(rec, 12);
        lemma_u32_image(rec, 16);
        lemma_u32_image(rec, 20);
        lemma_u32_image(rec, 24);
        lemma_join(rec, 0, 12, 16);
        lemma_join(rec, 0, 16, 20);
        lemma_join(rec, 0, 20, 24);
        lemma_join(rec, 0, 24, 28);
    }

    /// Reads the fixed part from `rec`, if `rec` is long enough to hold it.
    pub fn parse(rec: &[u8]) -> (out: Option<RecvFacilitiesList>)
        ensures
            out is Some <==> Self::fits(rec@),
            out matches Some(m) ==> m.reads(rec@),
    {
        if rec.len() < Self::SIZE {
            return None;
        }
        Some(
            RecvFacilitiesList {
                header: read_header(rec),
                request_id: read_u32(rec, 12),
                array_size: read_u32(rec, 16),
                entry_number: read_u32(rec, 20),
                out_of: read_u32(rec, 24),
            },
        )
    }
}

/// The byte image of a run of entries: their images, one after another.
pub open spec fn entries_wire<E: FacilityEntry>(entries: Seq<E>) -> Seq<u8>
    decreases entries.len(),
{
    if entries.len() == 0 {
        Seq::empty()
    } else {
        entries_wire(entries.drop_last()) + entries.last().wire()
    }
}

/// `entries` are what `rec` holds from `from` on, one after another.
pub open spec fn entries_read<E: FacilityEntry>(entries: Seq<E>, rec: Seq<u8>, from: int) -> bool {
    forall|i: int|
        0 <= i < entries.len() ==> (#[trigger] entries[i]).reads_at(rec, from + E::entry_size() * i)
}

/// A run of entries read from a record has the bytes it was read from as
/// its image.
pub proof fn lemma_entries_wire<E: FacilityEntry>(entries: Seq<E>, rec: Seq<u8>, from: int)
    requires
        0 <= from,
        from + E::entry_size() * entries.len() <= rec.len(),
        entries_read(entries, rec, from),
    ensures
        entries_wire(entries) == rec.subrange(from, from + E::entry_size() * entries.len()),
    decreases entries.len(),
{
    let size = E::entry_size() as int;
    let n = entries.len() as int;
    if n == 0 {
        assert(size * n == 0);
        assert(rec.subrange(from, from) =~= Seq::<u8>::empty());
    } else {
        let init = entries.drop_last();
        assert(size * n == size * (n - 1) + size) by (nonlinear_arith);
        assert(0 <= size * (n - 1)) by (nonlinear_arith)
            requires
                0 <= size,
                1 <= n,
        ;
        assert forall|i: int| 0 <= i < init.len() implies (#[trigger] init[i]).reads_at(
            rec,
            from + E::entry_size() * i,
        ) by {
            assert(init[i] == entries[i]);
        }
        lemma_entries_wire(init, rec, from);
        assert(entries.last() == entries[n - 1]);
        entries.last().lemma_wire(rec, from + size * (n - 1));
        lemma_join(rec, from, from + size * (n - 1), from + size * n);
    }
}

/// A list of facilities of one kind.
#[derive(Clone, Debug, PartialEq, Eq)]
pub struct RecvFacilityList<E> {
    pub list: RecvFacilitiesList,
    /// The entries: as many as `list.array_size` says.
    pub entries: Vec<E>,
}

impl<E: FacilityEntry> RecvFacilityList<E> {
    /// `rec` holds the fixed part and every entry that it announces.
    pub open spec fn fits(rec: Seq<u8>) -> bool {
        rec.len() >= 28 && 28 + E::entry_size() * le_u32(rec, 16) <= rec.len()
    }

    /// This value is what `rec` holds.
    pub open spec fn reads(&self, rec: Seq<u8>) -> bool {
        &&& self.list.reads(rec)
        &&& self.entries@.len() == self.list.array_size
        &&& entries_read(self.entries@, rec, 28)
    }

    /// The byte image of this value.
    pub open spec fn wire(&self) -> Seq<u8> {
        self.list.wire() + entries_wire(self.entries@)
    }

    /// A value read from a record has the record's bytes, up to the last
    /// announced entry, as its image.
    pub proof fn lemma_wire(&self, rec: Seq<u8>)
        requires
            Self::fits(rec),
            self.reads(rec),
        ensures
            self.wire() == rec.subrange(0, 28 + E::entry_size() * self.list.array_size),
    {
        let size = E::entry_size() as int;
        let n = self.list.array_size as int;
        assert(0 <= size * n) by (nonlinear_arith)
            requires
                0 <= size,
                0 <= n,
        ;
        self.list.lemma_wire(rec);
        lemma_entries_wire(self.entries@, rec, 28);
        lemma_join(rec, 0, 28, 28 + size * n);
    }

    /// Reads the list from `rec`, if `rec` holds all that it announces.
    pub fn parse(rec: &[u8]) -> (out: Option<RecvFacilityList<E>>)
        ensures
            out is Some <==> Self::fits(rec@),
            out matches Some(m) ==> m.reads(rec@),
    {
        let list = match RecvFacilitiesList::parse(rec) {
            Some(list) => list,
            None => {
                return None;
            },
        };
        let size: usize = E::size();
        let count: usize = list.array_size as usize;
        let room: usize = rec.len() - RecvFacilitiesList::SIZE;
        let needed: usize = match count.checked_mul(size) {
            Some(needed) => needed,
            None => {
                return None;
            },
        };
        if needed > room {
            return None;
        }
        let mut entries: Vec<E> = Vec::new();
        let mut i: usize = 0;
        let mut at: usize = RecvFacilitiesList::SIZE;
        while i < count
            invariant
                i <= count,
                size == E::entry_size(),
                at == 28 + size * i,
                28 + size * count <= rec.len(),
                entries@.len() == i,
                entries_read(entries@, rec@, 28),
            decreases count - i,
        {
            assert(size * (i + 1) == size * i + size) by (nonlinear_arith);
            assert(size * (i + 1) <= size * count) by (nonlinear_arith)
                requires
                    i + 1 <= count,
                    0 <= size,
            ;
            let entry = match E::read_at(rec, at) {
                Some(entry) => entry,
                None => {
                    return None;
                },
            };
            let ghost before = entries@;
            entries.push(entry);
            assert forall|j: int| 0 <= j < entries@.len() implies (#[trigger] entries@[j]).reads_at(
                rec@,
                28 + E::entry_size() * j,
            ) by {
                if j < i {
                    assert(entries@[j] == before[j]);
                }
            }
            i = i + 1;
            at = at + size;
        }
        Some(RecvFacilityList { list, entries })
    }
}

} // verus!

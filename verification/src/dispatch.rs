//! Decoding of the buffer that a poll of the connection library returns.
//!
//! The buffer holds one record and starts with the record's header. The
//! header's identifier selects the record's shape. A record is decoded
//! only if the buffer is long enough for the shape and for every entry
//! that the record announces; nothing is read on trust.

use vstd::prelude::*;
use crate::constants::{
    SIMCONNECT_RECV_ID_AIRPORT_LIST, SIMCONNECT_RECV_ID_ASSIGNED_OBJECT_ID,
    SIMCONNECT_RECV_ID_CLIENT_DATA, SIMCONNECT_RECV_ID_CLOUD_STATE,
    SIMCONNECT_RECV_ID_CUSTOM_ACTION, SIMCONNECT_RECV_ID_EVENT,
    SIMCONNECT_RECV_ID_EVENT_FILENAME, SIMCONNECT_RECV_ID_EVENT_FRAME,
    SIMCONNECT_RECV_ID_EVENT_MULTIPLAYER_CLIENT_STARTED,
    SIMCONNECT_RECV_ID_EVENT_MULTIPLAYER_SERVER_STARTED,
    SIMCONNECT_RECV_ID_EVENT_MULTIPLAYER_SESSION_ENDED,
    SIMCONNECT_RECV_ID_EVENT_OBJECT_ADDREMOVE, SIMCONNECT_RECV_ID_EVENT_RACE_END,
    SIMCONNECT_RECV_ID_EVENT_RACE_LAP, SIMCONNECT_RECV_ID_EVENT_WEATHER_MODE,
    SIMCONNECT_RECV_ID_EXCEPTION, SIMCONNECT_RECV_ID_NDB_LIST, SIMCONNECT_RECV_ID_NULL,
    SIMCONNECT_RECV_ID_OPEN, SIMCONNECT_RECV_ID_QUIT, SIMCONNECT_RECV_ID_RESERVED_KEY,
    SIMCONNECT_RECV_ID_SIMOBJECT_DATA, SIMCONNECT_RECV_ID_SIMOBJECT_DATA_BYTYPE,
    SIMCONNECT_RECV_ID_SYSTEM_STATE, SIMCONNECT_RECV_ID_VOR_LIST,
    SIMCONNECT_RECV_ID_WAYPOINT_LIST, SIMCONNECT_RECV_ID_WEATHER_OBSERVATION,
};
use crate::event::{
    RecvCustomAction, RecvEvent, RecvEventFilename, RecvEventFrame, RecvEventObjectAddRemove,
    RecvEventRace,
};
use crate::facility::{
    FacilityAirport, FacilityEntry, FacilityNdb, FacilityVor, FacilityWaypoint, RecvFacilityList,
};
use crate::recv::{
    RecvAssignedObjectId, RecvCloudState, RecvException, RecvHeader, RecvOpen, RecvReservedKey,
    RecvSimobjectData, RecvSystemState, RecvWeatherObservation,
};
use crate::wire::{le_u32, read_u32};

verus! {

/// A message from the simulator, by its kind.
#[derive(Clone, Debug, PartialEq, Eq)]
pub enum DispatchResult {
    /// No message was waiting.
    Null,
    Exception(RecvException),
    Open(RecvOpen),
    Quit(RecvHeader),
    Event(RecvEvent),
    EventObjectAddRemove(RecvEventObjectAddRemove),
    EventFilename(RecvEventFilename),
    EventFrame(RecvEventFrame),
    SimobjectData(RecvSimobjectData),
    SimobjectDataBytype(RecvSimobjectData),
    WeatherObservation(RecvWeatherObservation),
    CloudState(RecvCloudState),
    AssignedObjectId(RecvAssignedObjectId),
    ReservedKey(RecvReservedKey),
    CustomAction(RecvCustomAction),
    SystemState(RecvSystemState),
    ClientData(RecvSimobjectData),
    EventWeatherMode(RecvEvent),
    AirportList(RecvFacilityList<FacilityAirport>),
    VorList(RecvFacilityList<FacilityVor>),
    NdbList(RecvFacilityList<FacilityNdb>),
    WaypointList(RecvFacilityList<FacilityWaypoint>),
    EventMultiplayerServerStarted(RecvEvent),
    EventMultiplayerClientStarted(RecvEvent),
    EventMultiplayerSessionEnded(RecvEvent),
    EventRaceEnd(RecvEventRace),
    EventRaceLap(RecvEventRace),
}

/// Why a poll gave no message.
#[derive(Clone, Copy, Debug, PartialEq, Eq, Structural)]
pub enum DispatchError {
    /// The connection library reported that the poll failed.
    CallFailed,
    /// The record's identifier is none of those that this library decodes.
    UnhandledRecvId,
    /// The buffer is too short for a header, for the record that the header
    /// announces, or for the record's shape.
    Truncated,
}

impl DispatchError {
    /// A short description of the error.
    pub fn message(&self) -> (text: &'static str)
        ensures
            text@ == match *self {
                DispatchError::CallFailed => "Failed getting data!"@,
                DispatchError::UnhandledRecvId => "Unhandled RECV_ID"@,
                DispatchError::Truncated => "Truncated record"@,
            },
    {
        match self {
            DispatchError::CallFailed => "Failed getting data!",
            DispatchError::UnhandledRecvId => "Unhandled RECV_ID",
            DispatchError::Truncated => "Truncated record",
        }
    }
}

/// The identifier is one of those that this library decodes.
pub open spec fn is_supported_id(id: u32) -> bool {
    id <= SIMCONNECT_RECV_ID_EVENT_RACE_LAP
}

/// A record with identifier `id` is long enough for its shape, and holds
/// every entry that it announces.
pub open spec fn shape_fits(id: u32, rec: Seq<u8>) -> bool {
    if id == SIMCONNECT_RECV_ID_NULL || id == SIMCONNECT_RECV_ID_QUIT {
        RecvHeader::fits(rec)
    } else if id == SIMCONNECT_RECV_ID_EXCEPTION {
        RecvException::fits(rec)
    } else if id == SIMCONNECT_RECV_ID_OPEN {
        RecvOpen::fits(rec)
    } else if id == SIMCONNECT_RECV_ID_EVENT || id == SIMCONNECT_RECV_ID_EVENT_WEATHER_MODE || id
        == SIMCONNECT_RECV_ID_EVENT_MULTIPLAYER_SERVER_STARTED || id
        == SIMCONNECT_RECV_ID_EVENT_MULTIPLAYER_CLIENT_STARTED || id
        == SIMCONNECT_RECV_ID_EVENT_MULTIPLAYER_SESSION_ENDED {
        RecvEvent::fits(rec)
    } else if id == SIMCONNECT_RECV_ID_EVENT_OBJECT_ADDREMOVE {
        RecvEventObjectAddRemove::fits(rec)
    } else if id == SIMCONNECT_RECV_ID_EVENT_FILENAME {
        RecvEventFilename::fits(rec)
    } else if id == SIMCONNECT_RECV_ID_EVENT_FRAME {
        RecvEventFrame::fits(rec)
    } else if id == SIMCONNECT_RECV_ID_SIMOBJECT_DATA || id
        == SIMCONNECT_RECV_ID_SIMOBJECT_DATA_BYTYPE || id == SIMCONNECT_RECV_ID_CLIENT_DATA {
        RecvSimobjectData::fits(rec)
    } else if id == SIMCONNECT_RECV_ID_WEATHER_OBSERVATION {
        RecvWeatherObservation::fits(rec)
    } else if id == SIMCONNECT_RECV_ID_CLOUD_STATE {
        RecvCloudState::fits(rec)
    } else if id == SIMCONNECT_RECV_ID_ASSIGNED_OBJECT_ID {
        RecvAssignedObjectId::fits(rec)
    } else if id == SIMCONNECT_RECV_ID_RESERVED_KEY {
        RecvReservedKey::fits(rec)
    } else if id == SIMCONNECT_RECV_ID_CUSTOM_ACTION {
        RecvCustomAction::fits(rec)
    } else if id == SIMCONNECT_RECV_ID_SYSTEM_STATE {
        RecvSystemState::fits(rec)
    } else if id == SIMCONNECT_RECV_ID_AIRPORT_LIST {
        RecvFacilityList::<FacilityAirport>::fits(rec)
    } else if id == SIMCONNECT_RECV_ID_VOR_LIST {
        RecvFacilityList::<FacilityVor>::fits(rec)
    } else if id == SIMCONNECT_RECV_ID_NDB_LIST {
        RecvFacilityList::<FacilityNdb>::fits(rec)
    } else if id == SIMCONNECT_RECV_ID_WAYPOINT_LIST {
        RecvFacilityList::<FacilityWaypoint>::fits(rec)
    } else if id == SIMCONNECT_RECV_ID_EVENT_RACE_END || id == SIMCONNECT_RECV_ID_EVENT_RACE_LAP {
        RecvEventRace::fits(rec)
    } else {
        false
    }
}

impl DispatchResult {
    /// The record identifier that this kind of message is sent under.
    pub open spec fn recv_id(&self) -> u32 {
        match self {
            DispatchResult::Null => SIMCONNECT_RECV_ID_NULL,
            DispatchResult::Exception(_) => SIMCONNECT_RECV_ID_EXCEPTION,
            DispatchResult::Open(_) => SIMCONNECT_RECV_ID_OPEN,
            DispatchResult::Quit(_) => SIMCONNECT_RECV_ID_QUIT,
            DispatchResult::Event(_) => SIMCONNECT_RECV_ID_EVENT,
            DispatchResult::EventObjectAddRemove(_) => SIMCONNECT_RECV_ID_EVENT_OBJECT_ADDREMOVE,
            DispatchResult::EventFilename(_) => SIMCONNECT_RECV_ID_EVENT_FILENAME,
            DispatchResult::EventFrame(_) => SIMCONNECT_RECV_ID_EVENT_FRAME,
            DispatchResult::SimobjectData(_) => SIMCONNECT_RECV_ID_SIMOBJECT_DATA,
            DispatchResult::SimobjectDataBytype(_) => SIMCONNECT_RECV_ID_SIMOBJECT_DATA_BYTYPE,
            DispatchResult::WeatherObservation(_) => SIMCONNECT_RECV_ID_WEATHER_OBSERVATION,
            DispatchResult::CloudState(_) => SIMCONNECT_RECV_ID_CLOUD_STATE,
            DispatchResult::AssignedObjectId(_) => SIMCONNECT_RECV_ID_ASSIGNED_OBJECT_ID,
            DispatchResult::ReservedKey(_) => SIMCONNECT_RECV_ID_RESERVED_KEY,
            DispatchResult::CustomAction(_) => SIMCONNECT_RECV_ID_CUSTOM_ACTION,
            DispatchResult::SystemState(_) => SIMCONNECT_RECV_ID_SYSTEM_STATE,
            DispatchResult::ClientData(_) => SIMCONNECT_RECV_ID_CLIENT_DATA,
            DispatchResult::EventWeatherMode(_) => SIMCONNECT_RECV_ID_EVENT_WEATHER_MODE,
            DispatchResult::AirportList(_) => SIMCONNECT_RECV_ID_AIRPORT_LIST,
            DispatchResult::VorList(_) => SIMCONNECT_RECV_ID_VOR_LIST,
            DispatchResult::NdbList(_) => SIMCONNECT_RECV_ID_NDB_LIST,
            DispatchResult::WaypointList(_) => SIMCONNECT_RECV_ID_WAYPOINT_LIST,
            DispatchResult::EventMultiplayerServerStarted(_) =>
                SIMCONNECT_RECV_ID_EVENT_MULTIPLAYER_SERVER_STARTED,
            DispatchResult::EventMultiplayerClientStarted(_) =>
                SIMCONNECT_RECV_ID_EVENT_MULTIPLAYER_CLIENT_STARTED,
            DispatchResult::EventMultiplayerSessionEnded(_) =>
                SIMCONNECT_RECV_ID_EVENT_MULTIPLAYER_SESSION_ENDED,
            DispatchResult::EventRaceEnd(_) => SIMCONNECT_RECV_ID_EVENT_RACE_END,
            DispatchResult::EventRaceLap(_) => SIMCONNECT_RECV_ID_EVENT_RACE_LAP,
        }
    }

    /// Every field of this message is what `rec` holds at the field's
    /// place. Of a message without fields this says nothing.
    pub open spec fn reads(&self, rec: Seq<u8>) -> bool {
        match self {
            DispatchResult::Null => true,
            DispatchResult::Exception(m) => m.reads(rec),
            DispatchResult::Open(m) => m.reads(rec),
            DispatchResult::Quit(m) => m.reads(rec),
            DispatchResult::Event(m) => m.reads(rec),
            DispatchResult::EventObjectAddRemove(m) => m.reads(rec),
            DispatchResult::EventFilename(m) => m.reads(rec),
            DispatchResult::EventFrame(m) => m.reads(rec),
            DispatchResult::SimobjectData(m) => m.reads(rec),
            DispatchResult::SimobjectDataBytype(m) => m.reads(rec),
            DispatchResult::WeatherObservation(m) => m.reads(rec),
            DispatchResult::CloudState(m) => m.reads(rec),
            DispatchResult::AssignedObjectId(m) => m.reads(rec),
            DispatchResult::ReservedKey(m) => m.reads(rec),
            DispatchResult::CustomAction(m) => m.reads(rec),
            DispatchResult::SystemState(m) => m.reads(rec),
            DispatchResult::ClientData(m) => m.reads(rec),
            DispatchResult::EventWeatherMode(m) => m.reads(rec),
            DispatchResult::AirportList(m) => m.reads(rec),
            DispatchResult::VorList(m) => m.reads(rec),
            DispatchResult::NdbList(m) => m.reads(rec),
            DispatchResult::WaypointList(m) => m.reads(rec),
            DispatchResult::EventMultiplayerServerStarted(m) => m.reads(rec),
            DispatchResult::EventMultiplayerClientStarted(m) => m.reads(rec),
            DispatchResult::EventMultiplayerSessionEnded(m) => m.reads(rec),
            DispatchResult::EventRaceEnd(m) => m.reads(rec),
            DispatchResult::EventRaceLap(m) => m.reads(rec),
        }
    }

    /// The byte image of this message: the images of its fields, one after
    /// another. A message without fields has the empty image.
    pub open spec fn wire(&self) -> Seq<u8> {
        match self {
            DispatchResult::Null => Seq::empty(),
            DispatchResult::Exception(m) => m.wire(),
            DispatchResult::Open(m) => m.wire(),
            DispatchResult::Quit(m) => m.wire(),
            DispatchResult::Event(m) => m.wire(),
            DispatchResult::EventObjectAddRemove(m) => m.wire(),
            DispatchResult::EventFilename(m) => m.wire(),
            DispatchResult::EventFrame(m) => m.wire(),
            DispatchResult::SimobjectData(m) => m.wire(),
            DispatchResult::SimobjectDataBytype(m) => m.wire(),
            DispatchResult::WeatherObservation(m) => m.wire(),
            DispatchResult::CloudState(m) => m.wire(),
            DispatchResult::AssignedObjectId(m) => m.wire(),
            DispatchResult::ReservedKey(m) => m.wire(),
            DispatchResult::CustomAction(m) => m.wire(),
            DispatchResult::SystemState(m) => m.wire(),
            DispatchResult::ClientData(m) => m.wire(),
            DispatchResult::EventWeatherMode(m) => m.wire(),
            DispatchResult::AirportList(m) => m.wire(),
            DispatchResult::VorList(m) => m.wire(),
            DispatchResult::NdbList(m) => m.wire(),
            DispatchResult::WaypointList(m) => m.wire(),
            DispatchResult::EventMultiplayerServerStarted(m) => m.wire(),
            DispatchResult::EventMultiplayerClientStarted(m) => m.wire(),
            DispatchResult::EventMultiplayerSessionEnded(m) => m.wire(),
            DispatchResult::EventRaceEnd(m) => m.wire(),
            DispatchResult::EventRaceLap(m) => m.wire(),
        }
    }
}

/// The number of bytes that the fields of fixed size take up in a record
/// with identifier `id`.
pub open spec fn fixed_size(id: u32) -> nat {
    if id == SIMCONNECT_RECV_ID_NULL || id == SIMCONNECT_RECV_ID_QUIT {
        12
    } else if id == SIMCONNECT_RECV_ID_EXCEPTION {
        24
    } else if id == SIMCONNECT_RECV_ID_OPEN {
        308
    } else if id == SIMCONNECT_RECV_ID_EVENT || id == SIMCONNECT_RECV_ID_EVENT_WEATHER_MODE || id
        == SIMCONNECT_RECV_ID_EVENT_MULTIPLAYER_SERVER_STARTED || id
        == SIMCONNECT_RECV_ID_EVENT_MULTIPLAYER_CLIENT_STARTED || id
        == SIMCONNECT_RECV_ID_EVENT_MULTIPLAYER_SESSION_ENDED {
        24
    } else if id == SIMCONNECT_RECV_ID_EVENT_OBJECT_ADDREMOVE {
        28
    } else if id == SIMCONNECT_RECV_ID_EVENT_FILENAME {
        288
    } else if id == SIMCONNECT_RECV_ID_EVENT_FRAME {
        32
    } else if id == SIMCONNECT_RECV_ID_SIMOBJECT_DATA || id
        == SIMCONNECT_RECV_ID_SIMOBJECT_DATA_BYTYPE || id == SIMCONNECT_RECV_ID_CLIENT_DATA {
        40
    } else if id == SIMCONNECT_RECV_ID_WEATHER_OBSERVATION {
        16
    } else if id == SIMCONNECT_RECV_ID_CLOUD_STATE || id == SIMCONNECT_RECV_ID_ASSIGNED_OBJECT_ID {
        20
    } else if id == SIMCONNECT_RECV_ID_RESERVED_KEY {
        92
    } else if id == SIMCONNECT_RECV_ID_CUSTOM_ACTION {
        44
    } else if id == SIMCONNECT_RECV_ID_SYSTEM_STATE {
        284
    } else if id == SIMCONNECT_RECV_ID_AIRPORT_LIST || id == SIMCONNECT_RECV_ID_VOR_LIST || id
        == SIMCONNECT_RECV_ID_NDB_LIST || id == SIMCONNECT_RECV_ID_WAYPOINT_LIST {
        28
    } else if id == SIMCONNECT_RECV_ID_EVENT_RACE_END || id == SIMCONNECT_RECV_ID_EVENT_RACE_LAP {
        1108
    } else {
        0
    }
}

/// The number of bytes that the entries take up which a record with
/// identifier `id` announces in its count field: the cells of a cloud
/// state, the entries of a facility list. Other records announce none.
pub open spec fn announced_size(id: u32, rec: Seq<u8>) -> nat {
    if id == SIMCONNECT_RECV_ID_CLOUD_STATE {
        le_u32(rec, 16) as nat
    } else if id == SIMCONNECT_RECV_ID_AIRPORT_LIST {
        33 * (le_u32(rec, 16) as nat)
    } else if id == SIMCONNECT_RECV_ID_VOR_LIST {
        77 * (le_u32(rec, 16) as nat)
    } else if id == SIMCONNECT_RECV_ID_NDB_LIST {
        41 * (le_u32(rec, 16) as nat)
    } else if id == SIMCONNECT_RECV_ID_WAYPOINT_LIST {
        37 * (le_u32(rec, 16) as nat)
    } else {
        0
    }
}

/// A record fits its shape exactly if its identifier is supported and it
/// is as long as the fields of fixed size and the announced entries
/// together.
pub proof fn lemma_shape_fits(id: u32, rec: Seq<u8>)
    ensures
        shape_fits(id, rec) <==> is_supported_id(id) && rec.len() >= fixed_size(id)
            + announced_size(id, rec),
{
}

/// The buffer holds a whole record of a supported kind: a header, and all
/// that the shape asks for which the header's identifier selects.
pub open spec fn holds_record(buf: Seq<u8>) -> bool {
    buf.len() >= 12 && shape_fits(le_u32(buf, 8), buf)
}

/// The error that a poll ends in, if it ends in one. `code` is what the
/// connection library returned from the poll, zero for success, and `buf`
/// the buffer it handed out.
pub open spec fn decode_failure(code: i32, buf: Seq<u8>) -> Option<DispatchError> {
    if code != 0 {
        Some(DispatchError::CallFailed)
    } else if buf.len() < 12 {
        Some(DispatchError::Truncated)
    } else if !is_supported_id(le_u32(buf, 8)) {
        Some(DispatchError::UnhandledRecvId)
    } else if !shape_fits(le_u32(buf, 8), buf) {
        Some(DispatchError::Truncated)
    } else {
        None
    }
}

/// Round trip: a message whose fields were read from a record has the
/// record's bytes as its image, from the first byte to the last that the
/// message covers. Unless the message is empty, it covers every field of
/// fixed size and every announced entry.
pub proof fn lemma_image(msg: DispatchResult, rec: Seq<u8>)
    requires
        shape_fits(msg.recv_id(), rec),
        msg.reads(rec),
    ensures
        msg.wire().len() <= rec.len(),
        msg.wire() == rec.subrange(0, msg.wire().len() as int),
        msg !is Null ==> msg.wire().len() >= fixed_size(msg.recv_id()) + announced_size(
            msg.recv_id(),
            rec,
        ),
{
    match msg {
        DispatchResult::Null => {
            assert(rec.subrange(0, 0) =~= Seq::<u8>::empty());
        },
        DispatchResult::Exception(m) => {
            m.lemma_wire(rec);
        },
        DispatchResult::Open(m) => {
            m.lemma_wire(rec);
        },
        DispatchResult::Quit(m) => {
            m.lemma_wire(rec);
        },
        DispatchResult::Event(m) => {
            m.lemma_wire(rec);
        },
        DispatchResult::EventObjectAddRemove(m) => {
            m.lemma_wire(rec);
        },
        DispatchResult::EventFilename(m) => {
            m.lemma_wire(rec);
        },
        DispatchResult::EventFrame(m) => {
            m.lemma_wire(rec);
        },
        DispatchResult::SimobjectData(m) => {
            m.lemma_wire(rec);
        },
        DispatchResult::SimobjectDataBytype(m) => {
            m.lemma_wire(rec);
        },
        DispatchResult::WeatherObservation(m) => {
            m.lemma_wire(rec);
        },
        DispatchResult::CloudState(m) => {
            m.lemma_wire(rec);
        },
        DispatchResult::AssignedObjectId(m) => {
            m.lemma_wire(rec);
        },
        DispatchResult::ReservedKey(m) => {
            m.lemma_wire(rec);
        },
        DispatchResult::CustomAction(m) => {
            m.lemma_wire(rec);
        },
        DispatchResult::SystemState(m) => {
            m.lemma_wire(rec);
        },
        DispatchResult::ClientData(m) => {
            m.lemma_wire(rec);
        },
        DispatchResult::EventWeatherMode(m) => {
            m.lemma_wire(rec);
        },
        DispatchResult::AirportList(m) => {
            m.lemma_wire(rec);
        },
        DispatchResult::VorList(m) => {
            m.lemma_wire(rec);
        },
        DispatchResult::NdbList(m) => {
            m.lemma_wire(rec);
        },
        DispatchResult::WaypointList(m) => {
            m.lemma_wire(rec);
        },
        DispatchResult::EventMultiplayerServerStarted(m) => {
            m.lemma_wire(rec);
        },
        DispatchResult::EventMultiplayerClientStarted(m) => {
            m.lemma_wire(rec);
        },
        DispatchResult::EventMultiplayerSessionEnded(m) => {
            m.lemma_wire(rec);
        },
        DispatchResult::EventRaceEnd(m) => {
            m.lemma_wire(rec);
        },
        DispatchResult::EventRaceLap(m) => {
            m.lemma_wire(rec);
        },
    }
    let n = msg.wire().len() as int;
    if n == rec.len() {
        assert(rec.subrange(0, n) =~= rec);
    }
}

/// A poll that succeeded never ends in an error if the buffer holds a
/// header with a supported identifier and is as long as the fields of
/// fixed size and the announced entries of that kind of record together.
pub proof fn lemma_supported_record_decodes(buf: Seq<u8>)
    requires
        is_supported_id(le_u32(buf, 8)),
        buf.len() >= fixed_size(le_u32(buf, 8)) + announced_size(le_u32(buf, 8), buf),
    ensures
        holds_record(buf),
        decode_failure(0, buf) is None,
{
    lemma_shape_fits(le_u32(buf, 8), buf);
}

/// A record whose identifier is not supported always ends in the error
/// kept for it, whatever else the buffer holds.
pub proof fn lemma_unsupported_id_fails(buf: Seq<u8>)
    requires
        buf.len() >= 12,
        !is_supported_id(le_u32(buf, 8)),
    ensures
        decode_failure(0, buf) == Some(DispatchError::UnhandledRecvId),
{
}

/// Decodes what a poll of the connection library returned.
///
/// `code` is the library's return value, zero for success; `buf` holds
/// the bytes that it handed out, which are no longer needed once this
/// function returns. The result is an error exactly where
/// `decode_failure` names one. Otherwise it is the message whose kind the
/// header's identifier selects, with every field read from its place in
/// the buffer: the message's image is the buffer's bytes, from the first
/// to the last that the message covers, and unless the message is empty
/// it covers every field of fixed size and every announced entry.
pub fn decode_message(code: i32, buf: &[u8]) -> (r: Result<DispatchResult, DispatchError>)
    ensures
        match r {
            Ok(msg) => {
                &&& decode_failure(code, buf@) is None
                &&& msg.recv_id() == le_u32(buf@, 8)
                &&& msg.reads(buf@)
                &&& msg.wire() == buf@.subrange(0, msg.wire().len() as int)
                &&& forall|i: int| 0 <= i < msg.wire().len() ==> #[trigger] msg.wire()[i] == buf@[i]
                &&& msg !is Null ==> msg.wire().len() >= fixed_size(msg.recv_id())
                    + announced_size(msg.recv_id(), buf@)
            },
            Err(e) => decode_failure(code, buf@) == Some(e),
        },
{
    if code != 0 {
        return Err(DispatchError::CallFailed);
    }
    if buf.len() < RecvHeader::SIZE {
        return Err(DispatchError::Truncated);
    }
    let r = decode_record(read_u32(buf, 8), buf);
    proof {
        if r is Ok {
            lemma_image(r->Ok_0, buf@);
        }
    }
    r
}

/// Decodes a record whose identifier is known.
///
/// `rec` holds the record's bytes and nothing after them. The result is
/// the message of the kind that `id` selects, read from `rec`, if `id` is
/// supported and `rec` holds all that the shape asks for.
pub fn decode_record(id: u32, rec: &[u8]) -> (r: Result<DispatchResult, DispatchError>)
    ensures
        match r {
            Ok(msg) => shape_fits(id, rec@) && msg.recv_id() == id && msg.reads(rec@),
            Err(DispatchError::UnhandledRecvId) => !is_supported_id(id),
            Err(DispatchError::Truncated) => is_supported_id(id) && !shape_fits(id, rec@),
            Err(DispatchError::CallFailed) => false,
        },
{
    if id == SIMCONNECT_RECV_ID_NULL {
        match RecvHeader::parse(rec) {
            Some(_) => Ok(DispatchResult::Null),
            None => Err(DispatchError::Truncated),
        }
    } else if id == SIMCONNECT_RECV_ID_EXCEPTION {
        match RecvException::parse(rec) {
            Some(m) => Ok(DispatchResult::Exception(m)),
            None => Err(DispatchError::Truncated),
        }
    } else if id == SIMCONNECT_RECV_ID_OPEN {
        match RecvOpen::parse(rec) {
            Some(m) => Ok(DispatchResult::Open(m)),
            None => Err(DispatchError::Truncated),
        }
    } else if id == SIMCONNECT_RECV_ID_QUIT {
        match RecvHeader::parse(rec) {
            Some(m) => Ok(DispatchResult::Quit(m)),
            None => Err(DispatchError::Truncated),
        }
    } else if id == SIMCONNECT_RECV_ID_EVENT {
        match RecvEvent::parse(rec) {
            Some(m) => Ok(DispatchResult::Event(m)),
            None => Err(DispatchError::Truncated),
        }
    } else if id == SIMCONNECT_RECV_ID_EVENT_OBJECT_ADDREMOVE {
        match RecvEventObjectAddRemove::parse(rec) {
            Some(m) => Ok(DispatchResult::EventObjectAddRemove(m)),
            None => Err(DispatchError::Truncated),
        }
    } else if id == SIMCONNECT_RECV_ID_EVENT_FILENAME {
        match RecvEventFilename::parse(rec) {
            Some(m) => Ok(DispatchResult::EventFilename(m)),
            None => Err(DispatchError::Truncated),
        }
    } else if id == SIMCONNECT_RECV_ID_EVENT_FRAME {
        match RecvEventFrame::parse(rec) {
            Some(m) => Ok(DispatchResult::EventFrame(m)),
            None => Err(DispatchError::Truncated),
        }
    } else if id == SIMCONNECT_RECV_ID_SIMOBJECT_DATA {
        match RecvSimobjectData::parse(rec) {
            Some(m) => Ok(DispatchResult::SimobjectData(m)),
            None => Err(DispatchError::Truncated),
        }
    } else if id == SIMCONNECT_RECV_ID_SIMOBJECT_DATA_BYTYPE {
        match RecvSimobjectData::parse(rec) {
            Some(m) => Ok(DispatchResult::SimobjectDataBytype(m)),
            None => Err(DispatchError::Truncated),
        }
    } else if id == SIMCONNECT_RECV_ID_WEATHER_OBSERVATION {
        match RecvWeatherObservation::parse(rec) {
            Some(m) => Ok(DispatchResult::WeatherObservation(m)),
            None => Err(DispatchError::Truncated),
        }
    } else if id == SIMCONNECT_RECV_ID_CLOUD_STATE {
        match RecvCloudState::parse(rec) {
            Some(m) => Ok(DispatchResult::CloudState(m)),
            None => Err(DispatchError::Truncated),
        }
    } else if id == SIMCONNECT_RECV_ID_ASSIGNED_OBJECT_ID {
        match RecvAssignedObjectId::parse(rec) {
            Some(m) => Ok(DispatchResult::AssignedObjectId(m)),
            None => Err(DispatchError::Truncated),
        }
    } else if id == SIMCONNECT_RECV_ID_RESERVED_KEY {
        match RecvReservedKey::parse(rec) {
            Some(m) => Ok(DispatchResult::ReservedKey(m)),
            None => Err(DispatchError::Truncated),
        }
    } else if id == SIMCONNECT_RECV_ID_CUSTOM_ACTION {
        match RecvCustomAction::parse(rec) {
            Some(m) => Ok(DispatchResult::CustomAction(m)),
            None => Err(DispatchError::Truncated),
        }
    } else if id == SIMCONNECT_RECV_ID_SYSTEM_STATE {
        match RecvSystemState::parse(rec) {
            Some(m) => Ok(DispatchResult::SystemState(m)),
            None => Err(DispatchError::Truncated),
        }
    } else if id == SIMCONNECT_RECV_ID_CLIENT_DATA {
        match RecvSimobjectData::parse(rec) {
            Some(m) => Ok(DispatchResult::ClientData(m)),
            None => Err(DispatchError::Truncated),
        }
    } else if id == SIMCONNECT_RECV_ID_EVENT_WEATHER_MODE {
        match RecvEvent::parse(rec) {
            Some(m) => Ok(DispatchResult::EventWeatherMode(m)),
            None => Err(DispatchError::Truncated),
        }
    } else if id == SIMCONNECT_RECV_ID_AIRPORT_LIST {
        match RecvFacilityList::<FacilityAirport>::parse(rec) {
            Some(m) => Ok(DispatchResult::AirportList(m)),
            None => Err(DispatchError::Truncated),
        }
    } else if id == SIMCONNECT_RECV_ID_VOR_LIST {
        match RecvFacilityList::<FacilityVor>::parse(rec) {
            Some(m) => Ok(DispatchResult::VorList(m)),
            None => Err(DispatchError::Truncated),
        }
    } else if id == SIMCONNECT_RECV_ID_NDB_LIST {
        match RecvFacilityList::<FacilityNdb>::parse(rec) {
            Some(m) => Ok(DispatchResult::NdbList(m)),
            None => Err(DispatchError::Truncated),
        }
    } else if id == SIMCONNECT_RECV_ID_WAYPOINT_LIST {
        match RecvFacilityList::<FacilityWaypoint>::parse(rec) {
            Some(m) => Ok(DispatchResult::WaypointList(m)),
            None => Err(DispatchError::Truncated),
        }
    } else if id == SIMCONNECT_RECV_ID_EVENT_MULTIPLAYER_SERVER_STARTED {
        match RecvEvent::parse(rec) {
            Some(m) => Ok(DispatchResult::EventMultiplayerServerStarted(m)),
            None => Err(DispatchError::Truncated),
        }
    } else if id == SIMCONNECT_RECV_ID_EVENT_MULTIPLAYER_CLIENT_STARTED {
        match RecvEvent::parse(rec) {
            Some(m) => Ok(DispatchResult::EventMultiplayerClientStarted(m)),
            None => Err(DispatchError::Truncated),
        }
    } else if id == SIMCONNECT_RECV_ID_EVENT_MULTIPLAYER_SESSION_ENDED {
        match RecvEvent::parse(rec) {
            Some(m) => Ok(DispatchResult::EventMultiplayerSessionEnded(m)),
            None => Err(DispatchError::Truncated),
        }
    } else if id == SIMCONNECT_RECV_ID_EVENT_RACE_END {
        match RecvEventRace::parse(rec) {
            Some(m) => Ok(DispatchResult::EventRaceEnd(m)),
            None => Err(DispatchError::Truncated),
        }
    } else if id == SIMCONNECT_RECV_ID_EVENT_RACE_LAP {
        match RecvEventRace::parse(rec) {
            Some(m) => Ok(DispatchResult::EventRaceLap(m)),
            None => Err(DispatchError::Truncated),
        }
    } else {
        Err(DispatchError::UnhandledRecvId)
    }
}

} // verus!

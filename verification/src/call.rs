//! The native calls that a connector prepares.
//!
//! This library makes no native call itself. A connector describes each
//! call as a value: the handle to pass, the entry point, and the arguments
//! in the form the connection library takes them. The embedding program
//! makes the call and hands the outcome back.
//!
//! Text goes over as the bytes of the string followed by a zero byte.
//! Floating-point arguments go over as their IEEE-754 bit patterns.

use vstd::prelude::*;
use vstd::slice::slice_to_vec;
use vstd::string::StringSliceAdditionalSpecFns;
use crate::recv::Guid;

verus! {

/// The handle of a connector that holds no connection.
pub const NULL_HANDLE: usize = 0;

/// Where to put a newly created object, and how.
#[derive(Clone, Copy, Debug, PartialEq, Eq)]
pub struct InitPosition {
    /// Degrees of latitude, a double-precision number: its bits.
    pub latitude_bits: u64,
    /// Degrees of longitude, a double-precision number: its bits.
    pub longitude_bits: u64,
    /// Feet of altitude, a double-precision number: its bits.
    pub altitude_bits: u64,
    /// Degrees of pitch, a double-precision number: its bits.
    pub pitch_bits: u64,
    /// Degrees of bank, a double-precision number: its bits.
    pub bank_bits: u64,
    /// Degrees of heading, a double-precision number: its bits.
    pub heading_bits: u64,
    /// One to put the object on the ground, zero to put it in the air.
    pub on_ground: u32,
    /// Knots of airspeed.
    pub airspeed: u32,
}

/// The bytes of `s` hold a zero byte, so `s` cannot go over as text.
pub open spec fn has_nul(s: &str) -> bool {
    s.spec_bytes().contains(0u8)
}

/// The form in which `s` goes over: its bytes, then a zero byte.
pub open spec fn c_string(s: &str) -> Seq<u8> {
    s.spec_bytes().push(0u8)
}

/// Tells whether the bytes of `s` hold a zero byte.
pub fn contains_nul(s: &str) -> (found: bool)
    ensures
        found == has_nul(s),
{
    let bytes = s.as_bytes();
    let mut i: usize = 0;
    while i < bytes.len()
        invariant
            i <= bytes.len(),
            bytes@ == s.spec_bytes(),
            forall|j: int| 0 <= j < i ==> bytes@[j] != 0u8,
        decreases bytes.len() - i,
    {
        if bytes[i] == 0 {
            return true;
        }
        i = i + 1;
    }
    false
}

/// Brings `s` into the form in which text goes over, unless its bytes hold
/// a zero byte.
pub fn to_c_string(s: &str) -> (out: Option<Vec<u8>>)
    ensures
        out is None <==> has_nul(s),
        out matches Some(bytes) ==> bytes@ == c_string(s),
{
    if contains_nul(s) {
        None
    } else {
        let mut out = slice_to_vec(s.as_bytes());
        out.push(0);
        Some(out)
    }
}

/// The number for a truth value, as the connection library takes it.
pub open spec fn c_bool(b: bool) -> i32 {
    if b {
        1
    } else {
        0
    }
}

/// The bytes that the connection library reads of an array of
/// `array_count` elements of `unit_size` bytes each. It reads a count of
/// zero as one.
pub open spec fn array_bytes(array_count: u32, unit_size: u32) -> nat {
    if array_count == 0 {
        unit_size as nat
    } else {
        (array_count * unit_size) as nat
    }
}

/// Brings a truth value into the form in which it goes over.
pub(crate) fn bool_word(b: bool) -> (word: i32)
    ensures
        word == c_bool(b),
{
    if b {
        1
    } else {
        0
    }
}

/// The return value by which the connection library reports success.
pub const S_OK: i32 = 0;

/// Tells whether a return value of the connection library reports
/// success. The library gives no detail beyond that.
pub fn succeeded(code: i32) -> (ok: bool)
    ensures
        ok == (code == S_OK),
{
    code == S_OK
}

/// An entry point of the connection library, with the arguments that
/// follow the handle, in the order in which the entry point takes them.
#[derive(Clone, Debug, PartialEq, Eq)]
pub enum EntryPoint {
    /// Opens a connection. The handle of the call is the null handle; the
    /// connection library is given its place and replaces it where it
    /// succeeds.
    Open {
        name: Vec<u8>,
        window: usize,
        user_event_win32: u32,
        event_handle: usize,
        config_index: u32,
    },
    AddToDataDefinition {
        define_id: u32,
        datum_name: Vec<u8>,
        units_name: Vec<u8>,
        datum_type: i32,
        epsilon_bits: u32,
        datum_id: u32,
    },
    SetSystemEventState { event_id: u32, state: i32 },
    RemoveClientEvent { group_id: u32, event_id: u32 },
    ClearNotificationGroup { group_id: u32 },
    RequestNotificationGroup { group_id: u32, reserved: u32, flags: u32 },
    ClearDataDefinition { define_id: u32 },
    CreateClientData { data_id: u32, size: u32, flags: u32 },
    RequestDataOnSimObjectType {
        request_id: u32,
        define_id: u32,
        radius_in_meters: u32,
        object_type: i32,
    },
    RemoveInputEvent { group_id: u32, input_definition: Vec<u8> },
    ClearInputGroup { group_id: u32 },
    RequestReservedKey {
        event_id: u32,
        key_choice_1: Vec<u8>,
        key_choice_2: Vec<u8>,
        key_choice_3: Vec<u8>,
    },
    UnsubscribeFromSystemEvent { event_id: u32 },
    AiCreateParkedAtcAircraft {
        container_title: Vec<u8>,
        tail_number: Vec<u8>,
        airport_id: Vec<u8>,
        request_id: u32,
    },
    AiCreateEnrouteAtcAircraft {
        container_title: Vec<u8>,
        tail_number: Vec<u8>,
        flight_number: i32,
        flight_plan_path: Vec<u8>,
        flight_plan_position_bits: u64,
        touch_and_go: i32,
        request_id: u32,
    },
    AiCreateNonAtcAircraft {
        container_title: Vec<u8>,
        tail_number: Vec<u8>,
        init_pos: InitPosition,
        request_id: u32,
    },
    AiCreateSimulatedObject { container_title: Vec<u8>, init_pos: InitPosition, request_id: u32 },
    AiReleaseControl { object_id: u32, request_id: u32 },
    AiRemoveObject { object_id: u32, request_id: u32 },
    AiSetAircraftFlightPlan { object_id: u32, flight_plan_path: Vec<u8>, request_id: u32 },
    ExecuteMissionAction { instance_id: Guid },
    CompleteCustomMissionAction { instance_id: Guid },
    Close,
    GetLastSentPacketId,
    CallDispatch,
    RequestResponseTimes { count: u32 },
    CameraSetRelative6Dof {
        delta_x_bits: u32,
        delta_y_bits: u32,
        delta_z_bits: u32,
        pitch_bits: u32,
        bank_bits: u32,
        heading_bits: u32,
    },
    MenuAddItem { menu_item: Vec<u8>, event_id: u32, data: u32 },
    MenuDeleteItem { event_id: u32 },
    MenuDeleteSubItem { event_id: u32, sub_event_id: u32 },
    RequestSystemState { request_id: u32, state: Vec<u8> },
    MapClientDataNameToId { client_data_name: Vec<u8>, data_id: u32 },
    AddToClientDataDefinition {
        define_id: u32,
        offset: u32,
        size_or_type: u32,
        epsilon_bits: u32,
        datum_id: u32,
    },
    ClearClientDataDefinition { define_id: u32 },
    RequestClientData {
        data_id: u32,
        request_id: u32,
        define_id: u32,
        period: i32,
        flags: u32,
        origin: u32,
        interval: u32,
        limit: u32,
    },
    SetClientData {
        data_id: u32,
        define_id: u32,
        flags: u32,
        reserved: u32,
        unit_size: u32,
        data: Vec<u8>,
    },
    FlightLoad { file_name: Vec<u8> },
    Text {
        text_type: i32,
        time_in_seconds_bits: u32,
        event_id: u32,
        unit_size: u32,
        data: Vec<u8>,
    },
    SubscribeToFacilities { list_type: i32, request_id: u32 },
    UnsubscribeToFacilities { list_type: i32 },
    RequestFacilitiesList { list_type: i32, request_id: u32 },
    RequestDataOnSimObject {
        request_id: u32,
        define_id: u32,
        object_id: u32,
        period: i32,
        flags: u32,
        origin: u32,
        interval: u32,
        limit: u32,
    },
    SetDataOnSimObject {
        define_id: u32,
        object_id: u32,
        flags: u32,
        array_count: u32,
        unit_size: u32,
        data: Vec<u8>,
    },
    SubscribeToSystemEvent { event_id: u32, event_name: Vec<u8> },
    MapClientEventToSimEvent { event_id: u32, event_name: Vec<u8> },
    TransmitClientEvent { object_id: u32, event_id: u32, data: u32, group_id: u32, flags: u32 },
    AddClientEventToNotificationGroup { group_id: u32, event_id: u32, maskable: i32 },
    SetNotificationGroupPriority { group_id: u32, priority: u32 },
    MapInputEventToClientEvent {
        group_id: u32,
        input_definition: Vec<u8>,
        down_event: u32,
        down_return_value: u32,
        up_event: u32,
        up_return_value: u32,
        maskable: i32,
    },
    SetInputGroupState { group_id: u32, state: u32 },
    SetInputGroupPriority { group_id: u32, priority: u32 },
    GetNextDispatch,
}

/// A native call, ready to be made.
#[derive(Clone, Debug, PartialEq, Eq)]
pub struct NativeCall {
    /// The handle to pass: that of the connector that prepared the call.
    pub handle: usize,
    /// The entry point to call, with its other arguments.
    pub entry: EntryPoint,
}

} // verus!

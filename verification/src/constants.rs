//! Values fixed by the connection library's interface.
//!
//! Identifiers and flags are unsigned 32-bit words. Enumerations are
//! passed to the library as signed 32-bit integers, except for the record
//! identifiers, which are compared with a header field and so are kept
//! unsigned here.

use vstd::prelude::*;

verus! {

/// Marks an identifier or a tag as not in use.
pub const SIMCONNECT_UNUSED: u32 = 0xffff_ffff;

/// The object that the user flies.
pub const SIMCONNECT_OBJECT_ID_USER: u32 = 0;

/// The largest size of a client data area, in bytes.
pub const SIMCONNECT_CLIENTDATA_MAX_SIZE: u32 = 8192;

pub const SIMCONNECT_GROUP_PRIORITY_HIGHEST: u32 = 1;

pub const SIMCONNECT_GROUP_PRIORITY_HIGHEST_MASKABLE: u32 = 10_000_000;

pub const SIMCONNECT_GROUP_PRIORITY_STANDARD: u32 = 1_900_000_000;

pub const SIMCONNECT_GROUP_PRIORITY_DEFAULT: u32 = 2_000_000_000;

pub const SIMCONNECT_GROUP_PRIORITY_LOWEST: u32 = 4_000_000_000;

pub const SIMCONNECT_EVENT_FLAG_DEFAULT: u32 = 0;

pub const SIMCONNECT_EVENT_FLAG_FAST_REPEAT_TIMER: u32 = 1;

pub const SIMCONNECT_EVENT_FLAG_SLOW_REPEAT_TIMER: u32 = 2;

pub const SIMCONNECT_EVENT_FLAG_GROUPID_IS_PRIORITY: u32 = 0x10;

pub const SIMCONNECT_DATA_REQUEST_FLAG_DEFAULT: u32 = 0;

pub const SIMCONNECT_DATA_REQUEST_FLAG_CHANGED: u32 = 1;

pub const SIMCONNECT_DATA_REQUEST_FLAG_TAGGED: u32 = 2;

pub const SIMCONNECT_DATA_SET_FLAG_DEFAULT: u32 = 0;

pub const SIMCONNECT_DATA_SET_FLAG_TAGGED: u32 = 1;

pub const SIMCONNECT_CREATE_CLIENT_DATA_FLAG_DEFAULT: u32 = 0;

pub const SIMCONNECT_CREATE_CLIENT_DATA_FLAG_READ_ONLY: u32 = 1;

pub const SIMCONNECT_CLIENT_DATA_REQUEST_FLAG_DEFAULT: u32 = 0;

pub const SIMCONNECT_CLIENT_DATA_REQUEST_FLAG_CHANGED: u32 = 1;

pub const SIMCONNECT_CLIENT_DATA_REQUEST_FLAG_TAGGED: u32 = 2;

pub const SIMCONNECT_CLIENT_DATA_SET_FLAG_DEFAULT: u32 = 0;

pub const SIMCONNECT_CLIENT_DATA_SET_FLAG_TAGGED: u32 = 1;

pub const SIMCONNECT_VOR_FLAGS_HAS_NAV_SIGNAL: u32 = 1;

pub const SIMCONNECT_VOR_FLAGS_HAS_LOCALIZER: u32 = 2;

pub const SIMCONNECT_VOR_FLAGS_HAS_GLIDE_SLOPE: u32 = 4;

pub const SIMCONNECT_VOR_FLAGS_HAS_DME: u32 = 8;

// Record identifiers.
pub const SIMCONNECT_RECV_ID_NULL: u32 = 0;

pub const SIMCONNECT_RECV_ID_EXCEPTION: u32 = 1;

pub const SIMCONNECT_RECV_ID_OPEN: u32 = 2;

pub const SIMCONNECT_RECV_ID_QUIT: u32 = 3;

pub const SIMCONNECT_RECV_ID_EVENT: u32 = 4;

pub const SIMCONNECT_RECV_ID_EVENT_OBJECT_ADDREMOVE: u32 = 5;

pub const SIMCONNECT_RECV_ID_EVENT_FILENAME: u32 = 6;

pub const SIMCONNECT_RECV_ID_EVENT_FRAME: u32 = 7;

pub const SIMCONNECT_RECV_ID_SIMOBJECT_DATA: u32 = 8;

pub const SIMCONNECT_RECV_ID_SIMOBJECT_DATA_BYTYPE: u32 = 9;

pub const SIMCONNECT_RECV_ID_WEATHER_OBSERVATION: u32 = 10;

pub const SIMCONNECT_RECV_ID_CLOUD_STATE: u32 = 11;

pub const SIMCONNECT_RECV_ID_ASSIGNED_OBJECT_ID: u32 = 12;

pub const SIMCONNECT_RECV_ID_RESERVED_KEY: u32 = 13;

pub const SIMCONNECT_RECV_ID_CUSTOM_ACTION: u32 = 14;

pub const SIMCONNECT_RECV_ID_SYSTEM_STATE: u32 = 15;

pub const SIMCONNECT_RECV_ID_CLIENT_DATA: u32 = 16;

pub const SIMCONNECT_RECV_ID_EVENT_WEATHER_MODE: u32 = 17;

pub const SIMCONNECT_RECV_ID_AIRPORT_LIST: u32 = 18;

pub const SIMCONNECT_RECV_ID_VOR_LIST: u32 = 19;

pub const SIMCONNECT_RECV_ID_NDB_LIST: u32 = 20;

pub const SIMCONNECT_RECV_ID_WAYPOINT_LIST: u32 = 21;

pub const SIMCONNECT_RECV_ID_EVENT_MULTIPLAYER_SERVER_STARTED: u32 = 22;

pub const SIMCONNECT_RECV_ID_EVENT_MULTIPLAYER_CLIENT_STARTED: u32 = 23;

pub const SIMCONNECT_RECV_ID_EVENT_MULTIPLAYER_SESSION_ENDED: u32 = 24;

pub const SIMCONNECT_RECV_ID_EVENT_RACE_END: u32 = 25;

pub const SIMCONNECT_RECV_ID_EVENT_RACE_LAP: u32 = 26;

// Kinds of values in a data definition.
pub const SIMCONNECT_DATATYPE_INVALID: i32 = 0;

pub const SIMCONNECT_DATATYPE_INT32: i32 = 1;

pub const SIMCONNECT_DATATYPE_INT64: i32 = 2;

pub const SIMCONNECT_DATATYPE_FLOAT32: i32 = 3;

pub const SIMCONNECT_DATATYPE_FLOAT64: i32 = 4;

pub const SIMCONNECT_DATATYPE_STRING8: i32 = 5;

pub const SIMCONNECT_DATATYPE_STRING32: i32 = 6;

pub const SIMCONNECT_DATATYPE_STRING64: i32 = 7;

pub const SIMCONNECT_DATATYPE_STRING128: i32 = 8;

pub const SIMCONNECT_DATATYPE_STRING256: i32 = 9;

pub const SIMCONNECT_DATATYPE_STRING260: i32 = 10;

pub const SIMCONNECT_DATATYPE_STRINGV: i32 = 11;

pub const SIMCONNECT_DATATYPE_INITPOSITION: i32 = 12;

pub const SIMCONNECT_DATATYPE_MARKERSTATE: i32 = 13;

pub const SIMCONNECT_DATATYPE_WAYPOINT: i32 = 14;

pub const SIMCONNECT_DATATYPE_LATLONALT: i32 = 15;

pub const SIMCONNECT_DATATYPE_XYZ: i32 = 16;

// How often requested data is sent.
pub const SIMCONNECT_PERIOD_NEVER: i32 = 0;

pub const SIMCONNECT_PERIOD_ONCE: i32 = 1;

pub const SIMCONNECT_PERIOD_VISUAL_FRAME: i32 = 2;

pub const SIMCONNECT_PERIOD_SIM_FRAME: i32 = 3;

pub const SIMCONNECT_PERIOD_SECOND: i32 = 4;

// How often requested client data is sent.
pub const SIMCONNECT_CLIENT_DATA_PERIOD_NEVER: i32 = 0;

pub const SIMCONNECT_CLIENT_DATA_PERIOD_ONCE: i32 = 1;

pub const SIMCONNECT_CLIENT_DATA_PERIOD_VISUAL_FRAME: i32 = 2;

pub const SIMCONNECT_CLIENT_DATA_PERIOD_ON_SET: i32 = 3;

pub const SIMCONNECT_CLIENT_DATA_PERIOD_SECOND: i32 = 4;

// Whether a system event is reported.
pub const SIMCONNECT_STATE_OFF: i32 = 0;

pub const SIMCONNECT_STATE_ON: i32 = 1;

// Kinds of simulated objects.
pub const SIMCONNECT_SIMOBJECT_TYPE_USER: i32 = 0;

pub const SIMCONNECT_SIMOBJECT_TYPE_ALL: i32 = 1;

pub const SIMCONNECT_SIMOBJECT_TYPE_AIRCRAFT: i32 = 2;

pub const SIMCONNECT_SIMOBJECT_TYPE_HELICOPTER: i32 = 3;

pub const SIMCONNECT_SIMOBJECT_TYPE_BOAT: i32 = 4;

pub const SIMCONNECT_SIMOBJECT_TYPE_GROUND: i32 = 5;

// Kinds of facility lists.
pub const SIMCONNECT_FACILITY_LIST_TYPE_AIRPORT: i32 = 0;

pub const SIMCONNECT_FACILITY_LIST_TYPE_WAYPOINT: i32 = 1;

pub const SIMCONNECT_FACILITY_LIST_TYPE_NDB: i32 = 2;

pub const SIMCONNECT_FACILITY_LIST_TYPE_VOR: i32 = 3;

// Errors reported in an exception record.
pub const SIMCONNECT_EXCEPTION_NONE: u32 = 0;

pub const SIMCONNECT_EXCEPTION_ERROR: u32 = 1;

pub const SIMCONNECT_EXCEPTION_SIZE_MISMATCH: u32 = 2;

pub const SIMCONNECT_EXCEPTION_UNRECOGNIZED_ID: u32 = 3;

pub const SIMCONNECT_EXCEPTION_UNOPENED: u32 = 4;

pub const SIMCONNECT_EXCEPTION_VERSION_MISMATCH: u32 = 5;

pub const SIMCONNECT_EXCEPTION_TOO_MANY_GROUPS: u32 = 6;

pub const SIMCONNECT_EXCEPTION_NAME_UNRECOGNIZED: u32 = 7;

pub const SIMCONNECT_EXCEPTION_TOO_MANY_EVENT_NAMES: u32 = 8;

pub const SIMCONNECT_EXCEPTION_EVENT_ID_DUPLICATE: u32 = 9;

pub const SIMCONNECT_EXCEPTION_TOO_MANY_MAPS: u32 = 10;

pub const SIMCONNECT_EXCEPTION_TOO_MANY_OBJECTS: u32 = 11;

pub const SIMCONNECT_EXCEPTION_TOO_MANY_REQUESTS: u32 = 12;

pub const SIMCONNECT_EXCEPTION_WEATHER_INVALID_PORT: u32 = 13;

pub const SIMCONNECT_EXCEPTION_WEATHER_INVALID_METAR: u32 = 14;

pub const SIMCONNECT_EXCEPTION_WEATHER_UNABLE_TO_GET_OBSERVATION: u32 = 15;

pub const SIMCONNECT_EXCEPTION_WEATHER_UNABLE_TO_CREATE_STATION: u32 = 16;

pub const SIMCONNECT_EXCEPTION_WEATHER_UNABLE_TO_REMOVE_STATION: u32 = 17;

pub const SIMCONNECT_EXCEPTION_INVALID_DATA_TYPE: u32 = 18;

pub const SIMCONNECT_EXCEPTION_INVALID_DATA_SIZE: u32 = 19;

pub const SIMCONNECT_EXCEPTION_DATA_ERROR: u32 = 20;

pub const SIMCONNECT_EXCEPTION_INVALID_ARRAY: u32 = 21;

pub const SIMCONNECT_EXCEPTION_CREATE_OBJECT_FAILED: u32 = 22;

pub const SIMCONNECT_EXCEPTION_LOAD_FLIGHTPLAN_FAILED: u32 = 23;

pub const SIMCONNECT_EXCEPTION_OPERATION_INVALID_FOR_OBJECT_TYPE: u32 = 24;

pub const SIMCONNECT_EXCEPTION_ILLEGAL_OPERATION: u32 = 25;

pub const SIMCONNECT_EXCEPTION_ALREADY_SUBSCRIBED: u32 = 26;

pub const SIMCONNECT_EXCEPTION_INVALID_ENUM: u32 = 27;

pub const SIMCONNECT_EXCEPTION_DEFINITION_ERROR: u32 = 28;

pub const SIMCONNECT_EXCEPTION_DUPLICATE_ID: u32 = 29;

pub const SIMCONNECT_EXCEPTION_DATUM_ID: u32 = 30;

pub const SIMCONNECT_EXCEPTION_OUT_OF_BOUNDS: u32 = 31;

pub const SIMCONNECT_EXCEPTION_ALREADY_CREATED: u32 = 32;

pub const SIMCONNECT_EXCEPTION_OBJECT_OUTSIDE_REALITY_BUBBLE: u32 = 33;

pub const SIMCONNECT_EXCEPTION_OBJECT_CONTAINER: u32 = 34;

pub const SIMCONNECT_EXCEPTION_OBJECT_AI: u32 = 35;

pub const SIMCONNECT_EXCEPTION_OBJECT_ATC: u32 = 36;

pub const SIMCONNECT_EXCEPTION_OBJECT_SCHEDULE: u32 = 37;

// Ways of showing text to the user.
pub const SIMCONNECT_TEXT_TYPE_SCROLL_BLACK: i32 = 0;

pub const SIMCONNECT_TEXT_TYPE_SCROLL_WHITE: i32 = 1;

pub const SIMCONNECT_TEXT_TYPE_SCROLL_RED: i32 = 2;

pub const SIMCONNECT_TEXT_TYPE_SCROLL_GREEN: i32 = 3;

pub const SIMCONNECT_TEXT_TYPE_SCROLL_BLUE: i32 = 4;

pub const SIMCONNECT_TEXT_TYPE_SCROLL_YELLOW: i32 = 5;

pub const SIMCONNECT_TEXT_TYPE_SCROLL_MAGENTA: i32 = 6;

pub const SIMCONNECT_TEXT_TYPE_SCROLL_CYAN: i32 = 7;

pub const SIMCONNECT_TEXT_TYPE_PRINT_BLACK: i32 = 0x100;

pub const SIMCONNECT_TEXT_TYPE_PRINT_WHITE: i32 = 0x101;

pub const SIMCONNECT_TEXT_TYPE_PRINT_RED: i32 = 0x102;

pub const SIMCONNECT_TEXT_TYPE_PRINT_GREEN: i32 = 0x103;

pub const SIMCONNECT_TEXT_TYPE_PRINT_BLUE: i32 = 0x104;

pub const SIMCONNECT_TEXT_TYPE_PRINT_YELLOW: i32 = 0x105;

pub const SIMCONNECT_TEXT_TYPE_PRINT_MAGENTA: i32 = 0x106;

pub const SIMCONNECT_TEXT_TYPE_PRINT_CYAN: i32 = 0x107;

pub const SIMCONNECT_TEXT_TYPE_MENU: i32 = 0x200;

// Weather modes, as an event reports them in its data word.
pub const SIMCONNECT_WEATHER_MODE_THEME: u32 = 0;

pub const SIMCONNECT_WEATHER_MODE_RWW: u32 = 1;

pub const SIMCONNECT_WEATHER_MODE_CUSTOM: u32 = 2;

pub const SIMCONNECT_WEATHER_MODE_GLOBAL: u32 = 3;

} // verus!

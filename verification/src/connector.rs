//! The connector: one connection to the simulator, and the calls made on it.
//!
//! A connector is either unconnected or holds the handle of one open
//! connection. It becomes connected when an open call yields a handle and
//! unconnected again when it is closed or torn down. While it holds a
//! connection it prepares no open call, so that it never holds, or loses,
//! a second handle. Every other call is prepared with whatever handle the
//! connector holds: without a connection that is the null handle, which
//! the connection library refuses.
//!
//! Text arguments go over ended by a zero byte, so a call is prepared only
//! if its text holds none. Where a call passes data by size, it is
//! prepared only if the data holds as many bytes as the connection library
//! would read.

use vstd::prelude::*;
use vstd::slice::slice_to_vec;
use crate::call::{
    array_bytes, bool_word, c_bool, c_string, has_nul, to_c_string, EntryPoint, InitPosition,
    NativeCall, NULL_HANDLE,
};
use crate::recv::Guid;

verus! {

/// What a connector is at any moment.
#[derive(Clone, Copy, Debug, PartialEq, Eq)]
pub enum ConnectorState {
    Unconnected,
    Connected { handle: usize },
}

impl ConnectorState {
    /// A connected state holds a handle other than the null handle.
    pub open spec fn wf(self) -> bool {
        self matches ConnectorState::Connected { handle } ==> handle != NULL_HANDLE
    }

    /// The handle that calls are prepared with in this state.
    pub open spec fn handle(self) -> usize {
        match self {
            ConnectorState::Unconnected => NULL_HANDLE,
            ConnectorState::Connected { handle } => handle,
        }
    }

    /// The state after an open call that left `handle` behind: connected
    /// if the connection library gave a handle, unconnected if it left the
    /// null handle.
    pub open spec fn opened(handle: usize) -> ConnectorState {
        if handle == NULL_HANDLE {
            ConnectorState::Unconnected
        } else {
            ConnectorState::Connected { handle }
        }
    }

    /// The state after the outcome of an open call is taken in. Only an
    /// unconnected connector prepares an open call, so a connected one takes
    /// no outcome in and stays as it is.
    pub open spec fn after_open(self, handle: usize) -> ConnectorState {
        if self is Connected {
            self
        } else {
            ConnectorState::opened(handle)
        }
    }

    /// The state after a close.
    pub open spec fn closed(self) -> ConnectorState {
        ConnectorState::Unconnected
    }

    /// The call that a close prepares in this state.
    pub open spec fn close_call(self) -> NativeCall {
        NativeCall { handle: self.handle(), entry: EntryPoint::Close }
    }

    /// The call that tearing down prepares in this state, if any.
    pub open spec fn teardown_call(self) -> Option<NativeCall> {
        if self is Connected {
            Some(self.close_call())
        } else {
            None
        }
    }
}

/// Handles communication between the client program and the simulator.
pub struct SimConnector {
    sim_connect_handle: usize,
}

impl View for SimConnector {
    type V = ConnectorState;

    closed spec fn view(&self) -> ConnectorState {
        ConnectorState::opened(self.sim_connect_handle)
    }
}

impl Default for SimConnector {
    /// A connector that holds no connection.
    fn default() -> (c: SimConnector)
        ensures
            c@ == ConnectorState::Unconnected,
    {
        SimConnector { sim_connect_handle: NULL_HANDLE }
    }
}

impl SimConnector {
    /// Every connector is in a well-formed state.
    pub proof fn lemma_wf(&self)
        ensures
            self@.wf(),
    {
    }

    /// A connector that holds no connection.
    pub fn new() -> (c: SimConnector)
        ensures
            c@ == ConnectorState::Unconnected,
    {
        SimConnector { sim_connect_handle: NULL_HANDLE }
    }

    /// Tells whether the connector holds a connection.
    pub fn is_connected(&self) -> (connected: bool)
        ensures
            connected == (self@ is Connected),
    {
        self.sim_connect_handle != NULL_HANDLE
    }

    /// Opens a connection under the name of the client program.
    ///
    /// Nothing is prepared if the connector holds a connection, which has
    /// to be closed first, or if `program_name` holds a zero byte. The
    /// connection library is given a place that holds the null handle and
    /// writes the new handle there if it can open a connection. What that
    /// place holds after the call goes to
    /// [`complete_connect`](SimConnector::complete_connect).
    pub fn connect(&self, program_name: &str) -> (call: Option<NativeCall>)
        ensures
            call is None <==> self@ is Connected || has_nul(program_name),
            call matches Some(c) ==> {
                &&& c.handle == NULL_HANDLE
                &&& c.entry matches EntryPoint::Open {
                    name: f0,
                    window: f1,
                    user_event_win32: f2,
                    event_handle: f3,
                    config_index: f4,
                }
                &&& f0@ == c_string(program_name)
                &&& f1 == NULL_HANDLE
                &&& f2 == 0
                &&& f3 == NULL_HANDLE
                &&& f4 == 0
            },
    {
        if self.sim_connect_handle != NULL_HANDLE {
            return None;
        }
        let name = match to_c_string(program_name) {
            Some(text) => text,
            None => {
                return None;
            },
        };
        Some(
            NativeCall {
                handle: NULL_HANDLE,
                entry: EntryPoint::Open {
                    name,
                    window: NULL_HANDLE,
                    user_event_win32: 0,
                    event_handle: NULL_HANDLE,
                    config_index: 0,
                },
            },
        )
    }

    /// Takes in what an open call left in the place of the handle, and
    /// tells whether that call opened a connection.
    ///
    /// The answer is yes, and the connector holds the handle from here on,
    /// exactly if the connector was unconnected and the place holds a
    /// handle other than the null handle. A connector that holds a
    /// connection prepared no open call: it keeps its handle and the answer
    /// is no.
    pub fn complete_connect(&mut self, handle: usize) -> (connected: bool)
        ensures
            final(self)@ == old(self)@.after_open(handle),
            connected == (old(self)@ is Unconnected && handle != NULL_HANDLE),
    {
        if self.sim_connect_handle != NULL_HANDLE {
            return false;
        }
        self.sim_connect_handle = handle;
        handle != NULL_HANDLE
    }

    /// Adds one simulation variable to a data definition.
    ///
    /// `epsilon_bits` holds the bits of the single-precision change below which
    /// the variable counts as unchanged.
    ///
    /// Nothing is prepared if a text argument holds a zero byte.
    pub fn add_data_definition(
        &self,
        define_id: u32,
        datum_name: &str,
        units_name: &str,
        datum_type: i32,
        datum_id: u32,
        epsilon_bits: u32,
    ) -> (call: Option<NativeCall>)
        ensures
            call is None <==> has_nul(datum_name) || has_nul(units_name),
            call matches Some(c) ==> {
                &&& c.handle == self@.handle()
                &&& c.entry matches EntryPoint::AddToDataDefinition {
                    define_id: f0,
                    datum_name: f1,
                    units_name: f2,
                    datum_type: f3,
                    epsilon_bits: f4,
                    datum_id: f5,
                }
                &&& f0 == define_id
                &&& f1@ == c_string(datum_name)
                &&& f2@ == c_string(units_name)
                &&& f3 == datum_type
                &&& f4 == epsilon_bits
                &&& f5 == datum_id
            },
    {
        let datum_name_text = match to_c_string(datum_name) {
            Some(text) => text,
            None => {
                return None;
            },
        };
        let units_name_text = match to_c_string(units_name) {
            Some(text) => text,
            None => {
                return None;
            },
        };
        Some(
            NativeCall {
                handle: self.sim_connect_handle,
                entry: EntryPoint::AddToDataDefinition {
                    define_id,
                    datum_name: datum_name_text,
                    units_name: units_name_text,
                    datum_type,
                    epsilon_bits,
                    datum_id,
                },
            },
        )
    }

    /// Turns the reporting of a system event on or off.
    pub fn set_system_event_state(&self, event_id: u32, state: i32) -> (call: NativeCall)
        ensures
            call.handle == self@.handle(),
            call.entry == (EntryPoint::SetSystemEventState { event_id, state }),
    {
        NativeCall {
            handle: self.sim_connect_handle,
            entry: EntryPoint::SetSystemEventState { event_id, state },
        }
    }

    /// Takes a client event out of a notification group.
    pub fn remove_client_event(&self, group_id: u32, event_id: u32) -> (call: NativeCall)
        ensures
            call.handle == self@.handle(),
            call.entry == (EntryPoint::RemoveClientEvent { group_id, event_id }),
    {
        NativeCall {
            handle: self.sim_connect_handle,
            entry: EntryPoint::RemoveClientEvent { group_id, event_id },
        }
    }

    /// Takes every client event out of a notification group.
    pub fn clear_notification_group(&self, group_id: u32) -> (call: NativeCall)
        ensures
            call.handle == self@.handle(),
            call.entry == (EntryPoint::ClearNotificationGroup { group_id }),
    {
        NativeCall {
            handle: self.sim_connect_handle,
            entry: EntryPoint::ClearNotificationGroup { group_id },
        }
    }

    /// Asks for the events of a notification group.
    pub fn request_notification_group(
        &self,
        group_id: u32,
        reserved: u32,
        flags: u32,
    ) -> (call: NativeCall)
        ensures
            call.handle == self@.handle(),
            call.entry == (EntryPoint::RequestNotificationGroup { group_id, reserved, flags }),
    {
        NativeCall {
            handle: self.sim_connect_handle,
            entry: EntryPoint::RequestNotificationGroup { group_id, reserved, flags },
        }
    }

    /// Empties a data definition.
    pub fn clear_data_definition(&self, define_id: u32) -> (call: NativeCall)
        ensures
            call.handle == self@.handle(),
            call.entry == (EntryPoint::ClearDataDefinition { define_id }),
    {
        NativeCall {
            handle: self.sim_connect_handle,
            entry: EntryPoint::ClearDataDefinition { define_id },
        }
    }

    /// Creates a client data area of `size` bytes.
    pub fn create_client_data(&self, data_id: u32, size: u32, flags: u32) -> (call: NativeCall)
        ensures
            call.handle == self@.handle(),
            call.entry == (EntryPoint::CreateClientData { data_id, size, flags }),
    {
        NativeCall {
            handle: self.sim_connect_handle,
            entry: EntryPoint::CreateClientData { data_id, size, flags },
        }
    }

    /// Asks once for a data definition's values for every object of a kind
    /// within a radius of the user's aircraft.
    pub fn request_data_on_sim_object_type(
        &self,
        request_id: u32,
        define_id: u32,
        radius_in_meters: u32,
        object_type: i32,
    ) -> (call: NativeCall)
        ensures
            call.handle == self@.handle(),
            call.entry == (EntryPoint::RequestDataOnSimObjectType {
                request_id,
                define_id,
                radius_in_meters,
                object_type,
            }),
    {
        NativeCall {
            handle: self.sim_connect_handle,
            entry: EntryPoint::RequestDataOnSimObjectType {
                request_id,
                define_id,
                radius_in_meters,
                object_type,
            },
        }
    }

    /// Takes an input event out of an input group.
    ///
    /// Nothing is prepared if `input_definition` holds a zero byte.
    pub fn remove_input_event(
        &self,
        group_id: u32,
        input_definition: &str,
    ) -> (call: Option<NativeCall>)
        ensures
            call is None <==> has_nul(input_definition),
            call matches Some(c) ==> {
                &&& c.handle == self@.handle()
                &&& c.entry matches EntryPoint::RemoveInputEvent {
                    group_id: f0,
                    input_definition: f1,
                }
                &&& f0 == group_id
                &&& f1@ == c_string(input_definition)
            },
    {
        let input_definition_text = match to_c_string(input_definition) {
            Some(text) => text,
            None => {
                return None;
            },
        };
        Some(
            NativeCall {
                handle: self.sim_connect_handle,
                entry: EntryPoint::RemoveInputEvent {
                    group_id,
                    input_definition: input_definition_text,
                },
            },
        )
    }

    /// Takes every input event out of an input group.
    pub fn clear_input_group(&self, group_id: u32) -> (call: NativeCall)
        ensures
            call.handle == self@.handle(),
            call.entry == (EntryPoint::ClearInputGroup { group_id }),
    {
        NativeCall {
            handle: self.sim_connect_handle,
            entry: EntryPoint::ClearInputGroup { group_id },
        }
    }

    /// Asks for one of up to three keys to be reserved for the client.
    ///
    /// Nothing is prepared if a text argument holds a zero byte.
    #[allow(non_snake_case)]
    pub fn request_reserved_Key(
        &self,
        event_id: u32,
        key_choice_1: &str,
        key_choice_2: &str,
        key_choice_3: &str,
    ) -> (call: Option<NativeCall>)
        ensures
            call is None <==> has_nul(key_choice_1)
                || has_nul(key_choice_2)
                || has_nul(key_choice_3),
            call matches Some(c) ==> {
                &&& c.handle == self@.handle()
                &&& c.entry matches EntryPoint::RequestReservedKey {
                    event_id: f0,
                    key_choice_1: f1,
                    key_choice_2: f2,
                    key_choice_3: f3,
                }
                &&& f0 == event_id
                &&& f1@ == c_string(key_choice_1)
                &&& f2@ == c_string(key_choice_2)
                &&& f3@ == c_string(key_choice_3)
            },
    {
        let key_choice_1_text = match to_c_string(key_choice_1) {
            Some(text) => text,
            None => {
                return None;
            },
        };
        let key_choice_2_text = match to_c_string(key_choice_2) {
            Some(text) => text,
            None => {
                return None;
            },
        };
        let key_choice_3_text = match to_c_string(key_choice_3) {
            Some(text) => text,
            None => {
                return None;
            },
        };
        Some(
            NativeCall {
                handle: self.sim_connect_handle,
                entry: EntryPoint::RequestReservedKey {
                    event_id,
                    key_choice_1: key_choice_1_text,
                    key_choice_2: key_choice_2_text,
                    key_choice_3: key_choice_3_text,
                },
            },
        )
    }

    /// Ends the reporting of a system event.
    pub fn unsubscribe_from_system_event(&self, event_id: u32) -> (call: NativeCall)
        ensures
            call.handle == self@.handle(),
            call.entry == (EntryPoint::UnsubscribeFromSystemEvent { event_id }),
    {
        NativeCall {
            handle: self.sim_connect_handle,
            entry: EntryPoint::UnsubscribeFromSystemEvent { event_id },
        }
    }

    /// Creates an aircraft under air traffic control, parked at an airport.
    ///
    /// Nothing is prepared if a text argument holds a zero byte.
    pub fn ai_create_parked_atc_aircraft(
        &self,
        container_title: &str,
        tail_number: &str,
        airport_id: &str,
        request_id: u32,
    ) -> (call: Option<NativeCall>)
        ensures
            call is None <==> has_nul(container_title)
                || has_nul(tail_number)
                || has_nul(airport_id),
            call matches Some(c) ==> {
                &&& c.handle == self@.handle()
                &&& c.entry matches EntryPoint::AiCreateParkedAtcAircraft {
                    container_title: f0,
                    tail_number: f1,
                    airport_id: f2,
                    request_id: f3,
                }
                &&& f0@ == c_string(container_title)
                &&& f1@ == c_string(tail_number)
                &&& f2@ == c_string(airport_id)
                &&& f3 == request_id
            },
    {
        let container_title_text = match to_c_string(container_title) {
            Some(text) => text,
            None => {
                return None;
            },
        };
        let tail_number_text = match to_c_string(tail_number) {
            Some(text) => text,
            None => {
                return None;
            },
        };
        let airport_id_text = match to_c_string(airport_id) {
            Some(text) => text,
            None => {
                return None;
            },
        };
        Some(
            NativeCall {
                handle: self.sim_connect_handle,
                entry: EntryPoint::AiCreateParkedAtcAircraft {
                    container_title: container_title_text,
                    tail_number: tail_number_text,
                    airport_id: airport_id_text,
                    request_id,
                },
            },
        )
    }

    /// Creates an aircraft under air traffic control, under way along a
    /// flight plan.
    ///
    /// `flight_plan_position_bits` holds the bits of the double-precision
    /// position along the plan.
    ///
    /// Nothing is prepared if a text argument holds a zero byte.
    pub fn ai_create_enroute_atc_aircraft(
        &self,
        container_title: &str,
        tail_number: &str,
        flight_number: i32,
        flight_plan_path: &str,
        flight_plan_position_bits: u64,
        touch_and_go: bool,
        request_id: u32,
    ) -> (call: Option<NativeCall>)
        ensures
            call is None <==> has_nul(container_title)
                || has_nul(tail_number)
                || has_nul(flight_plan_path),
            call matches Some(c) ==> {
                &&& c.handle == self@.handle()
                &&& c.entry matches EntryPoint::AiCreateEnrouteAtcAircraft {
                    container_title: f0,
                    tail_number: f1,
                    flight_number: f2,
                    flight_plan_path: f3,
                    flight_plan_position_bits: f4,
                    touch_and_go: f5,
                    request_id: f6,
                }
                &&& f0@ == c_string(container_title)
                &&& f1@ == c_string(tail_number)
                &&& f2 == flight_number
                &&& f3@ == c_string(flight_plan_path)
                &&& f4 == flight_plan_position_bits
                &&& f5 == c_bool(touch_and_go)
                &&& f6 == request_id
            },
    {
        let container_title_text = match to_c_string(container_title) {
            Some(text) => text,
            None => {
                return None;
            },
        };
        let tail_number_text = match to_c_string(tail_number) {
            Some(text) => text,
            None => {
                return None;
            },
        };
        let flight_plan_path_text = match to_c_string(flight_plan_path) {
            Some(text) => text,
            None => {
                return None;
            },
        };
        Some(
            NativeCall {
                handle: self.sim_connect_handle,
                entry: EntryPoint::AiCreateEnrouteAtcAircraft {
                    container_title: container_title_text,
                    tail_number: tail_number_text,
                    flight_number,
                    flight_plan_path: flight_plan_path_text,
                    flight_plan_position_bits,
                    touch_and_go: bool_word(touch_and_go),
                    request_id,
                },
            },
        )
    }

    /// Creates an aircraft that is not under air traffic control.
    ///
    /// Nothing is prepared if a text argument holds a zero byte.
    pub fn ai_create_non_atc_aircraft(
        &self,
        container_title: &str,
        tail_number: &str,
        init_pos: InitPosition,
        request_id: u32,
    ) -> (call: Option<NativeCall>)
        ensures
            call is None <==> has_nul(container_title) || has_nul(tail_number),
            call matches Some(c) ==> {
                &&& c.handle == self@.handle()
                &&& c.entry matches EntryPoint::AiCreateNonAtcAircraft {
                    container_title: f0,
                    tail_number: f1,
                    init_pos: f2,
                    request_id: f3,
                }
                &&& f0@ == c_string(container_title)
                &&& f1@ == c_string(tail_number)
                &&& f2 == init_pos
                &&& f3 == request_id
            },
    {
        let container_title_text = match to_c_string(container_title) {
            Some(text) => text,
            None => {
                return None;
            },
        };
        let tail_number_text = match to_c_string(tail_number) {
            Some(text) => text,
            None => {
                return None;
            },
        };
        Some(
            NativeCall {
                handle: self.sim_connect_handle,
                entry: EntryPoint::AiCreateNonAtcAircraft {
                    container_title: container_title_text,
                    tail_number: tail_number_text,
                    init_pos,
                    request_id,
                },
            },
        )
    }

    /// Creates an object that is not an aircraft.
    ///
    /// Nothing is prepared if `container_title` holds a zero byte.
    pub fn ai_create_simulated_object(
        &self,
        container_title: &str,
        init_pos: InitPosition,
        request_id: u32,
    ) -> (call: Option<NativeCall>)
        ensures
            call is None <==> has_nul(container_title),
            call matches Some(c) ==> {
                &&& c.handle == self@.handle()
                &&& c.entry matches EntryPoint::AiCreateSimulatedObject {
                    container_title: f0,
                    init_pos: f1,
                    request_id: f2,
                }
                &&& f0@ == c_string(container_title)
                &&& f1 == init_pos
                &&& f2 == request_id
            },
    {
        let container_title_text = match to_c_string(container_title) {
            Some(text) => text,
            None => {
                return None;
            },
        };
        Some(
            NativeCall {
                handle: self.sim_connect_handle,
                entry: EntryPoint::AiCreateSimulatedObject {
                    container_title: container_title_text,
                    init_pos,
                    request_id,
                },
            },
        )
    }

    /// Takes an object out of the simulator's control, so that the client
    /// can steer it.
    pub fn ai_release_control(&self, object_id: u32, request_id: u32) -> (call: NativeCall)
        ensures
            call.handle == self@.handle(),
            call.entry == (EntryPoint::AiReleaseControl { object_id, request_id }),
    {
        NativeCall {
            handle: self.sim_connect_handle,
            entry: EntryPoint::AiReleaseControl { object_id, request_id },
        }
    }

    /// Removes an object that the client created.
    pub fn ai_remove_object(&self, object_id: u32, request_id: u32) -> (call: NativeCall)
        ensures
            call.handle == self@.handle(),
            call.entry == (EntryPoint::AiRemoveObject { object_id, request_id }),
    {
        NativeCall {
            handle: self.sim_connect_handle,
            entry: EntryPoint::AiRemoveObject { object_id, request_id },
        }
    }

    /// Gives an aircraft a flight plan.
    ///
    /// Nothing is prepared if `flight_plan_path` holds a zero byte.
    pub fn ai_set_aircraft_flight_plan(
        &self,
        object_id: u32,
        flight_plan_path: &str,
        request_id: u32,
    ) -> (call: Option<NativeCall>)
        ensures
            call is None <==> has_nul(flight_plan_path),
            call matches Some(c) ==> {
                &&& c.handle == self@.handle()
                &&& c.entry matches EntryPoint::AiSetAircraftFlightPlan {
                    object_id: f0,
                    flight_plan_path: f1,
                    request_id: f2,
                }
                &&& f0 == object_id
                &&& f1@ == c_string(flight_plan_path)
                &&& f2 == request_id
            },
    {
        let flight_plan_path_text = match to_c_string(flight_plan_path) {
            Some(text) => text,
            None => {
                return None;
            },
        };
        Some(
            NativeCall {
                handle: self.sim_connect_handle,
                entry: EntryPoint::AiSetAircraftFlightPlan {
                    object_id,
                    flight_plan_path: flight_plan_path_text,
                    request_id,
                },
            },
        )
    }

    /// Carries out a mission action.
    pub fn execute_mission_action(&self, instance_id: Guid) -> (call: NativeCall)
        ensures
            call.handle == self@.handle(),
            call.entry == (EntryPoint::ExecuteMissionAction { instance_id }),
    {
        NativeCall {
            handle: self.sim_connect_handle,
            entry: EntryPoint::ExecuteMissionAction { instance_id },
        }
    }

    /// Reports that a mission action of the client's own kind is complete.
    pub fn complete_custom_mission_action(&self, instance_id: Guid) -> (call: NativeCall)
        ensures
            call.handle == self@.handle(),
            call.entry == (EntryPoint::CompleteCustomMissionAction { instance_id }),
    {
        NativeCall {
            handle: self.sim_connect_handle,
            entry: EntryPoint::CompleteCustomMissionAction { instance_id },
        }
    }

    /// Gives the connection up.
    ///
    /// The handle leaves the connector with the call: from here on the
    /// connector is unconnected, whatever the connection library answers.
    /// A connector that holds no connection prepares the same call with the
    /// null handle, which the connection library refuses.
    pub fn close(&mut self) -> (call: NativeCall)
        ensures
            call == old(self)@.close_call(),
            final(self)@ == old(self)@.closed(),
    {
        let handle = self.sim_connect_handle;
        self.sim_connect_handle = NULL_HANDLE;
        NativeCall { handle, entry: EntryPoint::Close }
    }

    /// Asks for the number of the packet that was sent last.
    ///
    /// The connection library writes the number into a word that the caller
    /// of the native function supplies.
    pub fn get_last_sent_packet_id(&self) -> (call: NativeCall)
        ensures
            call.handle == self@.handle(),
            call.entry == EntryPoint::GetLastSentPacketId,
    {
        NativeCall { handle: self.sim_connect_handle, entry: EntryPoint::GetLastSentPacketId }
    }

    /// Has the connection library hand the next message to a callback.
    ///
    /// The callback and its context are supplied by the caller of the
    /// native function.
    pub fn call_dispatch(&self) -> (call: NativeCall)
        ensures
            call.handle == self@.handle(),
            call.entry == EntryPoint::CallDispatch,
    {
        NativeCall { handle: self.sim_connect_handle, entry: EntryPoint::CallDispatch }
    }

    /// Asks for up to `count` response times.
    ///
    /// The connection library writes `count` single-precision numbers into
    /// an array that the caller of the native function supplies.
    pub fn request_response_times(&self, count: u32) -> (call: NativeCall)
        ensures
            call.handle == self@.handle(),
            call.entry == (EntryPoint::RequestResponseTimes { count }),
    {
        NativeCall {
            handle: self.sim_connect_handle,
            entry: EntryPoint::RequestResponseTimes { count },
        }
    }

    /// Moves the camera relative to the user's aircraft.
    ///
    /// Each argument holds the bits of a single-precision number.
    pub fn camera_set_relative_6dof(
        &self,
        delta_x_bits: u32,
        delta_y_bits: u32,
        delta_z_bits: u32,
        pitch_bits: u32,
        bank_bits: u32,
        heading_bits: u32,
    ) -> (call: NativeCall)
        ensures
            call.handle == self@.handle(),
            call.entry == (EntryPoint::CameraSetRelative6Dof {
                delta_x_bits,
                delta_y_bits,
                delta_z_bits,
                pitch_bits,
                bank_bits,
                heading_bits,
            }),
    {
        NativeCall {
            handle: self.sim_connect_handle,
            entry: EntryPoint::CameraSetRelative6Dof {
                delta_x_bits,
                delta_y_bits,
                delta_z_bits,
                pitch_bits,
                bank_bits,
                heading_bits,
            },
        }
    }

    /// Adds an item to the simulator's add-on menu.
    ///
    /// Nothing is prepared if `menu_item` holds a zero byte.
    pub fn menu_add_item(
        &self,
        menu_item: &str,
        event_id: u32,
        data: u32,
    ) -> (call: Option<NativeCall>)
        ensures
            call is None <==> has_nul(menu_item),
            call matches Some(c) ==> {
                &&& c.handle == self@.handle()
                &&& c.entry matches EntryPoint::MenuAddItem {
                    menu_item: f0,
                    event_id: f1,
                    data: f2,
                }
                &&& f0@ == c_string(menu_item)
                &&& f1 == event_id
                &&& f2 == data
            },
    {
        let menu_item_text = match to_c_string(menu_item) {
            Some(text) => text,
            None => {
                return None;
            },
        };
        Some(
            NativeCall {
                handle: self.sim_connect_handle,
                entry: EntryPoint::MenuAddItem { menu_item: menu_item_text, event_id, data },
            },
        )
    }

    /// Removes an item from the simulator's add-on menu.
    pub fn menu_delete_item(&self, event_id: u32) -> (call: NativeCall)
        ensures
            call.handle == self@.handle(),
            call.entry == (EntryPoint::MenuDeleteItem { event_id }),
    {
        NativeCall {
            handle: self.sim_connect_handle,
            entry: EntryPoint::MenuDeleteItem { event_id },
        }
    }

    /// Removes an item from a submenu of the simulator's add-on menu.
    pub fn menu_delete_sub_item(&self, event_id: u32, sub_event_id: u32) -> (call: NativeCall)
        ensures
            call.handle == self@.handle(),
            call.entry == (EntryPoint::MenuDeleteSubItem { event_id, sub_event_id }),
    {
        NativeCall {
            handle: self.sim_connect_handle,
            entry: EntryPoint::MenuDeleteSubItem { event_id, sub_event_id },
        }
    }

    /// Asks a question about the simulator's state.
    ///
    /// Nothing is prepared if `state` holds a zero byte.
    pub fn request_system_state(&self, request_id: u32, state: &str) -> (call: Option<NativeCall>)
        ensures
            call is None <==> has_nul(state),
            call matches Some(c) ==> {
                &&& c.handle == self@.handle()
                &&& c.entry matches EntryPoint::RequestSystemState { request_id: f0, state: f1 }
                &&& f0 == request_id
                &&& f1@ == c_string(state)
            },
    {
        let state_text = match to_c_string(state) {
            Some(text) => text,
            None => {
                return None;
            },
        };
        Some(
            NativeCall {
                handle: self.sim_connect_handle,
                entry: EntryPoint::RequestSystemState { request_id, state: state_text },
            },
        )
    }

    /// Ties the name of a client data area to an identifier.
    ///
    /// Nothing is prepared if `client_data_name` holds a zero byte.
    pub fn map_client_data_name_to_id(
        &self,
        client_data_name: &str,
        data_id: u32,
    ) -> (call: Option<NativeCall>)
        ensures
            call is None <==> has_nul(client_data_name),
            call matches Some(c) ==> {
                &&& c.handle == self@.handle()
                &&& c.entry matches EntryPoint::MapClientDataNameToId {
                    client_data_name: f0,
                    data_id: f1,
                }
                &&& f0@ == c_string(client_data_name)
                &&& f1 == data_id
            },
    {
        let client_data_name_text = match to_c_string(client_data_name) {
            Some(text) => text,
            None => {
                return None;
            },
        };
        Some(
            NativeCall {
                handle: self.sim_connect_handle,
                entry: EntryPoint::MapClientDataNameToId {
                    client_data_name: client_data_name_text,
                    data_id,
                },
            },
        )
    }

    /// Adds a stretch of a client data area to a client data definition.
    ///
    /// `epsilon_bits` holds the bits of the single-precision change below which
    /// the stretch counts as unchanged.
    pub fn add_to_client_data_definition(
        &self,
        define_id: u32,
        offset: u32,
        size_or_type: u32,
        epsilon_bits: u32,
        datum_id: u32,
    ) -> (call: NativeCall)
        ensures
            call.handle == self@.handle(),
            call.entry == (EntryPoint::AddToClientDataDefinition {
                define_id,
                offset,
                size_or_type,
                epsilon_bits,
                datum_id,
            }),
    {
        NativeCall {
            handle: self.sim_connect_handle,
            entry: EntryPoint::AddToClientDataDefinition {
                define_id,
                offset,
                size_or_type,
                epsilon_bits,
                datum_id,
            },
        }
    }

    /// Empties a client data definition.
    pub fn clear_client_data_definition(&self, define_id: u32) -> (call: NativeCall)
        ensures
            call.handle == self@.handle(),
            call.entry == (EntryPoint::ClearClientDataDefinition { define_id }),
    {
        NativeCall {
            handle: self.sim_connect_handle,
            entry: EntryPoint::ClearClientDataDefinition { define_id },
        }
    }

    /// Asks for the contents of a client data area, once or on a schedule.
    pub fn request_client_data(
        &self,
        data_id: u32,
        request_id: u32,
        define_id: u32,
        period: i32,
        flags: u32,
        origin: u32,
        interval: u32,
        limit: u32,
    ) -> (call: NativeCall)
        ensures
            call.handle == self@.handle(),
            call.entry == (EntryPoint::RequestClientData {
                data_id,
                request_id,
                define_id,
                period,
                flags,
                origin,
                interval,
                limit,
            }),
    {
        NativeCall {
            handle: self.sim_connect_handle,
            entry: EntryPoint::RequestClientData {
                data_id,
                request_id,
                define_id,
                period,
                flags,
                origin,
                interval,
                limit,
            },
        }
    }

    /// Writes `unit_size` bytes of `data_set` into a client data area.
    ///
    /// Nothing is prepared if `data_set` holds fewer bytes than that.
    pub fn set_client_data(
        &self,
        data_id: u32,
        define_id: u32,
        flags: u32,
        reserved: u32,
        unit_size: u32,
        data_set: &[u8],
    ) -> (call: Option<NativeCall>)
        ensures
            call is Some <==> unit_size <= data_set@.len(),
            call matches Some(c) ==> {
                &&& c.handle == self@.handle()
                &&& c.entry matches EntryPoint::SetClientData {
                    data_id: f0,
                    define_id: f1,
                    flags: f2,
                    reserved: f3,
                    unit_size: f4,
                    data: f5,
                }
                &&& f0 == data_id
                &&& f1 == define_id
                &&& f2 == flags
                &&& f3 == reserved
                &&& f4 == unit_size
                &&& f5@ == data_set@
            },
    {
        if unit_size as usize > data_set.len() {
            return None;
        }
        Some(
            NativeCall {
                handle: self.sim_connect_handle,
                entry: EntryPoint::SetClientData {
                    data_id,
                    define_id,
                    flags,
                    reserved,
                    unit_size,
                    data: slice_to_vec(data_set),
                },
            },
        )
    }

    /// Loads a flight from a file.
    ///
    /// Nothing is prepared if `file_name` holds a zero byte.
    pub fn flight_load(&self, file_name: &str) -> (call: Option<NativeCall>)
        ensures
            call is None <==> has_nul(file_name),
            call matches Some(c) ==> {
                &&& c.handle == self@.handle()
                &&& c.entry matches EntryPoint::FlightLoad { file_name: f0 }
                &&& f0@ == c_string(file_name)
            },
    {
        let file_name_text = match to_c_string(file_name) {
            Some(text) => text,
            None => {
                return None;
            },
        };
        Some(
            NativeCall {
                handle: self.sim_connect_handle,
                entry: EntryPoint::FlightLoad { file_name: file_name_text },
            },
        )
    }

    /// Shows text, or a menu, to the user: the `unit_size` bytes of
    /// `data_set`.
    ///
    /// `time_in_seconds_bits` holds the bits of the single-precision time
    /// for which the text stays. Nothing is prepared if `data_set` holds
    /// fewer bytes than `unit_size`.
    pub fn text(
        &self,
        text_type: i32,
        time_in_seconds_bits: u32,
        event_id: u32,
        unit_size: u32,
        data_set: &[u8],
    ) -> (call: Option<NativeCall>)
        ensures
            call is Some <==> unit_size <= data_set@.len(),
            call matches Some(c) ==> {
                &&& c.handle == self@.handle()
                &&& c.entry matches EntryPoint::Text {
                    text_type: f0,
                    time_in_seconds_bits: f1,
                    event_id: f2,
                    unit_size: f3,
                    data: f4,
                }
                &&& f0 == text_type
                &&& f1 == time_in_seconds_bits
                &&& f2 == event_id
                &&& f3 == unit_size
                &&& f4@ == data_set@
            },
    {
        if unit_size as usize > data_set.len() {
            return None;
        }
        Some(
            NativeCall {
                handle: self.sim_connect_handle,
                entry: EntryPoint::Text {
                    text_type,
                    time_in_seconds_bits,
                    event_id,
                    unit_size,
                    data: slice_to_vec(data_set),
                },
            },
        )
    }

    /// Asks for the facilities of a kind near the user's aircraft, now and as
    /// they come into range.
    pub fn subscribe_to_facilities(&self, list_type: i32, request_id: u32) -> (call: NativeCall)
        ensures
            call.handle == self@.handle(),
            call.entry == (EntryPoint::SubscribeToFacilities { list_type, request_id }),
    {
        NativeCall {
            handle: self.sim_connect_handle,
            entry: EntryPoint::SubscribeToFacilities { list_type, request_id },
        }
    }

    /// Ends the reporting of facilities of a kind.
    pub fn unsubscribe_to_facilities(&self, list_type: i32) -> (call: NativeCall)
        ensures
            call.handle == self@.handle(),
            call.entry == (EntryPoint::UnsubscribeToFacilities { list_type }),
    {
        NativeCall {
            handle: self.sim_connect_handle,
            entry: EntryPoint::UnsubscribeToFacilities { list_type },
        }
    }

    /// Asks once for the facilities of a kind near the user's aircraft.
    pub fn request_facilities_list(&self, list_type: i32, request_id: u32) -> (call: NativeCall)
        ensures
            call.handle == self@.handle(),
            call.entry == (EntryPoint::RequestFacilitiesList { list_type, request_id }),
    {
        NativeCall {
            handle: self.sim_connect_handle,
            entry: EntryPoint::RequestFacilitiesList { list_type, request_id },
        }
    }

    /// Asks for a data definition's values for one object, once or on a
    /// schedule.
    pub fn request_data_on_sim_object(
        &self,
        request_id: u32,
        define_id: u32,
        object_id: u32,
        period: i32,
        flags: u32,
        origin: u32,
        interval: u32,
        limit: u32,
    ) -> (call: NativeCall)
        ensures
            call.handle == self@.handle(),
            call.entry == (EntryPoint::RequestDataOnSimObject {
                request_id,
                define_id,
                object_id,
                period,
                flags,
                origin,
                interval,
                limit,
            }),
    {
        NativeCall {
            handle: self.sim_connect_handle,
            entry: EntryPoint::RequestDataOnSimObject {
                request_id,
                define_id,
                object_id,
                period,
                flags,
                origin,
                interval,
                limit,
            },
        }
    }

    /// Sets the values of a data definition on an object: `array_count`
    /// elements of `unit_size` bytes each, taken from `data`.
    ///
    /// Nothing is prepared if `data` holds fewer bytes than the connection
    /// library would read.
    pub fn set_data_on_sim_object(
        &self,
        define_id: u32,
        object_id: u32,
        flags: u32,
        array_count: u32,
        unit_size: u32,
        data: &[u8],
    ) -> (call: Option<NativeCall>)
        ensures
            call is Some <==> array_bytes(array_count, unit_size) <= data@.len(),
            call matches Some(c) ==> {
                &&& c.handle == self@.handle()
                &&& c.entry matches EntryPoint::SetDataOnSimObject {
                    define_id: f0,
                    object_id: f1,
                    flags: f2,
                    array_count: f3,
                    unit_size: f4,
                    data: f5,
                }
                &&& f0 == define_id
                &&& f1 == object_id
                &&& f2 == flags
                &&& f3 == array_count
                &&& f4 == unit_size
                &&& f5@ == data@
            },
    {
        let count: u64 = if array_count == 0 {
            1
        } else {
            array_count as u64
        };
        assert(count * unit_size <= 0xffff_ffff * 0xffff_ffff) by (nonlinear_arith)
            requires
                0 <= count <= 0xffff_ffff,
                0 <= unit_size <= 0xffff_ffff,
        ;
        let needed: u64 = count * (unit_size as u64);
        if needed > data.len() as u64 {
            return None;
        }
        Some(
            NativeCall {
                handle: self.sim_connect_handle,
                entry: EntryPoint::SetDataOnSimObject {
                    define_id,
                    object_id,
                    flags,
                    array_count,
                    unit_size,
                    data: slice_to_vec(data),
                },
            },
        )
    }

    /// Asks for a system event to be reported.
    ///
    /// Nothing is prepared if `event_name` holds a zero byte.
    pub fn subscribe_to_system_event(
        &self,
        event_id: u32,
        event_name: &str,
    ) -> (call: Option<NativeCall>)
        ensures
            call is None <==> has_nul(event_name),
            call matches Some(c) ==> {
                &&& c.handle == self@.handle()
                &&& c.entry matches EntryPoint::SubscribeToSystemEvent {
                    event_id: f0,
                    event_name: f1,
                }
                &&& f0 == event_id
                &&& f1@ == c_string(event_name)
            },
    {
        let event_name_text = match to_c_string(event_name) {
            Some(text) => text,
            None => {
                return None;
            },
        };
        Some(
            NativeCall {
                handle: self.sim_connect_handle,
                entry: EntryPoint::SubscribeToSystemEvent {
                    event_id,
                    event_name: event_name_text,
                },
            },
        )
    }

    /// Ties a client event to a simulator event.
    ///
    /// Nothing is prepared if `event_name` holds a zero byte.
    pub fn map_client_event_to_sim_event(
        &self,
        event_id: u32,
        event_name: &str,
    ) -> (call: Option<NativeCall>)
        ensures
            call is None <==> has_nul(event_name),
            call matches Some(c) ==> {
                &&& c.handle == self@.handle()
                &&& c.entry matches EntryPoint::MapClientEventToSimEvent {
                    event_id: f0,
                    event_name: f1,
                }
                &&& f0 == event_id
                &&& f1@ == c_string(event_name)
            },
    {
        let event_name_text = match to_c_string(event_name) {
            Some(text) => text,
            None => {
                return None;
            },
        };
        Some(
            NativeCall {
                handle: self.sim_connect_handle,
                entry: EntryPoint::MapClientEventToSimEvent {
                    event_id,
                    event_name: event_name_text,
                },
            },
        )
    }

    /// Sends a client event to an object, as if the user had caused it.
    pub fn transmit_client_event(
        &self,
        object_id: u32,
        event_id: u32,
        data: u32,
        group_id: u32,
        flags: u32,
    ) -> (call: NativeCall)
        ensures
            call.handle == self@.handle(),
            call.entry == (EntryPoint::TransmitClientEvent {
                object_id,
                event_id,
                data,
                group_id,
                flags,
            }),
    {
        NativeCall {
            handle: self.sim_connect_handle,
            entry: EntryPoint::TransmitClientEvent {
                object_id,
                event_id,
                data,
                group_id,
                flags,
            },
        }
    }

    /// Puts a client event into a notification group.
    pub fn add_client_event_to_notification_group(
        &self,
        group_id: u32,
        event_id: u32,
        maskable: bool,
    ) -> (call: NativeCall)
        ensures
            call.handle == self@.handle(),
            call.entry == (EntryPoint::AddClientEventToNotificationGroup {
                group_id,
                event_id,
                maskable: c_bool(maskable),
            }),
    {
        NativeCall {
            handle: self.sim_connect_handle,
            entry: EntryPoint::AddClientEventToNotificationGroup {
                group_id,
                event_id,
                maskable: bool_word(maskable),
            },
        }
    }

    /// Sets the priority of a notification group.
    pub fn set_notification_group_priority(
        &self,
        group_id: u32,
        priority: u32,
    ) -> (call: NativeCall)
        ensures
            call.handle == self@.handle(),
            call.entry == (EntryPoint::SetNotificationGroupPriority { group_id, priority }),
    {
        NativeCall {
            handle: self.sim_connect_handle,
            entry: EntryPoint::SetNotificationGroupPriority { group_id, priority },
        }
    }

    /// Ties an input event, such as a key stroke, to client events.
    ///
    /// Nothing is prepared if `input_definition` holds a zero byte.
    pub fn map_input_event_to_client_event(
        &self,
        group_id: u32,
        input_definition: &str,
        down_event: u32,
        down_return_value: u32,
        up_event: u32,
        up_return_value: u32,
        maskable: bool,
    ) -> (call: Option<NativeCall>)
        ensures
            call is None <==> has_nul(input_definition),
            call matches Some(c) ==> {
                &&& c.handle == self@.handle()
                &&& c.entry matches EntryPoint::MapInputEventToClientEvent {
                    group_id: f0,
                    input_definition: f1,
                    down_event: f2,
                    down_return_value: f3,
                    up_event: f4,
                    up_return_value: f5,
                    maskable: f6,
                }
                &&& f0 == group_id
                &&& f1@ == c_string(input_definition)
                &&& f2 == down_event
                &&& f3 == down_return_value
                &&& f4 == up_event
                &&& f5 == up_return_value
                &&& f6 == c_bool(maskable)
            },
    {
        let input_definition_text = match to_c_string(input_definition) {
            Some(text) => text,
            None => {
                return None;
            },
        };
        Some(
            NativeCall {
                handle: self.sim_connect_handle,
                entry: EntryPoint::MapInputEventToClientEvent {
                    group_id,
                    input_definition: input_definition_text,
                    down_event,
                    down_return_value,
                    up_event,
                    up_return_value,
                    maskable: bool_word(maskable),
                },
            },
        )
    }

    /// Turns an input group on or off.
    pub fn set_input_group_state(&self, group_id: u32, state: u32) -> (call: NativeCall)
        ensures
            call.handle == self@.handle(),
            call.entry == (EntryPoint::SetInputGroupState { group_id, state }),
    {
        NativeCall {
            handle: self.sim_connect_handle,
            entry: EntryPoint::SetInputGroupState { group_id, state },
        }
    }

    /// Sets the priority of an input group.
    pub fn set_input_priority(&self, group_id: u32, priority: u32) -> (call: NativeCall)
        ensures
            call.handle == self@.handle(),
            call.entry == (EntryPoint::SetInputGroupPriority { group_id, priority }),
    {
        NativeCall {
            handle: self.sim_connect_handle,
            entry: EntryPoint::SetInputGroupPriority { group_id, priority },
        }
    }

    /// Polls for the next message. The connection library does not wait for
    /// one.
    ///
    /// What the connection library returns is decoded by
    /// [`decode_message`](crate::dispatch::decode_message).
    pub fn get_next_message(&self) -> (call: NativeCall)
        ensures
            call.handle == self@.handle(),
            call.entry == EntryPoint::GetNextDispatch,
    {
        NativeCall { handle: self.sim_connect_handle, entry: EntryPoint::GetNextDispatch }
    }

    /// Gives the connection up if the connector holds one, as is due when
    /// the connector goes out of use.
    pub fn teardown(&mut self) -> (call: Option<NativeCall>)
        ensures
            call == old(self)@.teardown_call(),
            final(self)@ == old(self)@.closed(),
    {
        if self.sim_connect_handle != NULL_HANDLE {
            Some(self.close())
        } else {
            None
        }
    }
}

/// Without a connection every call goes out with the null handle.
pub proof fn lemma_unconnected_forwards_null(state: ConnectorState, call: NativeCall)
    requires
        state is Unconnected,
        call.handle == state.handle(),
    ensures
        call.handle == NULL_HANDLE,
{
}

/// Closing is idempotent: a closed connector is unconnected, closing it
/// again changes nothing and hands over the null handle, and tearing it
/// down prepares no call.
pub proof fn lemma_close_idempotent(state: ConnectorState)
    ensures
        state.closed() is Unconnected,
        state.closed().closed() == state.closed(),
        state.closed().close_call().handle == NULL_HANDLE,
        state.closed().teardown_call() is None,
{
}

/// An open call that leaves the null handle behind leaves the connector
/// unconnected; one that leaves a handle makes it connected with that
/// handle.
pub proof fn lemma_opened(handle: usize)
    ensures
        ConnectorState::opened(handle).wf(),
        handle == NULL_HANDLE ==> ConnectorState::opened(handle) is Unconnected,
        handle != NULL_HANDLE ==> ConnectorState::opened(handle) == (ConnectorState::Connected {
            handle,
        }),
        ConnectorState::opened(handle).handle() == handle,
{
}

/// A connector holds at most one handle, and gives none up but by a close:
/// the outcome of an open call changes the state of an unconnected
/// connector only, and a connected one keeps the handle it holds.
pub proof fn lemma_one_handle(state: ConnectorState, handle: usize)
    requires
        state.wf(),
    ensures
        state.after_open(handle).wf(),
        state is Connected ==> state.after_open(handle) == state,
        state is Unconnected ==> state.after_open(handle) == ConnectorState::opened(handle),
        state.after_open(handle) is Connected ==> state.after_open(handle).close_call().handle
            != NULL_HANDLE,
{
}

} // verus!

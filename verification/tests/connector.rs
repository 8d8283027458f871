use simconnect::call::{
    contains_nul, succeeded, to_c_string, EntryPoint, InitPosition, NativeCall, NULL_HANDLE, S_OK,
};
use simconnect::connector::SimConnector;
use simconnect::recv::Guid;

fn connected(handle: usize) -> SimConnector {
    let mut c = SimConnector::new();
    assert!(c.complete_connect(handle));
    c
}

#[test]
fn new_connector_is_unconnected() {
    assert!(!SimConnector::new().is_connected());
    assert!(!SimConnector::default().is_connected());
    assert_eq!(SimConnector::new().get_next_message().handle, NULL_HANDLE);
}

#[test]
fn connect_prepares_the_open_call() {
    let c = SimConnector::new();
    let call = c.connect("Simple Program");
    assert_eq!(
        call,
        Some(NativeCall {
            handle: 0,
            entry: EntryPoint::Open {
                name: b"Simple Program\0".to_vec(),
                window: 0,
                user_event_win32: 0,
                event_handle: 0,
                config_index: 0,
            },
        })
    );
    assert_eq!(c.connect("Simple\0Program"), None);
}

#[test]
fn connect_with_a_valid_target() {
    let mut c = SimConnector::new();
    assert!(c.connect("Simple Program").is_some());
    assert!(c.complete_connect(0x7f00_1000));
    assert!(c.is_connected());
    assert_eq!(c.clear_data_definition(1).handle, 0x7f00_1000);
}

#[test]
fn connect_with_the_service_unavailable() {
    let mut c = SimConnector::new();
    assert!(c.connect("Simple Program").is_some());
    assert!(!c.complete_connect(NULL_HANDLE));
    assert!(!c.is_connected());
    assert_eq!(c.clear_data_definition(1).handle, NULL_HANDLE);
}

#[test]
fn calls_before_connect_carry_the_null_handle() {
    let mut c = SimConnector::new();
    assert_eq!(c.add_data_definition(0, "A", "B", 4, 1, 0).unwrap().handle, 0);
    assert_eq!(c.request_data_on_sim_object(0, 0, 0, 3, 0, 0, 0, 0).handle, 0);
    assert_eq!(c.transmit_client_event(0, 1, 0, 1, 16).handle, 0);
    assert_eq!(c.get_next_message().handle, 0);
    assert_eq!(c.set_data_on_sim_object(0, 0, 0, 1, 1, &[9]).unwrap().handle, 0);
    assert_eq!(c.close().handle, 0);
}

#[test]
fn close_gives_the_handle_up() {
    let mut c = connected(41);
    let call = c.close();
    assert_eq!(call, NativeCall { handle: 41, entry: EntryPoint::Close });
    assert!(!c.is_connected());
}

#[test]
fn close_twice() {
    let mut c = connected(41);
    assert_eq!(c.close().handle, 41);
    assert_eq!(c.close(), NativeCall { handle: NULL_HANDLE, entry: EntryPoint::Close });
    assert!(!c.is_connected());
}

#[test]
fn teardown_closes_a_live_connection_once() {
    let mut c = connected(41);
    assert_eq!(c.teardown(), Some(NativeCall { handle: 41, entry: EntryPoint::Close }));
    assert!(!c.is_connected());
    assert_eq!(c.teardown(), None);
}

#[test]
fn teardown_after_close_prepares_nothing() {
    let mut c = connected(41);
    let _ = c.close();
    assert_eq!(c.teardown(), None);
    assert_eq!(SimConnector::new().teardown(), None);
}

#[test]
fn reconnect_after_close() {
    let mut c = connected(41);
    let _ = c.close();
    assert_eq!(c.connect("again").unwrap().handle, NULL_HANDLE);
    assert!(c.complete_connect(42));
    assert_eq!(c.get_next_message().handle, 42);
}

#[test]
fn a_connected_connector_prepares_no_open_call() {
    let mut c = connected(41);
    assert_eq!(c.connect("again"), None);
    // No open call was made, so no outcome is taken in: neither a failure
    // nor a second handle changes what the connector holds.
    assert!(!c.complete_connect(NULL_HANDLE));
    assert_eq!(c.get_next_message().handle, 41);
    assert!(!c.complete_connect(42));
    assert_eq!(c.get_next_message().handle, 41);
    assert_eq!(c.close().handle, 41);
}

#[test]
fn failed_open_leaves_the_connector_unconnected() {
    // The place of the handle starts out null, and the connection library
    // leaves it untouched where it fails.
    let mut c = SimConnector::new();
    let call = c.connect("again").unwrap();
    assert!(!c.complete_connect(call.handle));
    assert!(!c.is_connected());
    assert!(c.connect("again").is_some());
}

#[test]
fn text_with_a_zero_byte_prepares_nothing() {
    let c = connected(5);
    assert_eq!(c.add_data_definition(0, "PLANE\0LATITUDE", "Degrees", 4, 1, 0), None);
    assert_eq!(c.add_data_definition(0, "PLANE LATITUDE", "Degrees\0", 4, 1, 0), None);
    assert!(c.add_data_definition(0, "PLANE LATITUDE", "Degrees", 4, 1, 0).is_some());
    assert_eq!(c.ai_create_enroute_atc_aircraft("a", "b", 1, "c\0", 0, false, 1), None);
    assert_eq!(c.ai_create_enroute_atc_aircraft("a", "\0b", 1, "c", 0, false, 1), None);
    assert_eq!(c.ai_create_enroute_atc_aircraft("\0", "b", 1, "c", 0, false, 1), None);
    assert_eq!(c.map_input_event_to_client_event(1, "\0", 2, 3, 4, 5, true), None);
    assert_eq!(c.request_reserved_Key(1, "a", "b", "c\0"), None);
    assert_eq!(c.flight_load("a\0.flt"), None);
    assert_eq!(c.subscribe_to_system_event(1, "\0"), None);
    assert_eq!(c.menu_add_item("\0", 1, 2), None);
}

#[test]
fn success_is_code_zero() {
    assert_eq!(S_OK, 0);
    assert!(succeeded(0));
    assert!(!succeeded(1));
    assert!(!succeeded(-1));
    assert!(!succeeded(-2147467259));
}

#[test]
fn text_goes_over_with_a_zero_byte() {
    assert_eq!(to_c_string("Feet"), Some(b"Feet\0".to_vec()));
    assert_eq!(to_c_string(""), Some(vec![0]));
    assert_eq!(to_c_string("h\u{e9}"), Some(vec![b'h', 0xc3, 0xa9, 0]));
    assert_eq!(to_c_string("a\0b"), None);
    assert_eq!(to_c_string("\0"), None);
    assert!(contains_nul("tail\0"));
    assert!(!contains_nul("PLANE LATITUDE"));
    assert!(!contains_nul(""));
}

#[test]
fn add_data_definition_call() {
    let c = connected(5);
    let call = c.add_data_definition(0, "PLANE LATITUDE", "Degrees", 4, u32::MAX, 1.0f32.to_bits());
    assert_eq!(
        call,
        Some(NativeCall {
            handle: 5,
            entry: EntryPoint::AddToDataDefinition {
                define_id: 0,
                datum_name: b"PLANE LATITUDE\0".to_vec(),
                units_name: b"Degrees\0".to_vec(),
                datum_type: 4,
                epsilon_bits: 0x3f80_0000,
                datum_id: u32::MAX,
            },
        })
    );
}

#[test]
fn request_data_on_sim_object_call() {
    let c = connected(5);
    assert_eq!(
        c.request_data_on_sim_object(1, 2, 3, 4, 5, 6, 7, 8).entry,
        EntryPoint::RequestDataOnSimObject {
            request_id: 1,
            define_id: 2,
            object_id: 3,
            period: 4,
            flags: 5,
            origin: 6,
            interval: 7,
            limit: 8,
        }
    );
    assert_eq!(
        c.request_client_data(1, 2, 3, 4, 5, 6, 7, 8).entry,
        EntryPoint::RequestClientData {
            data_id: 1,
            request_id: 2,
            define_id: 3,
            period: 4,
            flags: 5,
            origin: 6,
            interval: 7,
            limit: 8,
        }
    );
    assert_eq!(
        c.request_data_on_sim_object_type(1, 2, 3, 4).entry,
        EntryPoint::RequestDataOnSimObjectType {
            request_id: 1,
            define_id: 2,
            radius_in_meters: 3,
            object_type: 4,
        }
    );
}

#[test]
fn transmit_client_event_call() {
    let c = connected(5);
    assert_eq!(
        c.transmit_client_event(0, 2, 7, 1, 0x10),
        NativeCall {
            handle: 5,
            entry: EntryPoint::TransmitClientEvent {
                object_id: 0,
                event_id: 2,
                data: 7,
                group_id: 1,
                flags: 0x10,
            },
        }
    );
}

#[test]
fn event_and_group_calls() {
    let c = connected(5);
    assert_eq!(
        c.set_system_event_state(1, 1).entry,
        EntryPoint::SetSystemEventState { event_id: 1, state: 1 }
    );
    assert_eq!(
        c.remove_client_event(1, 2).entry,
        EntryPoint::RemoveClientEvent { group_id: 1, event_id: 2 }
    );
    assert_eq!(
        c.clear_notification_group(3).entry,
        EntryPoint::ClearNotificationGroup { group_id: 3 }
    );
    assert_eq!(
        c.request_notification_group(1, 2, 3).entry,
        EntryPoint::RequestNotificationGroup { group_id: 1, reserved: 2, flags: 3 }
    );
    assert_eq!(
        c.add_client_event_to_notification_group(1, 2, true).entry,
        EntryPoint::AddClientEventToNotificationGroup { group_id: 1, event_id: 2, maskable: 1 }
    );
    assert_eq!(
        c.add_client_event_to_notification_group(1, 2, false).entry,
        EntryPoint::AddClientEventToNotificationGroup { group_id: 1, event_id: 2, maskable: 0 }
    );
    assert_eq!(
        c.set_notification_group_priority(1, 1_900_000_000).entry,
        EntryPoint::SetNotificationGroupPriority { group_id: 1, priority: 1_900_000_000 }
    );
    assert_eq!(
        c.subscribe_to_system_event(4, "SimStart").unwrap().entry,
        EntryPoint::SubscribeToSystemEvent { event_id: 4, event_name: b"SimStart\0".to_vec() }
    );
    assert_eq!(
        c.unsubscribe_from_system_event(4).entry,
        EntryPoint::UnsubscribeFromSystemEvent { event_id: 4 }
    );
    assert_eq!(
        c.map_client_event_to_sim_event(1, "PARKING_BRAKES").unwrap().entry,
        EntryPoint::MapClientEventToSimEvent {
            event_id: 1,
            event_name: b"PARKING_BRAKES\0".to_vec(),
        }
    );
}

#[test]
fn input_calls() {
    let c = connected(5);
    assert_eq!(
        c.map_input_event_to_client_event(1, "shift+ctrl+u", 2, 3, 4, 5, true).unwrap().entry,
        EntryPoint::MapInputEventToClientEvent {
            group_id: 1,
            input_definition: b"shift+ctrl+u\0".to_vec(),
            down_event: 2,
            down_return_value: 3,
            up_event: 4,
            up_return_value: 5,
            maskable: 1,
        }
    );
    assert_eq!(
        c.remove_input_event(1, "z").unwrap().entry,
        EntryPoint::RemoveInputEvent { group_id: 1, input_definition: b"z\0".to_vec() }
    );
    assert_eq!(c.clear_input_group(9).entry, EntryPoint::ClearInputGroup { group_id: 9 });
    assert_eq!(
        c.set_input_group_state(1, 1).entry,
        EntryPoint::SetInputGroupState { group_id: 1, state: 1 }
    );
    assert_eq!(
        c.set_input_priority(1, 2).entry,
        EntryPoint::SetInputGroupPriority { group_id: 1, priority: 2 }
    );
    assert_eq!(
        c.request_reserved_Key(1, "a", "b", "c").unwrap().entry,
        EntryPoint::RequestReservedKey {
            event_id: 1,
            key_choice_1: b"a\0".to_vec(),
            key_choice_2: b"b\0".to_vec(),
            key_choice_3: b"c\0".to_vec(),
        }
    );
}

fn position() -> InitPosition {
    InitPosition {
        latitude_bits: 47.5f64.to_bits(),
        longitude_bits: (-122.0f64).to_bits(),
        altitude_bits: 1000.0f64.to_bits(),
        pitch_bits: 0,
        bank_bits: 0,
        heading_bits: 90.0f64.to_bits(),
        on_ground: 0,
        airspeed: 120,
    }
}

#[test]
fn object_calls() {
    let c = connected(5);
    assert_eq!(
        c.ai_create_parked_atc_aircraft("Boeing", "N100", "KSEA", 7).unwrap().entry,
        EntryPoint::AiCreateParkedAtcAircraft {
            container_title: b"Boeing\0".to_vec(),
            tail_number: b"N100\0".to_vec(),
            airport_id: b"KSEA\0".to_vec(),
            request_id: 7,
        }
    );
    assert_eq!(
        c.ai_create_enroute_atc_aircraft(
            "Boeing",
            "N100",
            -3,
            "plan.pln",
            0.5f64.to_bits(),
            true,
            7
        )
        .unwrap()
        .entry,
        EntryPoint::AiCreateEnrouteAtcAircraft {
            container_title: b"Boeing\0".to_vec(),
            tail_number: b"N100\0".to_vec(),
            flight_number: -3,
            flight_plan_path: b"plan.pln\0".to_vec(),
            flight_plan_position_bits: 0x3fe0_0000_0000_0000,
            touch_and_go: 1,
            request_id: 7,
        }
    );
    assert_eq!(
        c.ai_create_non_atc_aircraft("Boeing", "N100", position(), 7).unwrap().entry,
        EntryPoint::AiCreateNonAtcAircraft {
            container_title: b"Boeing\0".to_vec(),
            tail_number: b"N100\0".to_vec(),
            init_pos: position(),
            request_id: 7,
        }
    );
    assert_eq!(
        c.ai_create_simulated_object("Truck", position(), 8).unwrap().entry,
        EntryPoint::AiCreateSimulatedObject {
            container_title: b"Truck\0".to_vec(),
            init_pos: position(),
            request_id: 8,
        }
    );
    assert_eq!(
        c.ai_release_control(1, 2).entry,
        EntryPoint::AiReleaseControl { object_id: 1, request_id: 2 }
    );
    assert_eq!(
        c.ai_remove_object(1, 2).entry,
        EntryPoint::AiRemoveObject { object_id: 1, request_id: 2 }
    );
    assert_eq!(
        c.ai_set_aircraft_flight_plan(1, "plan", 2).unwrap().entry,
        EntryPoint::AiSetAircraftFlightPlan {
            object_id: 1,
            flight_plan_path: b"plan\0".to_vec(),
            request_id: 2,
        }
    );
}

#[test]
fn mission_calls() {
    let c = connected(5);
    let id = Guid { data1: 1, data2: 2, data3: 3, data4: [4, 5, 6, 7, 8, 9, 10, 11] };
    assert_eq!(
        c.execute_mission_action(id).entry,
        EntryPoint::ExecuteMissionAction { instance_id: id }
    );
    assert_eq!(
        c.complete_custom_mission_action(id).entry,
        EntryPoint::CompleteCustomMissionAction { instance_id: id }
    );
}

#[test]
fn calls_without_arguments() {
    let c = connected(5);
    assert_eq!(
        c.get_next_message(),
        NativeCall { handle: 5, entry: EntryPoint::GetNextDispatch }
    );
    assert_eq!(
        c.get_last_sent_packet_id(),
        NativeCall { handle: 5, entry: EntryPoint::GetLastSentPacketId }
    );
    assert_eq!(c.call_dispatch(), NativeCall { handle: 5, entry: EntryPoint::CallDispatch });
    assert_eq!(
        c.request_response_times(3).entry,
        EntryPoint::RequestResponseTimes { count: 3 }
    );
}

#[test]
fn camera_and_menu_calls() {
    let c = connected(5);
    assert_eq!(
        c.camera_set_relative_6dof(1, 2, 3, 4, 5, 6).entry,
        EntryPoint::CameraSetRelative6Dof {
            delta_x_bits: 1,
            delta_y_bits: 2,
            delta_z_bits: 3,
            pitch_bits: 4,
            bank_bits: 5,
            heading_bits: 6,
        }
    );
    assert_eq!(
        c.menu_add_item("Tools", 1, 2).unwrap().entry,
        EntryPoint::MenuAddItem { menu_item: b"Tools\0".to_vec(), event_id: 1, data: 2 }
    );
    assert_eq!(c.menu_delete_item(1).entry, EntryPoint::MenuDeleteItem { event_id: 1 });
    assert_eq!(
        c.menu_delete_sub_item(1, 2).entry,
        EntryPoint::MenuDeleteSubItem { event_id: 1, sub_event_id: 2 }
    );
}

#[test]
fn state_flight_and_facility_calls() {
    let c = connected(5);
    assert_eq!(
        c.request_system_state(1, "Sim").unwrap().entry,
        EntryPoint::RequestSystemState { request_id: 1, state: b"Sim\0".to_vec() }
    );
    assert_eq!(
        c.flight_load("a.flt").unwrap().entry,
        EntryPoint::FlightLoad { file_name: b"a.flt\0".to_vec() }
    );
    assert_eq!(
        c.subscribe_to_facilities(3, 1).entry,
        EntryPoint::SubscribeToFacilities { list_type: 3, request_id: 1 }
    );
    assert_eq!(
        c.unsubscribe_to_facilities(3).entry,
        EntryPoint::UnsubscribeToFacilities { list_type: 3 }
    );
    assert_eq!(
        c.request_facilities_list(0, 1).entry,
        EntryPoint::RequestFacilitiesList { list_type: 0, request_id: 1 }
    );
}

#[test]
fn client_data_calls() {
    let c = connected(5);
    assert_eq!(c.clear_data_definition(2).entry, EntryPoint::ClearDataDefinition { define_id: 2 });
    assert_eq!(
        c.create_client_data(1, 64, 1).entry,
        EntryPoint::CreateClientData { data_id: 1, size: 64, flags: 1 }
    );
    assert_eq!(
        c.map_client_data_name_to_id("area", 1).unwrap().entry,
        EntryPoint::MapClientDataNameToId { client_data_name: b"area\0".to_vec(), data_id: 1 }
    );
    assert_eq!(
        c.add_to_client_data_definition(1, 2, 3, 4, 5).entry,
        EntryPoint::AddToClientDataDefinition {
            define_id: 1,
            offset: 2,
            size_or_type: 3,
            epsilon_bits: 4,
            datum_id: 5,
        }
    );
    assert_eq!(
        c.clear_client_data_definition(1).entry,
        EntryPoint::ClearClientDataDefinition { define_id: 1 }
    );
}

#[test]
fn set_client_data_checks_the_size() {
    let c = connected(5);
    assert_eq!(
        c.set_client_data(1, 2, 3, 4, 3, &[7, 8, 9]),
        Some(NativeCall {
            handle: 5,
            entry: EntryPoint::SetClientData {
                data_id: 1,
                define_id: 2,
                flags: 3,
                reserved: 4,
                unit_size: 3,
                data: vec![7, 8, 9],
            },
        })
    );
    assert!(c.set_client_data(1, 2, 3, 4, 2, &[7, 8, 9]).is_some());
    assert!(c.set_client_data(1, 2, 3, 4, 0, &[]).is_some());
    assert_eq!(c.set_client_data(1, 2, 3, 4, 4, &[7, 8, 9]), None);
    assert_eq!(c.set_client_data(1, 2, 3, 4, u32::MAX, &[7, 8, 9]), None);
}

#[test]
fn text_checks_the_size() {
    let c = connected(5);
    assert_eq!(
        c.text(1, 5.0f32.to_bits(), 2, 3, b"hi\0"),
        Some(NativeCall {
            handle: 5,
            entry: EntryPoint::Text {
                text_type: 1,
                time_in_seconds_bits: 0x40a0_0000,
                event_id: 2,
                unit_size: 3,
                data: b"hi\0".to_vec(),
            },
        })
    );
    assert_eq!(c.text(1, 0, 2, 4, b"hi\0"), None);
}

#[test]
fn set_data_on_sim_object_checks_the_size() {
    let c = connected(5);
    let data = [0u8; 24];
    assert_eq!(
        c.set_data_on_sim_object(1, 2, 0, 3, 8, &data),
        Some(NativeCall {
            handle: 5,
            entry: EntryPoint::SetDataOnSimObject {
                define_id: 1,
                object_id: 2,
                flags: 0,
                array_count: 3,
                unit_size: 8,
                data: data.to_vec(),
            },
        })
    );
    // Three elements of eight bytes need twenty-four bytes.
    assert_eq!(c.set_data_on_sim_object(1, 2, 0, 3, 8, &data[..23]), None);
    assert_eq!(c.set_data_on_sim_object(1, 2, 0, 4, 8, &data), None);
    // A count of zero stands for one element.
    assert!(c.set_data_on_sim_object(1, 2, 0, 0, 24, &data).is_some());
    assert_eq!(c.set_data_on_sim_object(1, 2, 0, 0, 25, &data), None);
    assert!(c.set_data_on_sim_object(1, 2, 0, 0, 0, &[]).is_some());
    assert!(c.set_data_on_sim_object(1, 2, 0, 5, 0, &[]).is_some());
    // The product does not wrap.
    assert_eq!(c.set_data_on_sim_object(1, 2, 0, u32::MAX, u32::MAX, &data), None);
    assert_eq!(c.set_data_on_sim_object(1, 2, 0, 0x1_0000, 0x1_0000, &data), None);
}

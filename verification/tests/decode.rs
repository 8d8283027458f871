use simconnect::dispatch::{decode_message, decode_record, DispatchError, DispatchResult};
use simconnect::event::{RecvEvent, RecvEventRace};
use simconnect::facility::{FacilityAirport, FacilityEntry, FacilityVor, RecvFacilityList};
use simconnect::recv::{RecvCloudState, RecvHeader, RecvOpen};

fn word(x: u32) -> Vec<u8> {
    x.to_le_bytes().to_vec()
}

// A record with the given identifier and body; the size field is set to
// the record's length.
fn record(id: u32, body: &[u8]) -> Vec<u8> {
    let mut rec = Vec::new();
    rec.extend_from_slice(&word(12 + body.len() as u32));
    rec.extend_from_slice(&word(4));
    rec.extend_from_slice(&word(id));
    rec.extend_from_slice(body);
    rec
}

fn counting(n: usize, start: u8) -> Vec<u8> {
    (0..n).map(|i| start.wrapping_add(i as u8)).collect()
}

fn event_body(group: u32, event: u32, data: u32) -> Vec<u8> {
    let mut body = word(group);
    body.extend_from_slice(&word(event));
    body.extend_from_slice(&word(data));
    body
}

#[test]
fn null_record_is_no_data() {
    let rec = record(0, &[]);
    assert_eq!(decode_message(0, &rec), Ok(DispatchResult::Null));
}

#[test]
fn null_record_needs_only_its_header() {
    let rec = [0u8; 12];
    assert_eq!(decode_message(0, &rec), Ok(DispatchResult::Null));
}

#[test]
fn failed_call_is_an_error() {
    let rec = record(4, &event_body(1, 2, 3));
    assert_eq!(decode_message(-2147467259, &rec), Err(DispatchError::CallFailed));
    assert_eq!(decode_message(1, &[]), Err(DispatchError::CallFailed));
}

#[test]
fn unknown_identifier_is_an_error() {
    let rec = record(27, &[0u8; 64]);
    assert_eq!(decode_message(0, &rec), Err(DispatchError::UnhandledRecvId));
    let rec = record(0xffff_ffff, &[]);
    assert_eq!(decode_message(0, &rec), Err(DispatchError::UnhandledRecvId));
    // Even where the size field is wrong.
    let mut rec = record(1000, &[]);
    rec[0] = 200;
    assert_eq!(decode_message(0, &rec), Err(DispatchError::UnhandledRecvId));
}

#[test]
fn short_buffer_is_truncated() {
    assert_eq!(decode_message(0, &[]), Err(DispatchError::Truncated));
    assert_eq!(decode_message(0, &[0u8; 11]), Err(DispatchError::Truncated));
}

#[test]
fn buffer_shorter_than_shape_is_truncated() {
    // An event needs 24 bytes.
    let rec = record(4, &[0u8; 11]);
    assert_eq!(decode_message(0, &rec), Err(DispatchError::Truncated));
    let rec = record(4, &event_body(1, 2, 3));
    assert_eq!(decode_message(0, &rec[..23]), Err(DispatchError::Truncated));
    assert!(decode_message(0, &rec[..24]).is_ok());
}

#[test]
fn the_buffer_decides_not_the_size_field() {
    // The size field is handed on as it was received.
    for size in [0u8, 20, 24, 25, 200] {
        let mut rec = record(4, &event_body(1, 2, 3));
        rec[0] = size;
        match decode_message(0, &rec) {
            Ok(DispatchResult::Event(e)) => {
                assert_eq!(e.header.size, size as u32);
                assert_eq!(e.data, 3);
            }
            other => panic!("{:?}", other),
        }
    }
}

#[test]
fn error_messages() {
    assert_eq!(DispatchError::CallFailed.message(), "Failed getting data!");
    assert_eq!(DispatchError::UnhandledRecvId.message(), "Unhandled RECV_ID");
    assert_eq!(DispatchError::Truncated.message(), "Truncated record");
}

#[test]
fn exception_fields() {
    let mut body = word(7);
    body.extend_from_slice(&word(0x0102_0304));
    body.extend_from_slice(&word(0xffff_ffff));
    let rec = record(1, &body);
    match decode_message(0, &rec) {
        Ok(DispatchResult::Exception(e)) => {
            assert_eq!(e.header, RecvHeader { size: 24, version: 4, id: 1 });
            assert_eq!(e.exception, 7);
            assert_eq!(e.send_id, 0x0102_0304);
            assert_eq!(e.index, 0xffff_ffff);
        }
        other => panic!("{:?}", other),
    }
}

#[test]
fn open_fields() {
    let mut body = counting(256, 1);
    for i in 0..10u32 {
        body.extend_from_slice(&word(100 + i));
    }
    let rec = record(2, &body);
    assert_eq!(rec.len(), 308);
    match decode_message(0, &rec) {
        Ok(DispatchResult::Open(o)) => {
            assert_eq!(o.header.size, 308);
            assert_eq!(o.application_name, counting(256, 1));
            assert_eq!(o.application_version_major, 100);
            assert_eq!(o.application_version_minor, 101);
            assert_eq!(o.application_build_major, 102);
            assert_eq!(o.application_build_minor, 103);
            assert_eq!(o.simconnect_version_major, 104);
            assert_eq!(o.simconnect_version_minor, 105);
            assert_eq!(o.simconnect_build_major, 106);
            assert_eq!(o.simconnect_build_minor, 107);
            assert_eq!(o.reserved1, 108);
            assert_eq!(o.reserved2, 109);
        }
        other => panic!("{:?}", other),
    }
    assert_eq!(RecvOpen::parse(&rec[..307]), None);
}

#[test]
fn quit_holds_its_header() {
    let rec = record(3, &[]);
    assert_eq!(
        decode_message(0, &rec),
        Ok(DispatchResult::Quit(RecvHeader { size: 12, version: 4, id: 3 }))
    );
}

#[test]
fn event_shaped_records() {
    let expect = |id: u32| RecvEvent {
        header: RecvHeader { size: 24, version: 4, id },
        group_id: 0xffff_ffff,
        event_id: 9,
        data: 258,
    };
    let body = event_body(0xffff_ffff, 9, 258);
    assert_eq!(decode_message(0, &record(4, &body)), Ok(DispatchResult::Event(expect(4))));
    assert_eq!(
        decode_message(0, &record(17, &body)),
        Ok(DispatchResult::EventWeatherMode(expect(17)))
    );
    assert_eq!(
        decode_message(0, &record(22, &body)),
        Ok(DispatchResult::EventMultiplayerServerStarted(expect(22)))
    );
    assert_eq!(
        decode_message(0, &record(23, &body)),
        Ok(DispatchResult::EventMultiplayerClientStarted(expect(23)))
    );
    assert_eq!(
        decode_message(0, &record(24, &body)),
        Ok(DispatchResult::EventMultiplayerSessionEnded(expect(24)))
    );
}

#[test]
fn event_object_addremove_fields() {
    let mut body = event_body(1, 2, 3);
    body.extend_from_slice(&word(5));
    match decode_message(0, &record(5, &body)) {
        Ok(DispatchResult::EventObjectAddRemove(e)) => {
            assert_eq!(e.event.event_id, 2);
            assert_eq!(e.event.data, 3);
            assert_eq!(e.object_type, 5);
        }
        other => panic!("{:?}", other),
    }
}

#[test]
fn event_filename_fields() {
    let mut body = event_body(1, 2, 3);
    body.extend_from_slice(&counting(260, 10));
    body.extend_from_slice(&word(77));
    let rec = record(6, &body);
    assert_eq!(rec.len(), 288);
    match decode_message(0, &rec) {
        Ok(DispatchResult::EventFilename(e)) => {
            assert_eq!(e.event.group_id, 1);
            assert_eq!(e.file_name, counting(260, 10));
            assert_eq!(e.flags, 77);
        }
        other => panic!("{:?}", other),
    }
}

#[test]
fn event_frame_keeps_float_bits() {
    let mut body = event_body(1, 2, 3);
    body.extend_from_slice(&59.5f32.to_le_bytes());
    body.extend_from_slice(&1.0f32.to_le_bytes());
    match decode_message(0, &record(7, &body)) {
        Ok(DispatchResult::EventFrame(e)) => {
            assert_eq!(f32::from_bits(e.frame_rate_bits), 59.5);
            assert_eq!(e.sim_speed_bits, 0x3f80_0000);
        }
        other => panic!("{:?}", other),
    }
}

fn simobject_body() -> Vec<u8> {
    let mut body = Vec::new();
    for x in [11u32, 12, 13, 14, 15, 16, 3] {
        body.extend_from_slice(&word(x));
    }
    body.extend_from_slice(&47.5f64.to_le_bytes());
    body.extend_from_slice(&(-122.25f64).to_le_bytes());
    body.extend_from_slice(&1500.0f64.to_le_bytes());
    body
}

#[test]
fn simobject_data_fields() {
    let rec = record(8, &simobject_body());
    assert_eq!(rec.len(), 64);
    match decode_message(0, &rec) {
        Ok(DispatchResult::SimobjectData(d)) => {
            assert_eq!(d.request_id, 11);
            assert_eq!(d.object_id, 12);
            assert_eq!(d.define_id, 13);
            assert_eq!(d.flags, 14);
            assert_eq!(d.entry_number, 15);
            assert_eq!(d.out_of, 16);
            assert_eq!(d.define_count, 3);
            assert_eq!(d.data.len(), 24);
            assert_eq!(d.data, rec[40..].to_vec());
        }
        other => panic!("{:?}", other),
    }
}

#[test]
fn simobject_data_by_type_and_client_data() {
    let body = simobject_body();
    assert!(matches!(
        decode_message(0, &record(9, &body)),
        Ok(DispatchResult::SimobjectDataBytype(d)) if d.define_id == 13 && d.data.len() == 24
    ));
    assert!(matches!(
        decode_message(0, &record(16, &body)),
        Ok(DispatchResult::ClientData(d)) if d.define_id == 13 && d.data.len() == 24
    ));
}

#[test]
fn simobject_data_without_values() {
    let rec = record(8, &[0u8; 28]);
    assert!(matches!(
        decode_message(0, &rec),
        Ok(DispatchResult::SimobjectData(d)) if d.data.is_empty()
    ));
    let rec = record(8, &[0u8; 27]);
    assert_eq!(decode_message(0, &rec), Err(DispatchError::Truncated));
}

#[test]
fn data_runs_to_the_end_of_the_buffer() {
    let mut buf = record(8, &simobject_body());
    buf.extend_from_slice(&[0xee; 10]);
    match decode_message(0, &buf) {
        Ok(DispatchResult::SimobjectData(d)) => assert_eq!(d.data, buf[40..74].to_vec()),
        other => panic!("{:?}", other),
    }
}

#[test]
fn every_kind_decodes_at_its_fixed_size() {
    // Zero bytes announce no entries, so the fixed size is all it takes.
    let sizes: [(u32, usize); 26] = [
        (1, 24),
        (2, 308),
        (3, 12),
        (4, 24),
        (5, 28),
        (6, 288),
        (7, 32),
        (8, 40),
        (9, 40),
        (10, 16),
        (11, 20),
        (12, 20),
        (13, 92),
        (14, 44),
        (15, 284),
        (16, 40),
        (17, 24),
        (18, 28),
        (19, 28),
        (20, 28),
        (21, 28),
        (22, 24),
        (23, 24),
        (24, 24),
        (25, 1108),
        (26, 1108),
    ];
    for (id, size) in sizes {
        let rec = record(id, &vec![0u8; size - 12]);
        assert_eq!(rec.len(), size);
        assert!(decode_message(0, &rec).is_ok(), "{}", id);
        assert_eq!(decode_message(0, &rec[..size - 1]), Err(DispatchError::Truncated), "{}", id);
    }
}

#[test]
fn weather_observation_fields() {
    let mut body = word(21);
    body.extend_from_slice(b"KSEA 121853Z\0");
    match decode_message(0, &record(10, &body)) {
        Ok(DispatchResult::WeatherObservation(w)) => {
            assert_eq!(w.request_id, 21);
            assert_eq!(w.metar, b"KSEA 121853Z\0".to_vec());
        }
        other => panic!("{:?}", other),
    }
}

#[test]
fn cloud_state_fields() {
    let mut body = word(5);
    body.extend_from_slice(&word(6));
    body.extend_from_slice(&[1, 2, 3, 4, 5, 6, 7, 8]);
    let rec = record(11, &body);
    match decode_message(0, &rec) {
        Ok(DispatchResult::CloudState(c)) => {
            assert_eq!(c.request_id, 5);
            assert_eq!(c.array_size, 6);
            assert_eq!(c.data, vec![1, 2, 3, 4, 5, 6]);
        }
        other => panic!("{:?}", other),
    }
}

#[test]
fn cloud_state_announcing_too_much_is_truncated() {
    let mut body = word(5);
    body.extend_from_slice(&word(9));
    body.extend_from_slice(&[1, 2, 3, 4, 5, 6, 7, 8]);
    assert_eq!(decode_message(0, &record(11, &body)), Err(DispatchError::Truncated));
    let mut body = word(5);
    body.extend_from_slice(&word(0xffff_ffff));
    assert_eq!(RecvCloudState::parse(&record(11, &body)), None);
}

#[test]
fn assigned_object_id_fields() {
    let mut body = word(31);
    body.extend_from_slice(&word(32));
    match decode_message(0, &record(12, &body)) {
        Ok(DispatchResult::AssignedObjectId(a)) => {
            assert_eq!(a.request_id, 31);
            assert_eq!(a.object_id, 32);
        }
        other => panic!("{:?}", other),
    }
}

#[test]
fn reserved_key_fields() {
    let mut body = counting(30, 1);
    body.extend_from_slice(&counting(50, 100));
    let rec = record(13, &body);
    assert_eq!(rec.len(), 92);
    match decode_message(0, &rec) {
        Ok(DispatchResult::ReservedKey(k)) => {
            assert_eq!(k.choice_reserved, counting(30, 1));
            assert_eq!(k.reserved_key, counting(50, 100));
        }
        other => panic!("{:?}", other),
    }
}

#[test]
fn custom_action_fields() {
    let mut body = event_body(1, 2, 3);
    body.extend_from_slice(&word(0x1122_3344));
    body.extend_from_slice(&0x5566u16.to_le_bytes());
    body.extend_from_slice(&0x7788u16.to_le_bytes());
    body.extend_from_slice(&[1, 2, 3, 4, 5, 6, 7, 8]);
    body.extend_from_slice(&word(1));
    body.extend_from_slice(b"payload\0");
    let rec = record(14, &body);
    match decode_message(0, &rec) {
        Ok(DispatchResult::CustomAction(a)) => {
            assert_eq!(a.event.event_id, 2);
            assert_eq!(a.instance_id.data1, 0x1122_3344);
            assert_eq!(a.instance_id.data2, 0x5566);
            assert_eq!(a.instance_id.data3, 0x7788);
            assert_eq!(a.instance_id.data4, [1, 2, 3, 4, 5, 6, 7, 8]);
            assert_eq!(a.wait_for_completion, 1);
            assert_eq!(a.payload, b"payload\0".to_vec());
        }
        other => panic!("{:?}", other),
    }
}

#[test]
fn system_state_fields() {
    let mut body = word(41);
    body.extend_from_slice(&word(42));
    body.extend_from_slice(&2.5f32.to_le_bytes());
    body.extend_from_slice(&counting(260, 7));
    let rec = record(15, &body);
    assert_eq!(rec.len(), 284);
    match decode_message(0, &rec) {
        Ok(DispatchResult::SystemState(s)) => {
            assert_eq!(s.request_id, 41);
            assert_eq!(s.integer, 42);
            assert_eq!(f32::from_bits(s.float_bits), 2.5);
            assert_eq!(s.string, counting(260, 7));
        }
        other => panic!("{:?}", other),
    }
}

fn airport(code: &[u8; 9], lat: f64, lon: f64, alt: f64) -> Vec<u8> {
    let mut e = code.to_vec();
    e.extend_from_slice(&lat.to_le_bytes());
    e.extend_from_slice(&lon.to_le_bytes());
    e.extend_from_slice(&alt.to_le_bytes());
    e
}

fn list_body(request: u32, count: u32, entries: &[Vec<u8>]) -> Vec<u8> {
    let mut body = word(request);
    body.extend_from_slice(&word(count));
    body.extend_from_slice(&word(0));
    body.extend_from_slice(&word(1));
    for e in entries {
        body.extend_from_slice(e);
    }
    body
}

#[test]
fn airport_list_entries() {
    let entries = vec![
        airport(b"KSEA\0\0\0\0\0", 47.45, -122.31, 132.0),
        airport(b"KBFI\0\0\0\0\0", 47.53, -122.30, 6.0),
    ];
    let rec = record(18, &list_body(3, 2, &entries));
    assert_eq!(rec.len(), 28 + 2 * 33);
    match decode_message(0, &rec) {
        Ok(DispatchResult::AirportList(l)) => {
            assert_eq!(l.list.request_id, 3);
            assert_eq!(l.list.array_size, 2);
            assert_eq!(l.list.entry_number, 0);
            assert_eq!(l.list.out_of, 1);
            assert_eq!(l.entries.len(), 2);
            assert_eq!(l.entries[0].icao, b"KSEA\0\0\0\0\0".to_vec());
            assert_eq!(f64::from_bits(l.entries[0].latitude_bits), 47.45);
            assert_eq!(f64::from_bits(l.entries[0].longitude_bits), -122.31);
            assert_eq!(f64::from_bits(l.entries[0].altitude_bits), 132.0);
            assert_eq!(l.entries[1].icao, b"KBFI\0\0\0\0\0".to_vec());
            assert_eq!(f64::from_bits(l.entries[1].altitude_bits), 6.0);
        }
        other => panic!("{:?}", other),
    }
}

#[test]
fn empty_airport_list() {
    let rec = record(18, &list_body(3, 0, &[]));
    match decode_message(0, &rec) {
        Ok(DispatchResult::AirportList(l)) => assert!(l.entries.is_empty()),
        other => panic!("{:?}", other),
    }
}

#[test]
fn list_announcing_more_than_it_holds_is_truncated() {
    let entries = vec![airport(b"KSEA\0\0\0\0\0", 47.45, -122.31, 132.0)];
    let rec = record(18, &list_body(3, 2, &entries));
    assert_eq!(decode_message(0, &rec), Err(DispatchError::Truncated));
    let rec = record(18, &list_body(3, 0xffff_ffff, &entries));
    assert_eq!(decode_message(0, &rec), Err(DispatchError::Truncated));
    assert_eq!(RecvFacilityList::<FacilityAirport>::parse(&rec), None);
    assert_eq!(RecvFacilityList::<FacilityVor>::parse(&rec), None);
}

#[test]
fn waypoint_ndb_and_vor_lists() {
    let mut waypoint = airport(b"ALPHA\0\0\0\0", 1.0, 2.0, 3.0);
    waypoint.extend_from_slice(&(-4.5f32).to_le_bytes());
    assert_eq!(waypoint.len(), 37);
    let mut ndb = waypoint.clone();
    ndb.extend_from_slice(&word(362_000));
    assert_eq!(ndb.len(), 41);
    let mut vor = ndb.clone();
    vor.extend_from_slice(&word(7));
    vor.extend_from_slice(&154.0f32.to_le_bytes());
    vor.extend_from_slice(&10.0f64.to_le_bytes());
    vor.extend_from_slice(&20.0f64.to_le_bytes());
    vor.extend_from_slice(&30.0f64.to_le_bytes());
    vor.extend_from_slice(&3.0f32.to_le_bytes());
    assert_eq!(vor.len(), 77);

    let rec = record(21, &list_body(1, 2, &[waypoint.clone(), waypoint.clone()]));
    match decode_message(0, &rec) {
        Ok(DispatchResult::WaypointList(l)) => {
            assert_eq!(l.entries.len(), 2);
            assert_eq!(l.entries[1].airport.icao, b"ALPHA\0\0\0\0".to_vec());
            assert_eq!(f64::from_bits(l.entries[1].airport.longitude_bits), 2.0);
            assert_eq!(f32::from_bits(l.entries[1].mag_var_bits), -4.5);
        }
        other => panic!("{:?}", other),
    }
    let rec = record(20, &list_body(1, 1, &[ndb]));
    match decode_message(0, &rec) {
        Ok(DispatchResult::NdbList(l)) => {
            assert_eq!(l.entries.len(), 1);
            assert_eq!(l.entries[0].frequency, 362_000);
            assert_eq!(f32::from_bits(l.entries[0].waypoint.mag_var_bits), -4.5);
        }
        other => panic!("{:?}", other),
    }
    let rec = record(19, &list_body(1, 3, &[vor.clone(), vor.clone(), vor]));
    match decode_message(0, &rec) {
        Ok(DispatchResult::VorList(l)) => {
            assert_eq!(l.entries.len(), 3);
            let v = &l.entries[2];
            assert_eq!(v.ndb.frequency, 362_000);
            assert_eq!(v.flags, 7);
            assert_eq!(f32::from_bits(v.localizer_bits), 154.0);
            assert_eq!(f64::from_bits(v.glide_lat_bits), 10.0);
            assert_eq!(f64::from_bits(v.glide_lon_bits), 20.0);
            assert_eq!(f64::from_bits(v.glide_alt_bits), 30.0);
            assert_eq!(f32::from_bits(v.glide_slope_angle_bits), 3.0);
        }
        other => panic!("{:?}", other),
    }
}

fn race_body() -> Vec<u8> {
    let mut body = event_body(1, 2, 3);
    body.extend_from_slice(&word(4)); // racer number or lap index
    body.extend_from_slice(&word(8)); // number of racers
    body.extend_from_slice(&counting(16, 0xa0)); // mission
    body.extend_from_slice(&counting(260, 1));
    body.extend_from_slice(&counting(260, 2));
    body.extend_from_slice(&counting(260, 3));
    body.extend_from_slice(&counting(260, 4));
    body.extend_from_slice(&61.25f64.to_le_bytes());
    body.extend_from_slice(&2.0f64.to_le_bytes());
    body.extend_from_slice(&word(1));
    body
}

#[test]
fn race_end_and_race_lap_fields() {
    let rec = record(25, &race_body());
    assert_eq!(rec.len(), 1108);
    let check = |r: &RecvEventRace| {
        assert_eq!(r.event.event_id, 2);
        assert_eq!(r.number, 4);
        assert_eq!(r.racer_data.number_of_racers, 8);
        assert_eq!(r.racer_data.mission_guid.data1, 0xa3a2_a1a0);
        assert_eq!(r.racer_data.mission_guid.data2, 0xa5a4);
        assert_eq!(r.racer_data.mission_guid.data3, 0xa7a6);
        assert_eq!(
            r.racer_data.mission_guid.data4,
            [0xa8, 0xa9, 0xaa, 0xab, 0xac, 0xad, 0xae, 0xaf]
        );
        assert_eq!(r.racer_data.player_name, counting(260, 1));
        assert_eq!(r.racer_data.session_type, counting(260, 2));
        assert_eq!(r.racer_data.aircraft, counting(260, 3));
        assert_eq!(r.racer_data.player_role, counting(260, 4));
        assert_eq!(f64::from_bits(r.racer_data.total_time_bits), 61.25);
        assert_eq!(f64::from_bits(r.racer_data.penalty_time_bits), 2.0);
        assert_eq!(r.racer_data.is_disqualified, 1);
    };
    match decode_message(0, &rec) {
        Ok(DispatchResult::EventRaceEnd(r)) => check(&r),
        other => panic!("{:?}", other),
    }
    match decode_message(0, &record(26, &race_body())) {
        Ok(DispatchResult::EventRaceLap(r)) => check(&r),
        other => panic!("{:?}", other),
    }
    assert_eq!(RecvEventRace::parse(&rec[..1107]), None);
}

#[test]
fn every_supported_identifier_gives_its_own_kind() {
    // A record of 2000 zero bytes is long enough for every shape, and
    // announces no entries.
    for id in 1u32..=26 {
        let rec = record(id, &[0u8; 1988]);
        let msg = decode_message(0, &rec).unwrap();
        let kind = match msg {
            DispatchResult::Null => 0,
            DispatchResult::Exception(_) => 1,
            DispatchResult::Open(_) => 2,
            DispatchResult::Quit(_) => 3,
            DispatchResult::Event(_) => 4,
            DispatchResult::EventObjectAddRemove(_) => 5,
            DispatchResult::EventFilename(_) => 6,
            DispatchResult::EventFrame(_) => 7,
            DispatchResult::SimobjectData(_) => 8,
            DispatchResult::SimobjectDataBytype(_) => 9,
            DispatchResult::WeatherObservation(_) => 10,
            DispatchResult::CloudState(_) => 11,
            DispatchResult::AssignedObjectId(_) => 12,
            DispatchResult::ReservedKey(_) => 13,
            DispatchResult::CustomAction(_) => 14,
            DispatchResult::SystemState(_) => 15,
            DispatchResult::ClientData(_) => 16,
            DispatchResult::EventWeatherMode(_) => 17,
            DispatchResult::AirportList(_) => 18,
            DispatchResult::VorList(_) => 19,
            DispatchResult::NdbList(_) => 20,
            DispatchResult::WaypointList(_) => 21,
            DispatchResult::EventMultiplayerServerStarted(_) => 22,
            DispatchResult::EventMultiplayerClientStarted(_) => 23,
            DispatchResult::EventMultiplayerSessionEnded(_) => 24,
            DispatchResult::EventRaceEnd(_) => 25,
            DispatchResult::EventRaceLap(_) => 26,
        };
        assert_eq!(kind, id);
    }
}

#[test]
fn decode_record_by_identifier() {
    let rec = record(4, &event_body(1, 2, 3));
    assert!(matches!(decode_record(4, &rec), Ok(DispatchResult::Event(e)) if e.data == 3));
    // The identifier given decides, not the one in the header.
    assert!(matches!(decode_record(3, &rec), Ok(DispatchResult::Quit(h)) if h.id == 4));
    assert_eq!(decode_record(0, &rec), Ok(DispatchResult::Null));
    assert_eq!(decode_record(0, &rec[..11]), Err(DispatchError::Truncated));
    assert_eq!(decode_record(5, &rec), Err(DispatchError::Truncated));
    assert_eq!(decode_record(27, &rec), Err(DispatchError::UnhandledRecvId));
}

#[test]
fn facility_entries_are_read_where_they_fit() {
    let mut buf = vec![0xeeu8; 3];
    buf.extend_from_slice(&airport(b"KSEA\0\0\0\0\0", 47.45, -122.31, 132.0));
    assert_eq!(FacilityAirport::size(), 33);
    assert_eq!(FacilityVor::size(), 77);
    let e = FacilityAirport::read_at(&buf, 3).unwrap();
    assert_eq!(e.icao, b"KSEA\0\0\0\0\0".to_vec());
    assert_eq!(f64::from_bits(e.latitude_bits), 47.45);
    assert_eq!(FacilityAirport::read_at(&buf, 4), None);
    assert_eq!(FacilityAirport::read_at(&buf, usize::MAX), None);
    assert_eq!(FacilityVor::read_at(&buf, 0), None);
}

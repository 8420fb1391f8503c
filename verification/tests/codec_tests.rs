use server_info_fetcher::codec::{decode_response, encode_response};
use server_info_fetcher::error::{ErrorClass, ResponseError};
use server_info_fetcher::record::ServerInfo;
use server_info_fetcher::wire::{build_response_frame, encode_request, parse_response_frame};

fn sample_info() -> ServerInfo {
    ServerInfo {
        version: String::from("5.1.0"),
        respawn: true,
        enter: false,
        ai: true,
        host: Some(String::from("host-a")),
        round_id: None,
        players: 42,
        revision: String::from("abc123"),
        revision_date: String::from("2024-01-02"),
        hub: false,
        identifier: String::from("alpha"),
        admins: 3,
        gamestate: 2,
        map_name: String::from("Box Station"),
        security_level: String::from("green"),
        round_duration: String::from("1234.5"),
        time_dilation_current: String::from("1.02"),
        time_dilation_avg: String::from("1.01"),
        time_dilation_avg_slow: String::from("1.005"),
        time_dilation_avg_fast: String::from("1.1"),
        soft_popcap: 60,
        hard_popcap: 80,
        extreme_popcap: 100,
        popcap: Some(90),
        bunkered: Some(false),
        interviews: None,
        shuttle_mode: Some(String::from("idle")),
        shuttle_timer: Some(300),
        active_players: None,
        public_address: Some(String::from("game.example.org:1337")),
    }
}

fn payload_with(respawn: &str, bunkered: &str) -> Vec<u8> {
    let mut text = String::from("{\"version\":\"5.1.0\",");
    text.push_str(&format!("\"respawn\":{},\"enter\":0,\"ai\":1,", respawn));
    text.push_str("\"host\":\"host-a\",\"round_id\":null,\"players\":42,");
    text.push_str("\"revision\":\"abc123\",\"revision_date\":\"2024-01-02\",\"hub\":0,");
    text.push_str("\"identifier\":\"alpha\",\"admins\":3,\"gamestate\":2,");
    text.push_str("\"map_name\":\"Box Station\",\"security_level\":\"green\",");
    text.push_str("\"round_duration\":1234.5,\"time_dilation_current\":1.02,");
    text.push_str("\"time_dilation_avg\":1.01,\"time_dilation_avg_slow\":1.005,");
    text.push_str("\"time_dilation_avg_fast\":1.1,\"soft_popcap\":60,\"hard_popcap\":80,");
    text.push_str(&format!("\"extreme_popcap\":100,\"popcap\":90,\"bunkered\":{},", bunkered));
    text.push_str("\"shuttle_mode\":\"idle\",\"shuttle_timer\":300,");
    text.push_str("\"public_address\":\"game.example.org:1337\"}");
    text.into_bytes()
}


#[test]
fn request_frame_is_bit_exact() {
    let expected: Vec<u8> = vec![
        0x00, 0x83, 0x00, 0x19, 0x00, 0x00, 0x00, 0x00, 0x00, 0x3F, 0x73, 0x74, 0x61, 0x74, 0x75,
        0x73, 0x26, 0x66, 0x6F, 0x72, 0x6D, 0x61, 0x74, 0x3D, 0x6A, 0x73, 0x6F, 0x6E, 0x00,
    ];
    assert_eq!(encode_request(), expected);
}

#[test]
fn frame_round_trip_recovers_payload() {
    let payload: Vec<u8> = vec![1, 2, 3, 4, 5];
    let frame = build_response_frame(&payload);
    assert_eq!(frame[0], 0x00);
    assert_eq!(frame[1], 0x83);
    assert_eq!(frame[2], 0x00);
    assert_eq!(frame[3], 0x07);
    assert_eq!(frame[4], 0x06);
    assert_eq!(*frame.last().unwrap(), 0x00);
    assert_eq!(parse_response_frame(&frame), Ok(payload));
}

#[test]
fn bad_header_is_protocol_mismatch_before_payload() {
    let payload = payload_with("1", "0");
    let mut frame = build_response_frame(&payload);
    frame[1] = 0x84;
    let err = parse_response_frame(&frame).unwrap_err();
    assert_eq!(err, ResponseError::InvalidHeader);
    assert_eq!(err.class(), ErrorClass::ProtocolMismatch);
    // The verdict must not depend on anything after the first two bytes.
    let garbage: Vec<u8> = vec![0x01, 0x83, 0xFF, 0xFF];
    assert_eq!(
        parse_response_frame(&garbage).unwrap_err(),
        ResponseError::InvalidHeader
    );
}

#[test]
fn bad_type_and_footer_are_protocol_mismatch() {
    let payload = payload_with("1", "0");
    let mut frame = build_response_frame(&payload);
    frame[4] = 0x07;
    assert_eq!(
        parse_response_frame(&frame).unwrap_err(),
        ResponseError::InvalidType
    );
    let mut frame2 = build_response_frame(&payload);
    let last = frame2.len() - 1;
    frame2[last] = 0x01;
    assert_eq!(
        parse_response_frame(&frame2).unwrap_err(),
        ResponseError::InvalidFooter
    );
}

#[test]
fn short_length_field_is_invalid_length() {
    let frame: Vec<u8> = vec![0x00, 0x83, 0x00, 0x01, 0x06, 0x00];
    assert_eq!(
        parse_response_frame(&frame).unwrap_err(),
        ResponseError::InvalidLength
    );
}

#[test]
fn truncated_stream_is_transport_error() {
    let payload = payload_with("1", "0");
    let mut frame = build_response_frame(&payload);
    frame.truncate(10);
    let err = parse_response_frame(&frame).unwrap_err();
    assert_eq!(err, ResponseError::Truncated);
    assert_eq!(err.class(), ErrorClass::Transport);
    assert_eq!(
        parse_response_frame(&vec![0x00]).unwrap_err(),
        ResponseError::Truncated
    );
}

#[test]
fn decode_reads_every_field() {
    let frame = build_response_frame(&payload_with("1", "0"));
    let info = decode_response(&frame).unwrap();
    assert_eq!(info.version, "5.1.0");
    assert!(info.respawn);
    assert!(!info.enter);
    assert!(info.ai);
    assert_eq!(info.host.as_deref(), Some("host-a"));
    assert_eq!(info.round_id, None);
    assert_eq!(info.players, 42);
    assert_eq!(info.revision, "abc123");
    assert_eq!(info.revision_date, "2024-01-02");
    assert!(!info.hub);
    assert_eq!(info.identifier, "alpha");
    assert_eq!(info.admins, 3);
    assert_eq!(info.gamestate, 2);
    assert_eq!(info.map_name, "Box Station");
    assert_eq!(info.security_level, "green");
    assert_eq!(info.round_duration, "1234.5");
    assert_eq!(info.time_dilation_current, "1.02");
    assert_eq!(info.time_dilation_avg, "1.01");
    assert_eq!(info.time_dilation_avg_slow, "1.005");
    assert_eq!(info.time_dilation_avg_fast, "1.1");
    assert_eq!(info.soft_popcap, 60);
    assert_eq!(info.hard_popcap, 80);
    assert_eq!(info.extreme_popcap, 100);
    assert_eq!(info.popcap, Some(90));
    assert_eq!(info.bunkered, Some(false));
    assert_eq!(info.interviews, None);
    assert_eq!(info.shuttle_mode.as_deref(), Some("idle"));
    assert_eq!(info.shuttle_timer, Some(300));
    assert_eq!(info.active_players, None);
    assert_eq!(info.public_address.as_deref(), Some("game.example.org:1337"));
}

#[test]
fn encode_then_decode_reproduces_every_field() {
    let info = sample_info();
    let frame = encode_response(&info).unwrap();
    let back = decode_response(&frame).unwrap();
    assert_eq!(back.version, info.version);
    assert_eq!(back.respawn, info.respawn);
    assert_eq!(back.enter, info.enter);
    assert_eq!(back.ai, info.ai);
    assert_eq!(back.host, info.host);
    assert_eq!(back.round_id, info.round_id);
    assert_eq!(back.players, info.players);
    assert_eq!(back.revision, info.revision);
    assert_eq!(back.revision_date, info.revision_date);
    assert_eq!(back.hub, info.hub);
    assert_eq!(back.identifier, info.identifier);
    assert_eq!(back.admins, info.admins);
    assert_eq!(back.gamestate, info.gamestate);
    assert_eq!(back.map_name, info.map_name);
    assert_eq!(back.security_level, info.security_level);
    assert_eq!(back.round_duration, info.round_duration);
    assert_eq!(back.time_dilation_current, info.time_dilation_current);
    assert_eq!(back.time_dilation_avg, info.time_dilation_avg);
    assert_eq!(back.time_dilation_avg_slow, info.time_dilation_avg_slow);
    assert_eq!(back.time_dilation_avg_fast, info.time_dilation_avg_fast);
    assert_eq!(back.soft_popcap, info.soft_popcap);
    assert_eq!(back.hard_popcap, info.hard_popcap);
    assert_eq!(back.extreme_popcap, info.extreme_popcap);
    assert_eq!(back.popcap, info.popcap);
    assert_eq!(back.bunkered, info.bunkered);
    assert_eq!(back.interviews, info.interviews);
    assert_eq!(back.shuttle_mode, info.shuttle_mode);
    assert_eq!(back.shuttle_timer, info.shuttle_timer);
    assert_eq!(back.active_players, info.active_players);
    assert_eq!(back.public_address, info.public_address);
}

#[test]
fn escaped_strings_survive_the_round_trip() {
    let mut info = sample_info();
    info.identifier = String::from("a \"quoted\" name with \\ and \n and \t");
    info.map_name = String::from("tabs\tand\r\nbreaks");
    let frame = encode_response(&info).unwrap();
    let back = decode_response(&frame).unwrap();
    assert_eq!(back.identifier, info.identifier);
    assert_eq!(back.map_name, info.map_name);
}

#[test]
fn unicode_escape_decodes_to_its_character() {
    let text = String::from_utf8(payload_with("1", "0")).unwrap();
    let text = text.replace("\"alpha\"", "\"\\u0041lpha \\u00e9 \\u20ac\"");
    let frame = build_response_frame(&text.into_bytes());
    let info = decode_response(&frame).unwrap();
    assert_eq!(info.identifier, "Alpha \u{e9} \u{20ac}");
}

#[test]
fn nonbinary_bool_fails_with_decode_error() {
    let frame = build_response_frame(&payload_with("2", "0"));
    let err = decode_response(&frame).unwrap_err();
    assert_eq!(err, ResponseError::InvalidBool);
    assert_eq!(err.class(), ErrorClass::Decode);
}

#[test]
fn nonbinary_optional_bool_fails_with_decode_error() {
    let frame = build_response_frame(&payload_with("1", "3"));
    assert_eq!(
        decode_response(&frame).unwrap_err(),
        ResponseError::InvalidBool
    );
}

#[test]
fn optional_bool_null_is_absent() {
    let frame = build_response_frame(&payload_with("0", "null"));
    let info = decode_response(&frame).unwrap();
    assert_eq!(info.bunkered, None);
    assert!(!info.respawn);
}

#[test]
fn invalid_utf8_payload_is_protocol_mismatch() {
    let frame = build_response_frame(&vec![0xFF, 0xFE, 0x7B, 0x7D]);
    let err = decode_response(&frame).unwrap_err();
    assert_eq!(err, ResponseError::InvalidUtf8);
    assert_eq!(err.class(), ErrorClass::ProtocolMismatch);
}

#[test]
fn malformed_payload_is_decode_error() {
    let frame = build_response_frame(&b"not json at all".to_vec());
    let err = decode_response(&frame).unwrap_err();
    assert_eq!(err, ResponseError::MalformedPayload);
    assert_eq!(err.class(), ErrorClass::Decode);
    let frame2 = build_response_frame(&b"{\"version\":\"1\",".to_vec());
    assert_eq!(
        decode_response(&frame2).unwrap_err(),
        ResponseError::MalformedPayload
    );
}

#[test]
fn missing_required_field_is_decode_error() {
    let text = String::from_utf8(payload_with("1", "0")).unwrap();
    let text = text.replace("\"players\":42,", "");
    let frame = build_response_frame(&text.into_bytes());
    assert_eq!(
        decode_response(&frame).unwrap_err(),
        ResponseError::MissingField
    );
}

#[test]
fn duplicate_field_is_decode_error() {
    let text = String::from_utf8(payload_with("1", "0")).unwrap();
    let text = text.replace("\"players\":42,", "\"players\":42,\"players\":43,");
    let frame = build_response_frame(&text.into_bytes());
    assert_eq!(
        decode_response(&frame).unwrap_err(),
        ResponseError::DuplicateField
    );
}

#[test]
fn wrong_field_type_is_decode_error() {
    let text = String::from_utf8(payload_with("1", "0")).unwrap();
    let text = text.replace("\"players\":42,", "\"players\":\"42\",");
    let frame = build_response_frame(&text.into_bytes());
    assert_eq!(
        decode_response(&frame).unwrap_err(),
        ResponseError::WrongType
    );
}

#[test]
fn out_of_range_number_is_decode_error() {
    let text = String::from_utf8(payload_with("1", "0")).unwrap();
    let text = text.replace("\"players\":42,", "\"players\":4294967296,");
    let frame = build_response_frame(&text.into_bytes());
    assert_eq!(
        decode_response(&frame).unwrap_err(),
        ResponseError::NumberOutOfRange
    );
}

#[test]
fn whitespace_and_field_order_do_not_matter() {
    let mut text = String::from("  {\n \"respawn\" : 1 , \"version\" : \"5.1.0\" ,\"enter\":0,\"ai\":1,");
    text.push_str("\"host\":null,\"round_id\":null,\"players\":0,");
    text.push_str("\"revision\":\"r\",\"revision_date\":\"d\",\"hub\":1,");
    text.push_str("\"identifier\":\"x\",\"admins\":0,\"gamestate\":0,");
    text.push_str("\"map_name\":\"m\",\"security_level\":\"s\",");
    text.push_str("\"round_duration\":0,\"time_dilation_current\":1e3,");
    text.push_str("\"time_dilation_avg\":-1.5,\"time_dilation_avg_slow\":0.5,");
    text.push_str("\"time_dilation_avg_fast\":2E-2,\"soft_popcap\":1,\"hard_popcap\":2,");
    text.push_str("\"extreme_popcap\":3}  \n");
    let frame = build_response_frame(&text.into_bytes());
    let info = decode_response(&frame).unwrap();
    assert!(info.respawn);
    assert_eq!(info.version, "5.1.0");
    assert_eq!(info.host, None);
    assert_eq!(info.popcap, None);
    assert_eq!(info.time_dilation_current, "1e3");
    assert_eq!(info.time_dilation_avg, "-1.5");
    assert_eq!(info.time_dilation_avg_fast, "2E-2");
}

#[test]
fn unknown_fields_are_ignored() {
    let text = String::from_utf8(payload_with("1", "0")).unwrap();
    let text = text.replace("\"players\":42,", "\"players\":42,\"extra\":\"zzz\",\"more\":true,");
    let frame = build_response_frame(&text.into_bytes());
    let info = decode_response(&frame).unwrap();
    assert_eq!(info.players, 42);
}

#[test]
fn decoded_records_can_be_encoded_again() {
    let frame = build_response_frame(&payload_with("1", "0"));
    let info = decode_response(&frame).unwrap();
    let reframed = encode_response(&info).unwrap();
    let again = decode_response(&reframed).unwrap();
    assert_eq!(again.identifier, info.identifier);
    assert_eq!(again.round_duration, info.round_duration);
    assert_eq!(again.popcap, info.popcap);
    assert_eq!(again.bunkered, info.bunkered);
}

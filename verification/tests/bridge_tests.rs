use dm_bridge::bridge::{on_reply, Bridge, ReadEvent};
use dm_bridge::catalogue::{
    bind_window_payload, find_pic_payload, find_window_payload, get_window_rect_payload,
    key_press_payload, left_click_payload, move_to_payload,
};
use dm_bridge::domain::{FindPicOptions, Point, Rect};
use dm_bridge::errors::BridgeError;
use dm_bridge::interpret::{to_bool, to_point_search, to_rect, to_u64};
use dm_bridge::numlist::to_vec_u64;
use dm_bridge::wire::{get_field, Node, Scalar};

fn ready_bridge() -> Bridge {
    let mut b = Bridge::new();
    let r = b.handshake(ReadEvent::Line(r#"{"status":"ready"}"#.to_string()));
    assert!(r.is_ok());
    b
}

fn ok_reply(result_json: &str) -> ReadEvent {
    ReadEvent::Line(format!(r#"{{"status":"ok","result":{}}}"#, result_json))
}

#[test]
fn ids_start_at_one_and_strictly_increase() {
    let mut b = Bridge::new();
    assert_eq!(b.next_id(), 1);
    assert_eq!(b.next_id(), 2);
    assert_eq!(b.next_id(), 3);
    assert_eq!(b.last_id, 3);
}

#[test]
fn ids_wrap_to_one_never_zero() {
    let mut b = Bridge::new();
    b.last_id = u32::MAX - 1;
    assert_eq!(b.next_id(), u32::MAX);
    assert_eq!(b.next_id(), 1);
}

#[test]
fn handshake_ready_line_makes_bridge_ready() {
    let mut b = Bridge::new();
    let r = b.handshake(ReadEvent::Line(r#"{"status":"ready"}"#.to_string()));
    assert!(r.is_ok());
    assert!(b.is_ready());
}

#[test]
fn handshake_closed_stream_is_premature_exit() {
    let mut b = Bridge::new();
    let r = b.handshake(ReadEvent::Closed);
    assert_eq!(r, Err(BridgeError::PrematureExit));
    assert!(!b.is_ready());
}

#[test]
fn handshake_other_line_is_unexpected() {
    let mut b = Bridge::new();
    let r = b.handshake(ReadEvent::Line(r#"{"status":"late"}"#.to_string()));
    assert_eq!(r, Err(BridgeError::UnexpectedHandshake));
    assert!(!b.is_ready());
}

#[test]
fn handshake_invalid_json_is_decode_error() {
    let mut b = Bridge::new();
    let r = b.handshake(ReadEvent::Line("not json".to_string()));
    assert_eq!(r, Err(BridgeError::DecodeError));
    assert!(!b.is_ready());
}

#[test]
fn handshake_read_failure_is_io_error() {
    let mut b = Bridge::new();
    let r = b.handshake(ReadEvent::Failed("eio".to_string()));
    assert_eq!(r, Err(BridgeError::IoError("eio".to_string())));
    assert!(!b.is_ready());
}

#[test]
fn request_line_is_exact_compact_json() {
    let mut b = ready_bridge();
    let (id, line) = b.prepare_request("KeyPress", key_press_payload(13));
    assert_eq!(id, 1);
    assert_eq!(line, r#"{"cmd":"KeyPress","id":1,"payload":{"vk_code":13}}"#);
    let (id2, line2) = b.prepare_request("LeftClick", left_click_payload());
    assert_eq!(id2, 2);
    assert_eq!(line2, r#"{"cmd":"LeftClick","id":2,"payload":{}}"#);
}

#[test]
fn round_trip_restores_command_and_payload() {
    let mut b = ready_bridge();
    let (_, line) = b.prepare_request("FindWindow", find_window_payload("Cls", "Title"));
    let parsed = dm_bridge::codec::parse_line(&line);
    let doc = match parsed {
        dm_bridge::codec::ParsedLine::Doc(d) => d,
        _ => panic!("request line must parse back to a document"),
    };
    assert_eq!(
        get_field(&doc, "cmd"),
        Some(&Node::Prim(Scalar::Text("FindWindow".to_string())))
    );
    assert_eq!(get_field(&doc, "id"), Some(&Node::Prim(Scalar::UInt(1))));
    let payload = match get_field(&doc, "payload") {
        Some(Node::Obj(fields)) => fields.clone(),
        _ => panic!("payload must come back as an object"),
    };
    assert_eq!(
        payload,
        vec![
            ("class".to_string(), Scalar::Text("Cls".to_string())),
            ("title".to_string(), Scalar::Text("Title".to_string())),
        ]
    );
}

#[test]
fn round_trip_restores_move_to_coordinates() {
    let mut b = ready_bridge();
    let (_, line) = b.prepare_request("MoveTo", move_to_payload(&Point { x: -4, y: 9 }));
    let doc = match dm_bridge::codec::parse_line(&line) {
        dm_bridge::codec::ParsedLine::Doc(d) => d,
        _ => panic!("request line must parse back to a document"),
    };
    let payload = match get_field(&doc, "payload") {
        Some(Node::Obj(fields)) => fields.clone(),
        _ => panic!("payload must come back as an object"),
    };
    assert_eq!(
        payload,
        vec![("x".to_string(), Scalar::Int(-4)), ("y".to_string(), Scalar::UInt(9))]
    );
}

#[test]
fn bind_window_payload_carries_all_fields() {
    let mut b = ready_bridge();
    let (_, line) = b.prepare_request(
        "BindWindow",
        bind_window_payload(7, "normal", "windows", "windows", 0),
    );
    assert_eq!(
        line,
        r#"{"cmd":"BindWindow","id":1,"payload":{"display":"normal","hwnd":7,"keypad":"windows","mode":0,"mouse":"windows"}}"#
    );
}

#[test]
fn find_pic_payload_writes_similarity_as_decimal() {
    let mut b = ready_bridge();
    let rect = Rect { x1: 0, y1: 0, x2: 100, y2: 50 };
    let (_, line) = b.prepare_request(
        "FindPic",
        find_pic_payload(&rect, "x.bmp", &FindPicOptions::default()),
    );
    assert_eq!(
        line,
        r#"{"cmd":"FindPic","id":1,"payload":{"delta_color":"000000","dir":0,"pic_name":"x.bmp","sim":0.9,"x1":0,"x2":100,"y1":0,"y2":50}}"#
    );
}

#[test]
fn find_pic_similarity_thousandths_edges() {
    let mut b = ready_bridge();
    let rect = Rect { x1: 1, y1: 2, x2: 3, y2: 4 };
    let opts = FindPicOptions { delta_color: "101010".to_string(), sim_milli: 1000, dir: 2 };
    let (_, line) = b.prepare_request("FindPic", find_pic_payload(&rect, "p.bmp", &opts));
    assert!(line.contains(r#""sim":1.0"#));
    let opts2 = FindPicOptions { delta_color: "101010".to_string(), sim_milli: 50, dir: 2 };
    let mut b2 = ready_bridge();
    let (_, line2) = b2.prepare_request("FindPic", find_pic_payload(&rect, "p.bmp", &opts2));
    assert!(line2.contains(r#""sim":0.05"#));
}

#[test]
fn default_find_pic_options() {
    let opts = FindPicOptions::default();
    assert_eq!(opts.delta_color, "000000".to_string());
    assert_eq!(opts.sim_milli, 900);
    assert_eq!(opts.dir, 0);
}

#[test]
fn bool_decode_one_is_true() {
    assert_eq!(to_bool(on_reply(ok_reply("1"))), Ok(true));
}

#[test]
fn bool_decode_zero_is_false() {
    assert_eq!(to_bool(on_reply(ok_reply("0"))), Ok(false));
}

#[test]
fn bool_decode_text_is_type_mismatch() {
    assert_eq!(to_bool(on_reply(ok_reply(r#""x""#))), Err(BridgeError::TypeMismatch));
}

#[test]
fn u64_decode_reads_integer() {
    assert_eq!(to_u64(on_reply(ok_reply("12345"))), Ok(12345));
    assert_eq!(to_u64(on_reply(ok_reply("18446744073709551615"))), Ok(u64::MAX));
}

#[test]
fn u64_decode_rejects_non_integers() {
    assert_eq!(to_u64(on_reply(ok_reply(r#""7""#))), Err(BridgeError::TypeMismatch));
    assert_eq!(to_u64(on_reply(ok_reply("-3"))), Err(BridgeError::TypeMismatch));
    assert_eq!(to_u64(on_reply(ok_reply("1.5"))), Err(BridgeError::TypeMismatch));
}

#[test]
fn rect_decode_reads_corners() {
    let r = to_rect(on_reply(ok_reply("[10,20,110,220,1]")));
    assert_eq!(r, Ok(Rect { x1: 10, y1: 20, x2: 110, y2: 220 }));
}

#[test]
fn rect_decode_zero_sentinel_is_operation_failed() {
    let r = to_rect(on_reply(ok_reply("[0,0,0,0,0]")));
    assert_eq!(r, Err(BridgeError::OperationFailed));
}

#[test]
fn rect_decode_short_array_is_arity_error() {
    assert_eq!(to_rect(on_reply(ok_reply("[1,2,3]"))), Err(BridgeError::ArityError));
}

#[test]
fn point_decode_not_found_sentinel_is_absent() {
    assert_eq!(to_point_search(on_reply(ok_reply("[5,7,-1]"))), Ok(None));
}

#[test]
fn point_decode_found_is_present() {
    assert_eq!(to_point_search(on_reply(ok_reply("[5,7,0]"))), Ok(Some(Point { x: 5, y: 7 })));
}

#[test]
fn point_decode_short_array_is_arity_error() {
    assert_eq!(to_point_search(on_reply(ok_reply("[5]"))), Err(BridgeError::ArityError));
}

#[test]
fn point_decode_non_numeric_element_is_type_mismatch() {
    assert_eq!(
        to_point_search(on_reply(ok_reply(r#"[5,"y",0]"#))),
        Err(BridgeError::TypeMismatch)
    );
}

#[test]
fn list_decode_reads_comma_joined_integers() {
    assert_eq!(to_vec_u64(on_reply(ok_reply(r#""3,7,42""#))), Ok(vec![3, 7, 42]));
}

#[test]
fn list_decode_empty_text_is_empty_list() {
    assert_eq!(to_vec_u64(on_reply(ok_reply(r#""""#))), Ok(vec![]));
}

#[test]
fn list_decode_discards_empty_segments() {
    assert_eq!(to_vec_u64(on_reply(ok_reply(r#"",,3,7,""#))), Ok(vec![3, 7]));
}

#[test]
fn list_decode_accepts_leading_plus() {
    assert_eq!(to_vec_u64(on_reply(ok_reply(r#""+7""#))), Ok(vec![7]));
}

#[test]
fn list_decode_non_numeric_segment_is_parse_error() {
    assert_eq!(to_vec_u64(on_reply(ok_reply(r#""3,x""#))), Err(BridgeError::ParseError));
}

#[test]
fn list_decode_overflowing_segment_is_parse_error() {
    assert_eq!(
        to_vec_u64(on_reply(ok_reply(r#""18446744073709551616""#))),
        Err(BridgeError::ParseError)
    );
}

#[test]
fn list_decode_non_text_result_is_type_mismatch() {
    assert_eq!(to_vec_u64(on_reply(ok_reply("[3,7]"))), Err(BridgeError::TypeMismatch));
}

#[test]
fn error_reply_passes_message_through_whatever_the_type() {
    let line = || ReadEvent::Line(r#"{"status":"error","msg":"boom"}"#.to_string());
    assert_eq!(to_bool(on_reply(line())), Err(BridgeError::RemoteError("boom".to_string())));
    assert_eq!(to_rect(on_reply(line())), Err(BridgeError::RemoteError("boom".to_string())));
    assert_eq!(to_vec_u64(on_reply(line())), Err(BridgeError::RemoteError("boom".to_string())));
}

#[test]
fn error_reply_without_message_is_malformed() {
    let ev = ReadEvent::Line(r#"{"status":"error"}"#.to_string());
    assert_eq!(to_bool(on_reply(ev)), Err(BridgeError::MalformedReply));
}

#[test]
fn reply_without_status_is_malformed() {
    let ev = ReadEvent::Line(r#"{"result":1}"#.to_string());
    assert_eq!(to_u64(on_reply(ev)), Err(BridgeError::MalformedReply));
}

#[test]
fn ok_reply_without_result_is_malformed() {
    let ev = ReadEvent::Line(r#"{"status":"ok"}"#.to_string());
    assert_eq!(to_u64(on_reply(ev)), Err(BridgeError::MalformedReply));
}

#[test]
fn non_object_reply_is_malformed() {
    assert_eq!(to_u64(on_reply(ReadEvent::Line("5".to_string()))), Err(BridgeError::MalformedReply));
}

#[test]
fn closed_stream_fails_with_stream_closed() {
    assert_eq!(to_u64(on_reply(ReadEvent::Closed)), Err(BridgeError::StreamClosed));
    assert_eq!(to_bool(on_reply(ReadEvent::Closed)), Err(BridgeError::StreamClosed));
}

#[test]
fn later_duplicate_field_wins() {
    let ev = ReadEvent::Line(r#"{"status":"ok","status":"error","msg":"dup"}"#.to_string());
    assert_eq!(to_bool(on_reply(ev)), Err(BridgeError::RemoteError("dup".to_string())));
}

#[test]
fn get_window_rect_payload_names_the_handle() {
    let mut b = ready_bridge();
    let (_, line) = b.prepare_request("GetWindowRect", get_window_rect_payload(99));
    assert_eq!(line, r#"{"cmd":"GetWindowRect","id":1,"payload":{"hwnd":99}}"#);
}

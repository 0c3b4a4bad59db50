use backend_rpc::header::is_plain;
use backend_rpc::header::MessageHeader;
use backend_rpc::rpc::read_msg_object;
use backend_rpc::rpc::write_msg_object;
use backend_rpc::rpc::BackendRpcArgVariant;
use backend_rpc::rpc::BackendRpcRetVariant;
use backend_rpc::rpc::ExampleMessage;
use backend_rpc::rpc::ExampleReturn;
use backend_rpc::rpc::RpcKind;
use backend_rpc::rpc::EXAMPLE_RPC_ID;
use backend_rpc::serializer::BackendSerializer;
use backend_rpc::serializer::Frame;
use backend_rpc::serializer::ProtocolViolation;

fn argument(msg: &str) -> BackendRpcArgVariant {
    BackendRpcArgVariant::ExampleRpc(ExampleMessage { msg: msg.to_string() })
}

fn result(msg: &str) -> BackendRpcRetVariant {
    BackendRpcRetVariant::ExampleRpc(ExampleReturn { msg: msg.to_string() })
}

const HELLO_FRAME: &[u8] =
    b"{\"rpc\":\"ExampleRpc\",\"body_size\":15,\"is_return\":false}{\"msg\":\"hello\"}";

#[test]
fn argument_frame_has_the_documented_bytes() {
    let bytes = BackendSerializer::serialize_rpc_arg(&argument("hello"));
    assert_eq!(bytes, HELLO_FRAME.to_vec());
}

#[test]
fn return_frame_has_the_documented_bytes() {
    // Both directions are written with the flag off.
    let bytes = BackendSerializer::serialize_rpc_ret(result("hello"));
    assert_eq!(bytes, HELLO_FRAME.to_vec());
}

#[test]
fn argument_round_trips() {
    let bytes = BackendSerializer::serialize_rpc_arg(&argument("hello"));
    let decoded = BackendSerializer::parse_rpc_recv(&bytes);
    assert_eq!(decoded, Ok(Some((bytes.len(), argument("hello")))));
}

#[test]
fn return_round_trips() {
    let bytes = BackendSerializer::serialize_rpc_ret(result("hello"));
    let decoded = BackendSerializer::parse_rpc_result(&bytes);
    assert_eq!(decoded, Ok(Some((bytes.len(), result("hello")))));
}

#[test]
fn round_trip_keeps_every_kind_of_text() {
    let texts = [
        "",
        "plain",
        "with \"quotes\" and \\ backslash",
        "line\nbreak\ttab\r",
        "control \u{1} \u{1f}",
        "braces } { } inside",
        "caf\u{e9} \u{4e16}\u{754c} \u{1f600}",
    ];
    for text in texts {
        let bytes = BackendSerializer::serialize_rpc_arg(&argument(text));
        assert_eq!(
            BackendSerializer::parse_rpc_recv(&bytes),
            Ok(Some((bytes.len(), argument(text))))
        );
        let bytes = BackendSerializer::serialize_rpc_ret(result(text));
        assert_eq!(
            BackendSerializer::parse_rpc_result(&bytes),
            Ok(Some((bytes.len(), result(text))))
        );
    }
}

#[test]
fn text_is_escaped_as_json_asks() {
    assert_eq!(write_msg_object("a\"b\\c\n"), b"{\"msg\":\"a\\\"b\\\\c\\n\"}".to_vec());
    assert_eq!(write_msg_object(""), b"{\"msg\":\"\"}".to_vec());
    assert_eq!(write_msg_object("\u{1}"), b"{\"msg\":\"\\u0001\"}".to_vec());
}

#[test]
fn escaped_text_is_read_back_unescaped() {
    assert_eq!(read_msg_object(b"{\"msg\":\"a\\\"b\\\\c\\n\"}"), Some("a\"b\\c\n".to_string()));
    assert_eq!(read_msg_object(b"{\"msg\":\"\\u0041\"}"), Some("A".to_string()));
}

#[test]
fn payload_must_be_an_object_with_a_text_msg() {
    assert_eq!(read_msg_object(b"{\"msg\":\"x\"}"), Some("x".to_string()));
    assert_eq!(read_msg_object(b" { \"other\" : 1 , \"msg\" : \"x\" } "), Some("x".to_string()));
    assert_eq!(read_msg_object(b"{\"msg\":5}"), None);
    assert_eq!(read_msg_object(b"{\"msg\":null}"), None);
    assert_eq!(read_msg_object(b"{\"message\":\"x\"}"), None);
    assert_eq!(read_msg_object(b"{}"), None);
    assert_eq!(read_msg_object(b"\"x\""), None);
    assert_eq!(read_msg_object(b"{\"msg\":\"x\"} trailing"), None);
    assert_eq!(read_msg_object(b"{\"msg\":\"x\""), None);
    assert_eq!(read_msg_object(b""), None);
}

#[test]
fn frame_length_is_header_plus_body() {
    let bytes = BackendSerializer::serialize_rpc_arg(&argument("hello"));
    assert_eq!(bytes.len(), 53 + 15);
    assert_eq!(
        BackendSerializer::split_frame(&bytes),
        Ok(Some(Frame { kind: RpcKind::ExampleRpc, body_start: 53, body_end: 68 }))
    );
}

#[test]
fn body_size_is_written_in_decimal() {
    let empty = BackendSerializer::frame(RpcKind::ExampleRpc, b"");
    assert_eq!(empty, b"{\"rpc\":\"ExampleRpc\",\"body_size\":0,\"is_return\":false}".to_vec());
    let nine = BackendSerializer::frame(RpcKind::ExampleRpc, &[b'x'; 9]);
    assert!(nine.starts_with(b"{\"rpc\":\"ExampleRpc\",\"body_size\":9,\"is_return\":false}"));
    let ten = BackendSerializer::frame(RpcKind::ExampleRpc, &[b'x'; 10]);
    assert!(ten.starts_with(b"{\"rpc\":\"ExampleRpc\",\"body_size\":10,\"is_return\":false}"));
    let long = BackendSerializer::frame(RpcKind::ExampleRpc, &vec![b'x'; 120_305]);
    assert!(long.starts_with(b"{\"rpc\":\"ExampleRpc\",\"body_size\":120305,\"is_return\":false}"));
    assert_eq!(long.len(), 57 + 120_305);
}

#[test]
fn two_frames_in_a_row_are_read_one_after_the_other() {
    let first = BackendSerializer::serialize_rpc_arg(&argument("first"));
    let second = BackendSerializer::serialize_rpc_arg(&argument("the second one"));
    let mut both = first.clone();
    both.extend_from_slice(&second);

    let (n, x) = BackendSerializer::parse_rpc_recv(&both).unwrap().unwrap();
    assert_eq!(n, first.len());
    assert_eq!(x, argument("first"));
    let (m, y) = BackendSerializer::parse_rpc_recv(&both[n..]).unwrap().unwrap();
    assert_eq!(m, second.len());
    assert_eq!(y, argument("the second one"));
    assert_eq!(BackendSerializer::parse_rpc_recv(&both[n + m..]), Ok(None));

    assert_eq!(BackendSerializer::parse_rpc_recv(&first), Ok(Some((n, x))));
    assert_eq!(BackendSerializer::parse_rpc_recv(&second), Ok(Some((m, y))));
}

#[test]
fn two_return_frames_in_a_row_are_read_one_after_the_other() {
    let first = BackendSerializer::serialize_rpc_ret(result("a"));
    let second = BackendSerializer::serialize_rpc_ret(result("b"));
    let mut both = first.clone();
    both.extend_from_slice(&second);
    assert_eq!(BackendSerializer::parse_rpc_result(&both), Ok(Some((first.len(), result("a")))));
    assert_eq!(
        BackendSerializer::parse_rpc_result(&both[first.len()..]),
        Ok(Some((second.len(), result("b"))))
    );
}

#[test]
fn every_cut_of_a_frame_is_incomplete() {
    let bytes = BackendSerializer::serialize_rpc_arg(&argument("hello"));
    for len in 0..bytes.len() {
        assert_eq!(BackendSerializer::parse_rpc_recv(&bytes[..len]), Ok(None), "cut at {}", len);
        assert_eq!(BackendSerializer::parse_rpc_result(&bytes[..len]), Ok(None), "cut at {}", len);
        assert_eq!(BackendSerializer::split_frame(&bytes[..len]), Ok(None), "cut at {}", len);
    }
}

#[test]
fn body_shorter_than_declared_is_incomplete() {
    let buf = b"{\"rpc\":\"ExampleRpc\",\"body_size\":16,\"is_return\":false}{\"msg\":\"hello\"}";
    assert_eq!(BackendSerializer::parse_rpc_recv(buf), Ok(None));
    let huge = b"{\"rpc\":\"ExampleRpc\",\"body_size\":18446744073709551615,\"is_return\":false}{}";
    assert_eq!(BackendSerializer::parse_rpc_recv(huge), Ok(None));
}

#[test]
fn body_ends_where_the_header_says() {
    let buf = b"{\"rpc\":\"ExampleRpc\",\"body_size\":11,\"is_return\":false}{\"msg\":\"a\"}{\"msg\":\"b\"}";
    assert_eq!(BackendSerializer::parse_rpc_recv(buf), Ok(Some((53 + 11, argument("a")))));
}

#[test]
fn unknown_rpc_is_a_violation() {
    let buf = b"{\"rpc\":\"NoSuchRpc\",\"body_size\":15,\"is_return\":false}{\"msg\":\"hello\"}";
    assert_eq!(BackendSerializer::parse_rpc_recv(buf), Err(ProtocolViolation::UnknownRpc));
    assert_eq!(BackendSerializer::parse_rpc_result(buf), Err(ProtocolViolation::UnknownRpc));
    let close = b"{\"rpc\":\"examplerpc\",\"body_size\":15,\"is_return\":false}{\"msg\":\"hello\"}";
    assert_eq!(BackendSerializer::parse_rpc_recv(close), Err(ProtocolViolation::UnknownRpc));
    let empty = b"{\"rpc\":\"\",\"body_size\":15,\"is_return\":false}{\"msg\":\"hello\"}";
    assert_eq!(BackendSerializer::parse_rpc_recv(empty), Err(ProtocolViolation::UnknownRpc));
}

#[test]
fn unknown_rpc_is_a_violation_before_its_body_arrives() {
    let buf = b"{\"rpc\":\"NoSuchRpc\",\"body_size\":15,\"is_return\":false}";
    assert_eq!(BackendSerializer::parse_rpc_recv(buf), Err(ProtocolViolation::UnknownRpc));
}

#[test]
fn return_flag_is_a_violation_in_both_directions() {
    let buf = b"{\"rpc\":\"ExampleRpc\",\"body_size\":15,\"is_return\":true}{\"msg\":\"hello\"}";
    assert_eq!(BackendSerializer::parse_rpc_recv(buf), Err(ProtocolViolation::ReturnFlagSet));
    assert_eq!(BackendSerializer::parse_rpc_result(buf), Err(ProtocolViolation::ReturnFlagSet));
}

#[test]
fn header_that_is_no_header_is_a_violation() {
    let inputs: [&[u8]; 8] = [
        b"{}",
        b"{not json}",
        b"{\"rpc\":\"ExampleRpc\"}",
        b"{\"rpc\":\"ExampleRpc\",\"body_size\":15}",
        b"{\"rpc\":7,\"body_size\":15,\"is_return\":false}",
        b"{\"rpc\":\"ExampleRpc\",\"body_size\":\"15\",\"is_return\":false}",
        b"{\"rpc\":\"ExampleRpc\",\"body_size\":15,\"is_return\":0}",
        b"{\"rpc\":\"ExampleRpc\",\"body_size\":15,\"is_return\":false,}",
    ];
    for input in inputs {
        assert_eq!(
            BackendSerializer::parse_rpc_recv(input),
            Err(ProtocolViolation::MalformedHeader)
        );
        assert_eq!(
            BackendSerializer::parse_rpc_result(input),
            Err(ProtocolViolation::MalformedHeader)
        );
    }
}

#[test]
fn body_size_must_be_an_unsigned_integer() {
    let inputs: [&[u8]; 4] = [
        b"{\"rpc\":\"ExampleRpc\",\"body_size\":-1,\"is_return\":false}",
        b"{\"rpc\":\"ExampleRpc\",\"body_size\":1.0,\"is_return\":false}",
        b"{\"rpc\":\"ExampleRpc\",\"body_size\":1e2,\"is_return\":false}",
        b"{\"rpc\":\"ExampleRpc\",\"body_size\":18446744073709551616,\"is_return\":false}",
    ];
    for input in inputs {
        assert_eq!(MessageHeader::read(input), None);
        assert_eq!(
            BackendSerializer::parse_rpc_recv(input),
            Err(ProtocolViolation::MalformedHeader)
        );
    }
}

#[test]
fn body_of_the_wrong_shape_is_a_violation() {
    let buf = b"{\"rpc\":\"ExampleRpc\",\"body_size\":15,\"is_return\":false}{\"txt\":\"hello\"}";
    assert_eq!(BackendSerializer::parse_rpc_recv(buf), Err(ProtocolViolation::MalformedBody));
    assert_eq!(BackendSerializer::parse_rpc_result(buf), Err(ProtocolViolation::MalformedBody));
    let cut = b"{\"rpc\":\"ExampleRpc\",\"body_size\":14,\"is_return\":false}{\"msg\":\"hello\"}";
    assert_eq!(BackendSerializer::parse_rpc_recv(cut), Err(ProtocolViolation::MalformedBody));
    let none = b"{\"rpc\":\"ExampleRpc\",\"body_size\":0,\"is_return\":false}";
    assert_eq!(BackendSerializer::parse_rpc_recv(none), Err(ProtocolViolation::MalformedBody));
}

#[test]
fn header_may_have_spaces_another_order_and_more_members() {
    let buf = b"{ \"is_return\" : false, \"extra\" : [1, 2], \"body_size\" : 15,\n\"rpc\" : \"ExampleRpc\" }{\"msg\":\"hello\"}";
    let header_len = buf.len() - 15;
    assert_eq!(
        BackendSerializer::parse_rpc_recv(buf),
        Ok(Some((header_len + 15, argument("hello"))))
    );
}

#[test]
fn closing_brace_in_the_payload_does_no_harm() {
    // The scan ends at the header's own closing brace, before the body starts.
    let bytes = BackendSerializer::serialize_rpc_arg(&argument("a}b"));
    assert_eq!(
        bytes,
        b"{\"rpc\":\"ExampleRpc\",\"body_size\":13,\"is_return\":false}{\"msg\":\"a}b\"}".to_vec()
    );
    assert_eq!(
        BackendSerializer::parse_rpc_recv(&bytes),
        Ok(Some((bytes.len(), argument("a}b"))))
    );
}

#[test]
fn closing_brace_in_the_header_cuts_it_short() {
    // A known limit of the scan: it takes the brace inside the name for the
    // end of the header, and what it cut off is no JSON.
    let buf = b"{\"rpc\":\"Example}Rpc\",\"body_size\":15,\"is_return\":false}{\"msg\":\"hello\"}";
    assert_eq!(BackendSerializer::parse_rpc_recv(buf), Err(ProtocolViolation::MalformedHeader));
    let nested = b"{\"rpc\":\"ExampleRpc\",\"meta\":{},\"body_size\":15,\"is_return\":false}{\"msg\":\"hello\"}";
    assert_eq!(
        BackendSerializer::parse_rpc_recv(nested),
        Err(ProtocolViolation::MalformedHeader)
    );
}

#[test]
fn header_is_written_and_read_back() {
    let header = MessageHeader { rpc: "Some_Rpc_2".to_string(), body_size: 4096, is_return: true };
    assert!(is_plain(&header.rpc));
    let mut buf = b"before".to_vec();
    header.write(&mut buf);
    assert_eq!(
        buf,
        b"before{\"rpc\":\"Some_Rpc_2\",\"body_size\":4096,\"is_return\":true}".to_vec()
    );
    assert_eq!(MessageHeader::read(&buf[6..]), Some(header));
}

#[test]
fn header_reads_each_member_by_its_kind() {
    let read = MessageHeader::read(b"{\"rpc\":\"x\",\"body_size\":7,\"is_return\":true}").unwrap();
    assert_eq!(read.rpc, "x");
    assert_eq!(read.body_size, 7);
    assert!(read.is_return);
    let read = MessageHeader::read(b"{\"rpc\":\"\",\"body_size\":0,\"is_return\":false}").unwrap();
    assert_eq!(read.rpc, "");
    assert_eq!(read.body_size, 0);
    assert!(!read.is_return);
}

#[test]
fn plain_names_are_letters_digits_and_underscores() {
    assert!(is_plain(""));
    assert!(is_plain(EXAMPLE_RPC_ID));
    assert!(is_plain("azAZ09_"));
    assert!(!is_plain("a b"));
    assert!(!is_plain("a}b"));
    assert!(!is_plain("a\"b"));
    assert!(!is_plain("a-b"));
    assert!(!is_plain("caf\u{e9}"));
    assert!(!is_plain("`"));
    assert!(!is_plain("{"));
    assert!(!is_plain("@"));
    assert!(!is_plain("["));
    assert!(!is_plain("/"));
    assert!(!is_plain(":"));
}

#[test]
fn registry_knows_the_example_procedure_only() {
    assert_eq!(EXAMPLE_RPC_ID, "ExampleRpc");
    assert_eq!(RpcKind::ExampleRpc.name(), "ExampleRpc");
    assert_eq!(RpcKind::lookup("ExampleRpc"), Some(RpcKind::ExampleRpc));
    assert_eq!(RpcKind::lookup("ExampleRpc "), None);
    assert_eq!(RpcKind::lookup(""), None);
    assert_eq!(argument("x").kind(), RpcKind::ExampleRpc);
    assert_eq!(result("x").kind(), RpcKind::ExampleRpc);
}

#[test]
fn bodies_are_written_and_read_by_kind() {
    assert_eq!(argument("hi").encode_body(), b"{\"msg\":\"hi\"}".to_vec());
    assert_eq!(result("hi").encode_body(), b"{\"msg\":\"hi\"}".to_vec());
    assert_eq!(
        BackendRpcArgVariant::decode_body(RpcKind::ExampleRpc, b"{\"msg\":\"hi\"}"),
        Some(argument("hi"))
    );
    assert_eq!(
        BackendRpcRetVariant::decode_body(RpcKind::ExampleRpc, b"{\"msg\":\"hi\"}"),
        Some(result("hi"))
    );
    assert_eq!(BackendRpcArgVariant::decode_body(RpcKind::ExampleRpc, b"[\"hi\"]"), None);
    assert_eq!(BackendRpcRetVariant::decode_body(RpcKind::ExampleRpc, b"nonsense"), None);
}

#[test]
fn frame_is_placed_after_its_header() {
    let header =
        MessageHeader { rpc: "ExampleRpc".to_string(), body_size: 15, is_return: false };
    assert_eq!(
        BackendSerializer::frame_after_header(&header, 53, 68),
        Ok(Some(Frame { kind: RpcKind::ExampleRpc, body_start: 53, body_end: 68 }))
    );
    assert_eq!(
        BackendSerializer::frame_after_header(&header, 53, 100),
        Ok(Some(Frame { kind: RpcKind::ExampleRpc, body_start: 53, body_end: 68 }))
    );
    assert_eq!(BackendSerializer::frame_after_header(&header, 53, 67), Ok(None));
    assert_eq!(BackendSerializer::frame_after_header(&header, 53, 53), Ok(None));
    assert_eq!(BackendSerializer::frame_after_header(&header, 53, 10), Ok(None));
    let empty = MessageHeader { rpc: "ExampleRpc".to_string(), body_size: 0, is_return: false };
    assert_eq!(
        BackendSerializer::frame_after_header(&empty, 52, 52),
        Ok(Some(Frame { kind: RpcKind::ExampleRpc, body_start: 52, body_end: 52 }))
    );
    let huge = MessageHeader {
        rpc: "ExampleRpc".to_string(),
        body_size: usize::MAX,
        is_return: false,
    };
    assert_eq!(BackendSerializer::frame_after_header(&huge, 53, 68), Ok(None));
}

#[test]
fn header_shows_a_violation_before_the_body_is_looked_at() {
    let flagged = MessageHeader { rpc: "ExampleRpc".to_string(), body_size: 15, is_return: true };
    assert_eq!(
        BackendSerializer::frame_after_header(&flagged, 52, 52),
        Err(ProtocolViolation::ReturnFlagSet)
    );
    let unknown = MessageHeader { rpc: "Other".to_string(), body_size: 15, is_return: false };
    assert_eq!(
        BackendSerializer::frame_after_header(&unknown, 48, 48),
        Err(ProtocolViolation::UnknownRpc)
    );
    // A flag on an unknown procedure is reported as the flag.
    let both = MessageHeader { rpc: "Other".to_string(), body_size: 15, is_return: true };
    assert_eq!(
        BackendSerializer::frame_after_header(&both, 47, 47),
        Err(ProtocolViolation::ReturnFlagSet)
    );
}

#[test]
fn written_frames_are_read_back() {
    let texts = ["", "hello", "a\"b\\c\n", "}{", "\u{0}\u{7f}\u{80}\u{10ffff}"];
    for text in texts {
        assert!(BackendSerializer::reads_back_argument(&argument(text)));
        assert!(BackendSerializer::reads_back_return(&result(text)));
    }
    for size in [0, 1, 9, 10, 99, 100, 4096, 65_535, usize::MAX] {
        assert!(BackendSerializer::reads_back_header(RpcKind::ExampleRpc, size));
    }
}

#[test]
fn name_that_is_not_plain_is_escaped_by_the_json_writer() {
    let header = MessageHeader { rpc: "a \"b\"\n".to_string(), body_size: 1, is_return: false };
    assert!(!is_plain(&header.rpc));
    let mut buf = Vec::new();
    header.write(&mut buf);
    assert_eq!(buf, b"{\"rpc\":\"a \\\"b\\\"\\n\",\"body_size\":1,\"is_return\":false}".to_vec());
    assert_eq!(MessageHeader::read(&buf), Some(header));
}

#[test]
fn plain_name_is_written_as_the_json_writer_writes_it() {
    for name in ["", "ExampleRpc", "azAZ09_", "_", "0"] {
        assert!(is_plain(name));
        let header = MessageHeader { rpc: name.to_string(), body_size: 0, is_return: false };
        let mut written = Vec::new();
        header.write(&mut written);
        let mut expected = b"{\"rpc\":".to_vec();
        expected.extend_from_slice(&serde_json::to_vec(name).unwrap());
        expected.extend_from_slice(b",\"body_size\":");
        expected.extend_from_slice(&serde_json::to_vec(&0usize).unwrap());
        expected.extend_from_slice(b",\"is_return\":");
        expected.extend_from_slice(&serde_json::to_vec(&false).unwrap());
        expected.extend_from_slice(b"}");
        assert_eq!(written, expected);
    }
}

#[test]
fn numbers_and_flags_are_written_as_the_json_writer_writes_them() {
    for size in [0usize, 7, 10, 99, 100, 12_345, usize::MAX] {
        for flag in [false, true] {
            let header = MessageHeader { rpc: "R".to_string(), body_size: size, is_return: flag };
            let mut written = Vec::new();
            header.write(&mut written);
            let mut expected = b"{\"rpc\":\"R\",\"body_size\":".to_vec();
            expected.extend_from_slice(&serde_json::to_vec(&size).unwrap());
            expected.extend_from_slice(b",\"is_return\":");
            expected.extend_from_slice(&serde_json::to_vec(&flag).unwrap());
            expected.extend_from_slice(b"}");
            assert_eq!(written, expected);
        }
    }
}

/// The bytes that the JSON writer is said to write for one character.
fn escaped(c: char) -> Vec<u8> {
    match c {
        '"' => b"\\\"".to_vec(),
        '\\' => b"\\\\".to_vec(),
        '\u{8}' => b"\\b".to_vec(),
        '\t' => b"\\t".to_vec(),
        '\n' => b"\\n".to_vec(),
        '\u{c}' => b"\\f".to_vec(),
        '\r' => b"\\r".to_vec(),
        c if (c as u32) < 0x20 => {
            let hex = b"0123456789abcdef";
            vec![b'\\', b'u', b'0', b'0', hex[(c as usize) / 16], hex[(c as usize) % 16]]
        }
        c => c.to_string().into_bytes(),
    }
}

#[test]
fn every_character_is_written_as_the_escape_table_says() {
    let mut chars: Vec<char> = (0u8..=0x7f).map(char::from).collect();
    chars.extend(['\u{80}', '\u{ff}', '\u{7ff}', '\u{800}', '\u{d7ff}', '\u{e000}']);
    chars.extend(['\u{ffff}', '\u{10000}', '\u{10ffff}', '/', '\u{2028}']);
    let mut all = String::new();
    let mut all_escaped = Vec::new();
    for c in chars {
        let mut expected = b"{\"msg\":\"".to_vec();
        expected.extend_from_slice(&escaped(c));
        expected.extend_from_slice(b"\"}");
        assert_eq!(write_msg_object(&c.to_string()), expected, "character {:?}", c);
        all.push(c);
        all_escaped.extend_from_slice(&escaped(c));
    }
    let mut expected = b"{\"msg\":\"".to_vec();
    expected.extend_from_slice(&all_escaped);
    expected.extend_from_slice(b"\"}");
    assert_eq!(write_msg_object(&all), expected);
    assert_eq!(read_msg_object(&expected), Some(all));
}

#[test]
fn text_without_escapes_gives_the_frame_byte_for_byte() {
    for text in ["", "hello", "a b/c~", "{}[]:,", "0123456789"] {
        let mut expected = b"{\"rpc\":\"ExampleRpc\",\"body_size\":".to_vec();
        expected.extend_from_slice((text.len() + 10).to_string().as_bytes());
        expected.extend_from_slice(b",\"is_return\":false}{\"msg\":\"");
        expected.extend_from_slice(text.as_bytes());
        expected.extend_from_slice(b"\"}");
        assert_eq!(BackendSerializer::serialize_rpc_arg(&argument(text)), expected);
        assert_eq!(BackendSerializer::serialize_rpc_ret(result(text)), expected);
    }
}

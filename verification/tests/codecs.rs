use http_api_service::codec::{
    decode_with, decoded_json, encode_multipart, encode_with, encoded_json, BodyDeserializer, BodySerializer, DecodeError,
    EncodeError, DEFAULT_DUMMY_BYPASS_DESERIALIZER, DEFAULT_DUMMY_BYPASS_SERIALIZER,
    DEFAULT_DUMMY_BYPASS_SERIALIZER_FOR_BYTES, DEFAULT_MULTIPART_SERIALIZER,
    DEFAULT_MULTIPART_SERIALIZER_FOR_BYTES, DEFAULT_SERDE_JSON_DESERIALIZER,
    DEFAULT_SERDE_JSON_SERIALIZER, DEFAULT_SERDE_JSON_SERIALIZER_FOR_BYTES,
};
use http_api_service::header::HeaderSet;
use http_api_service::multipart::{
    boundary_from_headers, data_and_boundary_from_multipart, data_from_multipart, field_names,
    generate_boundary, get_content_type_from_multipart_boundary, reads_field_data, BoundaryError, FieldMap, FormData,
    FormDataParseError, MultipartError,
};
use http_api_service::stream::{Polled, WriteForBody};
use std::collections::BTreeMap;
use std::sync::Arc;

fn form() -> FormData {
    FormData {
        fields: vec![
            ("name".to_owned(), "Baxter".to_owned()),
            ("age".to_owned(), "1 month".to_owned()),
        ],
    }
}


const BODY_ABC: &str = "--abc\r\nContent-Type: text/plain\r\nContent-Disposition: form-data; name=\"name\"\r\n\r\nBaxter\r\n--abc\r\nContent-Type: text/plain\r\nContent-Disposition: form-data; name=\"age\"\r\n\r\n1 month\r\n--abc--";

fn is_boundary_byte(b: u8) -> bool {
    b.is_ascii_alphanumeric() || b == b'+' || b == b'-' || b == b'.'
}

#[test]
fn multipart_body_for_a_given_boundary() {
    let body = data_from_multipart(&form(), &b"abc".to_vec()).unwrap();
    assert_eq!(String::from_utf8(body).unwrap(), BODY_ABC);
    let empty = data_from_multipart(&FormData { fields: vec![] }, &b"abc".to_vec()).unwrap();
    assert_eq!(empty, b"--abc--");
}

#[test]
fn content_type_announces_the_boundary() {
    assert_eq!(
        get_content_type_from_multipart_boundary(b"XyZ".to_vec()).unwrap(),
        "multipart/form-data; boundary=\"XyZ\""
    );
    assert_eq!(
        get_content_type_from_multipart_boundary(Vec::new()).unwrap(),
        "multipart/form-data; boundary=\"\""
    );
    assert!(matches!(
        get_content_type_from_multipart_boundary(vec![0xff, 0xfe]),
        Err(MultipartError::Boundary(_))
    ));
}

#[test]
fn encode_multipart_gives_content_type_and_body() {
    let (content_type, body) = encode_multipart(&form(), b"abc".to_vec()).unwrap();
    assert_eq!(content_type, "multipart/form-data; boundary=\"abc\"");
    assert_eq!(String::from_utf8(body).unwrap(), BODY_ABC);
    assert!(matches!(
        encode_multipart(&form(), vec![0xc3]),
        Err(EncodeError::Multipart(MultipartError::Boundary(_)))
    ));
}

#[test]
fn generated_boundary_has_sixty_eight_boundary_bytes() {
    let drawn = generate_boundary();
    assert_eq!(drawn.len(), 68);
    assert!(drawn.iter().all(|b| is_boundary_byte(*b)));
    let (data, boundary) = data_and_boundary_from_multipart(&form()).unwrap();
    assert_eq!(boundary.len(), 68);
    assert!(boundary.iter().all(|b| is_boundary_byte(*b)));
    let expected = data_from_multipart(&form(), &boundary).unwrap();
    assert_eq!(data, expected);
}

#[test]
fn successive_multipart_encodes_use_different_boundaries() {
    let (first_type, first_body) = DEFAULT_MULTIPART_SERIALIZER.encode(form()).unwrap();
    let (second_type, second_body) = DEFAULT_MULTIPART_SERIALIZER_FOR_BYTES.encode(form()).unwrap();
    assert_ne!(first_type, second_type);
    assert_ne!(first_body, second_body);
    for (content_type, body) in [(first_type, first_body), (second_type, second_body)] {
        let prefix = "multipart/form-data; boundary=\"";
        assert!(content_type.starts_with(prefix));
        assert!(content_type.ends_with('"'));
        let token = &content_type[prefix.len()..content_type.len() - 1];
        assert_eq!(token.len(), 68);
        assert!(token.bytes().all(is_boundary_byte));
        assert_eq!(content_type, format!("multipart/form-data; boundary=\"{}\"", token));
        let expected = BODY_ABC.replace("abc", token);
        assert_eq!(String::from_utf8(body).unwrap(), expected);
    }
}

#[test]
fn json_encode_then_decode_gives_the_value_back() {
    let list = vec!["Alien ".to_string(), "5 month".to_string()];
    let bytes = DEFAULT_SERDE_JSON_SERIALIZER_FOR_BYTES.encode(list.clone()).unwrap();
    assert_eq!(bytes, b"[\"Alien \",\"5 month\"]");
    let back: Box<Vec<String>> = DEFAULT_SERDE_JSON_DESERIALIZER.decode(&bytes).unwrap();
    assert_eq!(*back, list);

    let mut map = BTreeMap::new();
    map.insert("name".to_string(), "Alien ".to_string());
    map.insert("age".to_string(), "5 month".to_string());
    let bytes = DEFAULT_SERDE_JSON_SERIALIZER.encode(map.clone()).unwrap();
    assert_eq!(bytes, b"{\"age\":\"5 month\",\"name\":\"Alien \"}");
    let back: Box<BTreeMap<String, String>> = DEFAULT_SERDE_JSON_DESERIALIZER.decode(&bytes).unwrap();
    assert_eq!(*back, map);

    let nested: Vec<(u32, Option<bool>, String)> =
        vec![(1, Some(true), "é\"\n".to_string()), (u32::MAX, None, String::new())];
    let bytes = DEFAULT_SERDE_JSON_SERIALIZER_FOR_BYTES.encode(nested.clone()).unwrap();
    let back: Box<Vec<(u32, Option<bool>, String)>> =
        DEFAULT_SERDE_JSON_DESERIALIZER.decode(&bytes).unwrap();
    assert_eq!(*back, nested);

    let reordered = b" { \"name\" : \"Alien \", \"age\" : \"5 month\" } ".to_vec();
    let back: Box<BTreeMap<String, String>> =
        DEFAULT_SERDE_JSON_DESERIALIZER.decode(&reordered).unwrap();
    assert_eq!(*back, map);
}

#[test]
fn malformed_json_is_a_decode_error() {
    let broken: Result<Box<Vec<String>>, DecodeError> =
        DEFAULT_SERDE_JSON_DESERIALIZER.decode(&b"[\"a\",".to_vec());
    assert!(matches!(broken, Err(DecodeError::Json(_))));
    let wrong_type: Result<Box<Vec<String>>, DecodeError> =
        DEFAULT_SERDE_JSON_DESERIALIZER.decode(&b"{\"a\":1}".to_vec());
    assert!(matches!(wrong_type, Err(DecodeError::Json(_))));
    let empty: Result<Box<u8>, DecodeError> = DEFAULT_SERDE_JSON_DESERIALIZER.decode(&Vec::new());
    assert!(matches!(empty, Err(DecodeError::Json(_))));
}

#[test]
fn value_that_json_cannot_write_is_an_encode_error() {
    let mut map = BTreeMap::new();
    map.insert((1, 2), "pair".to_string());
    assert!(matches!(
        DEFAULT_SERDE_JSON_SERIALIZER_FOR_BYTES.encode(map.clone()),
        Err(EncodeError::Json(_))
    ));
    assert!(matches!(DEFAULT_SERDE_JSON_SERIALIZER.encode(map), Err(EncodeError::Json(_))));
}

#[test]
fn bypass_codecs_hand_bytes_on() {
    let bytes = vec![0u8, 1, 2, 255];
    assert_eq!(DEFAULT_DUMMY_BYPASS_SERIALIZER_FOR_BYTES.encode(bytes.clone()).unwrap(), bytes);
    assert_eq!(DEFAULT_DUMMY_BYPASS_SERIALIZER.encode(bytes.clone()).unwrap(), bytes);
    assert_eq!(*DEFAULT_DUMMY_BYPASS_DESERIALIZER.decode(&bytes).unwrap(), bytes);
    assert_eq!(*DEFAULT_DUMMY_BYPASS_DESERIALIZER.decode(&Vec::new()).unwrap(), Vec::<u8>::new());
}

#[test]
fn shared_codecs_do_what_they_point_to() {
    let serializer: Arc<dyn BodySerializer<Vec<u8>, Vec<u8>>> =
        Arc::new(DEFAULT_DUMMY_BYPASS_SERIALIZER_FOR_BYTES);
    let deserializer: Arc<dyn BodyDeserializer<Vec<u8>>> = Arc::new(DEFAULT_DUMMY_BYPASS_DESERIALIZER);
    assert_eq!(encode_with(&serializer, vec![7u8]).unwrap(), vec![7u8]);
    assert_eq!(*decode_with(&deserializer, &vec![8u8]).unwrap(), vec![8u8]);
    assert_eq!(serializer.encode(vec![9u8]).unwrap(), vec![9u8]);
}

#[test]
fn boundary_is_read_from_the_content_type() {
    let mut headers = HeaderSet::new();
    headers.insert("Content-Type", "multipart/form-data; boundary=\"ABCDEFG\"").unwrap();
    assert_eq!(boundary_from_headers(&headers).unwrap(), "ABCDEFG");
    let (content_type, _) = encode_multipart(&form(), b"xyz.-+1".to_vec()).unwrap();
    headers.insert("content-type", &content_type).unwrap();
    assert_eq!(boundary_from_headers(&headers).unwrap(), "xyz.-+1");
}

#[test]
fn missing_or_unreadable_boundary_is_an_error() {
    match boundary_from_headers(&HeaderSet::new()) {
        Err(BoundaryError::Missing(e)) => assert_eq!(e.message(), "{}: Nonecontent-type"),
        other => panic!("unexpected: {:?}", other),
    }
    let mut plain = HeaderSet::new();
    plain.insert("Content-Type", "text/plain").unwrap();
    assert!(matches!(boundary_from_headers(&plain), Err(BoundaryError::Unreadable(_))));
    let mut bare = HeaderSet::new();
    bare.insert("Content-Type", "multipart/form-data").unwrap();
    assert!(matches!(boundary_from_headers(&bare), Err(BoundaryError::Unreadable(_))));
}

#[test]
fn parse_error_keeps_its_message() {
    let e = FormDataParseError::new("no boundary");
    assert_eq!(e.message(), "no boundary");
    assert_eq!(FormDataParseError::new("").message(), "");
}

#[test]
fn parts_are_recorded_by_name() {
    assert_eq!(field_names(None, None), (String::new(), String::new()));
    assert_eq!(
        field_names(Some("a".to_string()), Some("f.txt".to_string())),
        ("a".to_string(), "f.txt".to_string())
    );
    assert!(reads_field_data(""));
    assert!(!reads_field_data("f.txt"));

    let mut map = FieldMap::new();
    map.record(Some("name".to_string()), None, b"Baxter".to_vec());
    map.record(Some("photo".to_string()), Some("p.gif".to_string()), b"GIF89a".to_vec());
    map.record(None, None, b"anonymous".to_vec());
    map.record(Some("name".to_string()), None, b"Rex".to_vec());
    assert_eq!(map.len(), 3);
    let name = map.get("name").unwrap();
    assert_eq!((name.name.as_str(), name.file_name.as_str(), name.data.as_slice()), ("name", "", &b"Rex"[..]));
    let photo = map.get("photo").unwrap();
    assert_eq!((photo.file_name.as_str(), photo.data.len()), ("p.gif", 0));
    assert_eq!(map.get("").unwrap().data, b"anonymous");
    assert!(map.get("absent").is_none());
    assert_eq!(map.get_at(0).unwrap().name, "name");
    assert_eq!(map.get_at(1).unwrap().name, "photo");
    assert_eq!(map.get_at(2).unwrap().name, "");
    assert!(map.get_at(3).is_none());
    map.insert("photo".to_string(), "q.gif".to_string(), b"raw".to_vec());
    assert_eq!(map.get("photo").unwrap().data, b"raw");
    assert_eq!(map.len(), 3);
}

#[test]
fn chunks_come_out_in_the_order_they_went_in() {
    let mut queue = WriteForBody::new();
    assert!(queue.is_alive());
    assert!(matches!(queue.poll_next(), Polled::Pending));
    assert_eq!(queue.write(b"first"), 5);
    assert_eq!(queue.write(b""), 0);
    assert_eq!(queue.write(b"second"), 6);
    queue.flush();
    assert_eq!(queue.len(), 2);
    match queue.poll_next() {
        Polled::Ready(chunk) => assert_eq!(chunk, b"first"),
        other => panic!("unexpected: {:?}", other),
    }
    queue.close();
    assert!(!queue.is_alive());
    match queue.poll_next() {
        Polled::Ready(chunk) => assert_eq!(chunk, b"second"),
        other => panic!("unexpected: {:?}", other),
    }
    assert!(matches!(queue.poll_next(), Polled::Ended));
    assert!(matches!(queue.poll_next(), Polled::Ended));
}

fn read_ready(queue: &mut WriteForBody, capacity: usize) -> Vec<u8> {
    match queue.read(capacity) {
        Polled::Ready(bytes) => bytes,
        other => panic!("unexpected: {:?}", other),
    }
}

#[test]
fn read_keeps_what_does_not_fit_for_the_next_read() {
    let mut queue = WriteForBody::new();
    assert!(matches!(queue.read(8), Polled::Pending));
    queue.write(b"0123456789");
    queue.write(b"ab");
    queue.write(b"tail");
    assert_eq!(read_ready(&mut queue, 4), b"0123");
    assert_eq!(queue.len(), 3);
    assert_eq!(read_ready(&mut queue, 4), b"4567");
    assert_eq!(read_ready(&mut queue, 4), b"89");
    assert_eq!(read_ready(&mut queue, 4), b"ab");
    assert_eq!(queue.len(), 1);
    queue.close();
    assert_eq!(read_ready(&mut queue, 3), b"tai");
    assert_eq!(read_ready(&mut queue, 3), b"l");
    assert!(matches!(queue.read(3), Polled::Ended));
    assert_eq!(queue.len(), 0);
}

#[test]
fn read_with_no_room_takes_nothing_and_loses_nothing() {
    let mut queue = WriteForBody::new();
    queue.write(b"xyz");
    assert_eq!(read_ready(&mut queue, 0), b"");
    assert_eq!(queue.len(), 1);
    assert_eq!(read_ready(&mut queue, 8), b"xyz");
    assert!(matches!(queue.read(8), Polled::Pending));
    queue.close();
    assert!(matches!(queue.read(8), Polled::Ended));
}

#[test]
fn successive_reads_deliver_the_body_as_it_was_written() {
    let chunks: Vec<&[u8]> = vec![b"--abc\r\n", b"Content-Type: text/plain\r\n", b"\r\n", b"B", b"axter\r\n--abc--"];
    let written: Vec<u8> = chunks.concat();
    for capacity in [1usize, 2, 3, 7, 64] {
        let mut queue = WriteForBody::new();
        for chunk in chunks.iter() {
            queue.write(chunk);
        }
        queue.close();
        let mut delivered = Vec::new();
        loop {
            match queue.read(capacity) {
                Polled::Ready(bytes) => {
                    assert!(!bytes.is_empty() && bytes.len() <= capacity);
                    delivered.extend(bytes);
                }
                Polled::Ended => break,
                Polled::Pending => panic!("pending after close"),
            }
        }
        assert_eq!(delivered, written);
    }
}

fn expected_body(boundary: &str, fields: &[(&str, &str)]) -> Vec<u8> {
    let mut body = String::new();
    for (name, value) in fields {
        let name_on_one_line: String =
            name.chars().map(|c| if c == '\r' || c == '\n' { ' ' } else { c }).collect();
        body += &format!(
            "--{}\r\nContent-Type: text/plain\r\nContent-Disposition: form-data; name=\"{}\"\r\n\r\n{}\r\n",
            boundary, name_on_one_line, value
        );
    }
    body += &format!("--{}--", boundary);
    body.into_bytes()
}

#[test]
fn multipart_body_has_one_part_for_each_field() {
    let fields = [
        ("name", "Baxter"),
        ("", ""),
        ("quoted \"name\"", "line\r\nbreak"),
        ("größe", "1 ½ month; x=\"y\""),
        ("name", "again"),
    ];
    let form = FormData {
        fields: fields.iter().map(|(k, v)| (k.to_string(), v.to_string())).collect(),
    };
    for boundary in ["abc", "", "+.-09AZaz", "ß"] {
        let body = data_from_multipart(&form, &boundary.as_bytes().to_vec()).unwrap();
        assert_eq!(body, expected_body(boundary, &fields));
    }
    let raw = data_from_multipart(&form, &vec![0xff, 0x00]).unwrap();
    assert!(raw.starts_with(&[b'-', b'-', 0xff, 0x00, b'\r', b'\n']));
    assert!(raw.ends_with(&[b'-', b'-', 0xff, 0x00, b'-', b'-']));
}

#[test]
fn json_outcomes_are_handed_on_with_their_errors_wrapped() {
    assert_eq!(encoded_json(Ok(b"[1]".to_vec())).unwrap(), b"[1]");
    let refusal = serde_json::from_slice::<u8>(b"x").unwrap_err();
    let message = refusal.to_string();
    match encoded_json(Err(refusal)) {
        Err(EncodeError::Json(e)) => assert_eq!(e.to_string(), message),
        other => panic!("unexpected: {:?}", other),
    }
    assert_eq!(*decoded_json(Ok(7u8)).unwrap(), 7);
    let refusal = serde_json::from_slice::<u8>(b"[").unwrap_err();
    let message = refusal.to_string();
    match decoded_json::<u8>(Err(refusal)) {
        Err(DecodeError::Json(e)) => assert_eq!(e.to_string(), message),
        other => panic!("unexpected: {:?}", other),
    }
}

#[test]
fn line_breaks_in_a_field_name_are_written_as_spaces() {
    let form = FormData { fields: vec![("a\nb".to_owned(), "x".to_owned())] };
    let body = data_from_multipart(&form, &b"abc".to_vec()).unwrap();
    assert_eq!(
        String::from_utf8(body).unwrap(),
        "--abc\r\nContent-Type: text/plain\r\nContent-Disposition: form-data; name=\"a b\"\r\n\r\nx\r\n--abc--"
    );
    let fields = [
        ("\r", "\r"),
        ("\n\n", "\n"),
        ("a\r\nb", "c\r\nd"),
        ("\r\nstart", ""),
        ("end\n", "v"),
        ("tab\tand\0nul\u{b}\u{c}\u{85}\u{2028}", "kept"),
        ("ä\nö\rü", "ß"),
        (" spaces  kept ", " v "),
    ];
    let form = FormData {
        fields: fields.iter().map(|(k, v)| (k.to_string(), v.to_string())).collect(),
    };
    let body = data_from_multipart(&form, &b"B".to_vec()).unwrap();
    assert_eq!(body, expected_body("B", &fields));
    let (_, encoded) = encode_multipart(&form, b"B".to_vec()).unwrap();
    assert_eq!(encoded, expected_body("B", &fields));
    for c in (0u32..0x500).filter_map(char::from_u32) {
        let name = format!("a{}b{}", c, c);
        let value = format!("{}v", c);
        let form = FormData { fields: vec![(name.clone(), value.clone())] };
        let body = data_from_multipart(&form, &b"B".to_vec()).unwrap();
        assert_eq!(body, expected_body("B", &[(name.as_str(), value.as_str())]), "{:?}", c);
    }
}

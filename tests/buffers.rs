use serde_json::Value;
use wasm_export::buffer::{BoundedBuffer, EncodeError, DEFAULT_CAPACITY, OVERFLOW_LEN};
use wasm_export::json::export_json;

const PAYLOAD: &[u8] = b"{\"error\":\"overflow\"}";

#[test]
fn payload_constant_matches_literal() {
    assert_eq!(BoundedBuffer::overflow_payload_bytes(), PAYLOAD.to_vec());
    assert_eq!(OVERFLOW_LEN, PAYLOAD.len());
}

#[test]
fn capacity_must_hold_terminated_payload() {
    assert!(BoundedBuffer::with_capacity(20).is_none());
    assert!(BoundedBuffer::with_capacity(0).is_none());
    let b = BoundedBuffer::with_capacity(21).unwrap();
    assert_eq!(b.capacity(), 21);
    assert_eq!(BoundedBuffer::new().capacity(), DEFAULT_CAPACITY);
    assert_eq!(BoundedBuffer::new().contents(), Vec::<u8>::new());
}

#[test]
fn fitting_encoding_reads_back() {
    let mut b = BoundedBuffer::with_capacity(32).unwrap();
    b.store(Ok(b"[1,2,3]".to_vec()));
    assert_eq!(b.contents(), b"[1,2,3]".to_vec());
}

#[test]
fn shorter_result_is_terminated_over_longer_one() {
    let mut b = BoundedBuffer::with_capacity(32).unwrap();
    b.store(Ok(b"\"a long first result\"".to_vec()));
    b.store(Ok(b"7".to_vec()));
    assert_eq!(b.contents(), b"7".to_vec());
}

#[test]
fn encoding_of_exact_capacity_fills_buffer() {
    let mut b = BoundedBuffer::with_capacity(24).unwrap();
    let e = b"\"0123456789abcdefghijkl\"".to_vec();
    assert_eq!(e.len(), 24);
    b.store(Ok(e.clone()));
    assert_eq!(b.contents(), e);
}

#[test]
fn encoding_over_capacity_gives_payload() {
    let mut b = BoundedBuffer::with_capacity(24).unwrap();
    b.store(Ok(vec![b'x'; 25]));
    assert_eq!(b.contents(), PAYLOAD.to_vec());
}

#[test]
fn encoding_error_gives_payload() {
    let mut b = BoundedBuffer::with_capacity(64).unwrap();
    b.store(Ok(b"{\"previous\":\"result value\"}".to_vec()));
    b.store(Err(EncodeError));
    assert_eq!(b.contents(), PAYLOAD.to_vec());
}

fn ok_titles(titles: &[&str]) -> Value {
    let items: Vec<Value> = titles
        .iter()
        .map(|t| {
            let mut m = serde_json::Map::new();
            m.insert("title".to_string(), Value::String(t.to_string()));
            Value::Object(m)
        })
        .collect();
    let mut outer = serde_json::Map::new();
    outer.insert("Ok".to_string(), Value::Array(items));
    Value::Object(outer)
}

#[test]
fn json_result_round_trips_through_buffer() {
    let v = ok_titles(&["A"]);
    let mut b = BoundedBuffer::new();
    export_json(&mut b, &v);
    let text = b.contents();
    assert_eq!(text, b"{\"Ok\":[{\"title\":\"A\"}]}".to_vec());
    let back: Value = serde_json::from_slice(&text).unwrap();
    assert_eq!(back, v);
}

#[test]
fn json_nested_result_round_trips() {
    let v = ok_titles(&["first", "second \u{0} with nul", "third"]);
    let mut b = BoundedBuffer::new();
    export_json(&mut b, &v);
    let back: Value = serde_json::from_slice(&b.contents()).unwrap();
    assert_eq!(back, v);
}

#[test]
fn json_result_over_capacity_gives_payload() {
    let long = "x".repeat(DEFAULT_CAPACITY);
    let v = ok_titles(&[long.as_str()]);
    let mut b = BoundedBuffer::new();
    export_json(&mut b, &v);
    assert_eq!(b.contents(), PAYLOAD.to_vec());
    let back: Value = serde_json::from_slice(&b.contents()).unwrap();
    let mut expected = serde_json::Map::new();
    expected.insert("error".to_string(), Value::String("overflow".to_string()));
    assert_eq!(back, Value::Object(expected));
}

#[test]
fn slice_shows_terminator_and_stale_bytes() {
    let mut b = BoundedBuffer::with_capacity(24).unwrap();
    b.store(Ok(b"\"abcdef\"".to_vec()));
    b.store(Ok(b"1".to_vec()));
    let s = b.as_slice();
    assert_eq!(s.len(), 24);
    assert_eq!(&s[..9], b"1\0bcdef\"\0");
}

#[test]
fn json_text_has_keys_in_order() {
    let mut m = serde_json::Map::new();
    m.insert("title".to_string(), Value::String("B".to_string()));
    m.insert("id".to_string(), Value::from(7));
    let mut b = BoundedBuffer::with_capacity(64).unwrap();
    b.store(Ok(b"\"an earlier and longer result text\"".to_vec()));
    export_json(&mut b, &Value::Object(m));
    assert_eq!(b.contents(), b"{\"id\":7,\"title\":\"B\"}".to_vec());
}

use kafka_output::codec::decode;
use kafka_output::error::SinkError;
use kafka_output::value::{render, Value};

fn bytes(b: &[u8]) -> Value {
    Value::Bytes(b.to_vec())
}

fn words(s: &str) -> Value {
    Value::Text(s.to_string())
}

fn refused(record: &Value, printed: &str) {
    assert_eq!(
        decode(record),
        Err(SinkError::InvalidRecord {
            got: printed.to_string()
        })
    );
}

#[test]
fn decode_reads_key_and_payload() {
    let record = Value::Tuple(vec![bytes(b"k1"), bytes(b"v1")]);
    assert_eq!(decode(&record), Ok((&b"k1"[..], &b"v1"[..])));
}

#[test]
fn decode_reads_empty_key_and_payload() {
    let record = Value::Tuple(vec![bytes(b""), bytes(b"")]);
    assert_eq!(decode(&record), Ok((&b""[..], &b""[..])));
}

#[test]
fn decode_keeps_every_byte() {
    let key: Vec<u8> = (0..=255).collect();
    let record = Value::Tuple(vec![Value::Bytes(key.clone()), bytes(b"\x00\xff")]);
    assert_eq!(decode(&record), Ok((&key[..], &b"\x00\xff"[..])));
}

#[test]
fn decode_refuses_empty_input() {
    refused(&Value::Tuple(Vec::new()), "()");
    refused(&Value::Other("None".to_string()), "None");
    refused(&bytes(b""), "b''");
}

#[test]
fn decode_refuses_a_single_value() {
    refused(&bytes(b"k1"), "b'k1'");
    refused(&Value::Tuple(vec![bytes(b"k1")]), "(b'k1',)");
}

#[test]
fn decode_refuses_three_items() {
    refused(
        &Value::Tuple(vec![bytes(b"k"), bytes(b"v"), bytes(b"x")]),
        "(b'k', b'v', b'x')",
    );
}

#[test]
fn decode_refuses_a_pair_of_texts() {
    refused(&Value::Tuple(vec![words("bad"), words("bad")]), "('bad', 'bad')");
}

#[test]
fn decode_refuses_one_item_that_is_no_bytes() {
    refused(&Value::Tuple(vec![bytes(b"k"), words("v")]), "(b'k', 'v')");
    refused(&Value::Tuple(vec![words("k"), bytes(b"v")]), "('k', b'v')");
    refused(
        &Value::Tuple(vec![bytes(b"k"), Value::Other("17".to_string())]),
        "(b'k', 17)",
    );
}

#[test]
fn decode_refuses_a_list_of_two_byte_strings() {
    refused(&Value::List(vec![bytes(b"k"), bytes(b"v")]), "[b'k', b'v']");
}

#[test]
fn render_escapes_bytes() {
    assert_eq!(render(&bytes(b"plain ~")), "b'plain ~'");
    assert_eq!(render(&bytes(b"\x00\x1f\x7f\x80\xff")), "b'\\x00\\x1f\\x7f\\x80\\xff'");
    assert_eq!(render(&bytes(b"\t\n\r")), "b'\\x09\\x0a\\x0d'");
    assert_eq!(render(&bytes(b"it's a \\")), "b'it\\'s a \\\\'");
    assert_eq!(render(&bytes(b"\xab\xcd\xef\x9a")), "b'\\xab\\xcd\\xef\\x9a'");
}

#[test]
fn render_escapes_text() {
    assert_eq!(render(&words("")), "''");
    assert_eq!(render(&words("host:9092")), "'host:9092'");
    assert_eq!(render(&words("it's a \\")), "'it\\'s a \\\\'");
    assert_eq!(render(&words("caf\u{e9} \u{1f600}")), "'caf\u{e9} \u{1f600}'");
}

#[test]
fn render_nests_lists_and_tuples() {
    assert_eq!(render(&Value::List(Vec::new())), "[]");
    assert_eq!(render(&Value::List(vec![words("a")])), "['a']");
    assert_eq!(render(&Value::Tuple(vec![words("a")])), "('a',)");
    let nested = Value::Tuple(vec![
        Value::List(vec![bytes(b"k"), Value::Tuple(Vec::new())]),
        Value::Tuple(vec![Value::Tuple(vec![Value::Other("1.5".to_string())])]),
        words("z"),
    ]);
    assert_eq!(render(&nested), "([b'k', ()], ((1.5,),), 'z')");
}

#[test]
fn render_keeps_other_objects_as_they_are() {
    assert_eq!(render(&Value::Other("{'a': 1}".to_string())), "{'a': 1}");
    assert_eq!(render(&Value::Other(String::new())), "");
}

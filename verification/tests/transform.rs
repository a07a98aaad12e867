use echo_router::text::same_text;
use echo_router::transform::{
    echo, uppercase_byte, uppercase_chunk, uppercase_item, uppercase_transform,
};

#[test]
fn uppercase_byte_maps_every_byte() {
    for b in 0u8..=255 {
        let expected = if (b'a'..=b'z').contains(&b) { b - 32 } else { b };
        assert_eq!(uppercase_byte(b), expected);
    }
}

#[test]
fn uppercase_byte_on_the_edges_of_the_letters() {
    assert_eq!(uppercase_byte(b'a'), b'A');
    assert_eq!(uppercase_byte(b'z'), b'Z');
    assert_eq!(uppercase_byte(b'`'), b'`');
    assert_eq!(uppercase_byte(b'{'), b'{');
    assert_eq!(uppercase_byte(b'A'), b'A');
    assert_eq!(uppercase_byte(0), 0);
    assert_eq!(uppercase_byte(255), 255);
}

#[test]
fn uppercase_chunk_of_hello_world() {
    assert_eq!(uppercase_chunk(b"hello world"), b"HELLO WORLD".to_vec());
}

#[test]
fn uppercase_chunk_of_nothing_is_nothing() {
    assert_eq!(uppercase_chunk(b""), Vec::<u8>::new());
}

#[test]
fn uppercase_chunk_leaves_non_ascii_bytes() {
    let input = "h\u{e9}llo \u{4e16}\u{754c} \u{df}".as_bytes();
    let out = uppercase_chunk(input);
    assert_eq!(out, "H\u{e9}LLO \u{4e16}\u{754c} \u{df}".as_bytes().to_vec());
    assert_eq!(uppercase_chunk(&[0x80, 0xe1, 0xfa, 0xff, 0x61]), vec![0x80, 0xe1, 0xfa, 0xff, 0x41]);
}

#[test]
fn uppercase_transform_keeps_count_lengths_and_order() {
    let body = vec![b"ab".to_vec(), Vec::new(), b"c1d".to_vec(), vec![0xc3, 0xa9], b"xyz".to_vec()];
    let out = uppercase_transform(&body);
    assert_eq!(out.len(), body.len());
    for (o, b) in out.iter().zip(body.iter()) {
        assert_eq!(o.len(), b.len());
    }
    assert_eq!(
        out,
        vec![b"AB".to_vec(), Vec::new(), b"C1D".to_vec(), vec![0xc3, 0xa9], b"XYZ".to_vec()]
    );
    assert_eq!(out.concat().len(), body.concat().len());
}

#[test]
fn uppercase_transform_is_idempotent() {
    let body = vec![b"Hello, World! 123".to_vec(), b"already UPPER".to_vec(), vec![0xff, 0x7a, 0x7b]];
    let once = uppercase_transform(&body);
    let twice = uppercase_transform(&once);
    assert_eq!(twice, once);
}

#[test]
fn uppercase_transform_of_empty_body() {
    assert!(uppercase_transform(&Vec::new()).is_empty());
}

#[test]
fn echo_round_trips_every_byte() {
    let all: Vec<u8> = (0u8..=255).collect();
    let body = vec![all, Vec::new(), b"hello world".to_vec()];
    assert_eq!(echo(body.clone()), body);
    assert_eq!(echo(Vec::new()), Vec::<Vec<u8>>::new());
}

#[test]
fn same_text_is_exact() {
    assert!(same_text("", ""));
    assert!(same_text("/echo", "/echo"));
    assert!(!same_text("/echo", "/echo/"));
    assert!(!same_text("/echo", "/ecHo"));
    assert!(!same_text("/echo", ""));
    assert!(!same_text("", "/"));
    assert!(same_text("h\u{e9}", "h\u{e9}"));
    assert!(!same_text("h\u{e9}", "he"));
}

#[test]
fn uppercase_item_transforms_a_chunk() {
    let out: Result<Vec<u8>, String> = uppercase_item(Ok(b"hello world".to_vec()));
    assert_eq!(out, Ok(b"HELLO WORLD".to_vec()));
}

#[test]
fn uppercase_item_passes_a_failure_on() {
    let out: Result<Vec<u8>, String> = uppercase_item(Err(String::from("connection reset")));
    assert_eq!(out, Err(String::from("connection reset")));
}

#[test]
fn uppercase_item_keeps_output_emitted_before_a_failure() {
    let items: Vec<Result<Vec<u8>, u32>> = vec![Ok(b"ab".to_vec()), Ok(b"cd".to_vec()), Err(7)];
    let out: Vec<Result<Vec<u8>, u32>> = items.into_iter().map(uppercase_item).collect();
    assert_eq!(out, vec![Ok(b"AB".to_vec()), Ok(b"CD".to_vec()), Err(7)]);
}

use verilated::{command_args, EncodingError};

fn owned(args: &[&str]) -> Vec<String> {
    args.iter().map(|a| a.to_string()).collect()
}

#[test]
fn command_args_accepts_plain_arguments() {
    let buffers = command_args(owned(&["+define+FOO", "bar baz"]));
    assert_eq!(buffers, Ok(vec![b"+define+FOO\0".to_vec(), b"bar baz\0".to_vec()]));
}

#[test]
fn command_args_rejects_an_embedded_nul() {
    assert_eq!(command_args(owned(&["a\0b"])), Err(EncodingError { argument: 0, position: 1 }));
}

#[test]
fn command_args_of_nothing_is_empty() {
    assert_eq!(command_args(Vec::new()), Ok(Vec::new()));
}

#[test]
fn command_args_terminates_an_empty_argument() {
    assert_eq!(command_args(owned(&[""])), Ok(vec![vec![0u8]]));
}

#[test]
fn command_args_keeps_count_and_order() {
    let args = owned(&["sim", "+verbose", "+seed=42", "", "+trace"]);
    let buffers = command_args(args.clone()).unwrap();
    assert_eq!(buffers.len(), args.len());
    for (buffer, arg) in buffers.iter().zip(args.iter()) {
        assert_eq!(&buffer[..buffer.len() - 1], arg.as_bytes());
        assert_eq!(buffer[buffer.len() - 1], 0);
    }
}

#[test]
fn command_args_writes_utf8_bytes() {
    let buffers = command_args(owned(&["h\u{e9}llo", "\u{20ac}", "\u{1f600}"])).unwrap();
    assert_eq!(buffers[0], vec![b'h', 0xc3, 0xa9, b'l', b'l', b'o', 0]);
    assert_eq!(buffers[1], vec![0xe2, 0x82, 0xac, 0]);
    assert_eq!(buffers[2], vec![0xf0, 0x9f, 0x98, 0x80, 0]);
}

#[test]
fn command_args_terminator_is_the_only_zero() {
    let buffers = command_args(owned(&["+define+FOO", "bar baz", "\u{100}\u{4000}"])).unwrap();
    for buffer in buffers {
        assert_eq!(buffer.iter().position(|b| *b == 0), Some(buffer.len() - 1));
    }
}

#[test]
fn command_args_reports_the_first_bad_argument() {
    let result = command_args(owned(&["fine", "b\0d", "\0"]));
    assert_eq!(result, Err(EncodingError { argument: 1, position: 1 }));
}

#[test]
fn command_args_reports_the_first_nul_of_an_argument() {
    let result = command_args(owned(&["ab\0cd\0"]));
    assert_eq!(result, Err(EncodingError { argument: 0, position: 2 }));
}

#[test]
fn command_args_counts_the_position_in_bytes() {
    let result = command_args(owned(&["\u{e9}\u{20ac}\0"]));
    assert_eq!(result, Err(EncodingError { argument: 0, position: 5 }));
}

#[test]
fn command_args_rejects_a_leading_and_a_lone_nul() {
    assert_eq!(command_args(owned(&["\0"])), Err(EncodingError { argument: 0, position: 0 }));
    assert_eq!(command_args(owned(&["", "\0x"])), Err(EncodingError { argument: 1, position: 0 }));
}

#[test]
fn command_args_hands_out_nothing_when_a_later_argument_fails() {
    let result = command_args(owned(&["+define+FOO", "bar baz", "a\0b"]));
    assert!(result.is_err());
    assert_eq!(result.ok(), None);
}

#[test]
fn command_args_fails_exactly_when_some_character_is_nul() {
    let samples = ["", "a", "a\0", "\0a", "plain text", "\u{e9}\0\u{e9}", "\u{1f600}"];
    for sample in samples {
        let has_nul = sample.chars().any(|c| c == '\0');
        assert_eq!(command_args(owned(&[sample])).is_err(), has_nul, "{:?}", sample);
    }
}

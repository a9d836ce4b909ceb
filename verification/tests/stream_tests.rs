use unimoji::stream::{
    parse_chunk, parse_chunk_line, read_chunk, CommandKind, EventRecord, Reading, StreamError,
};
use unimoji::text::{char_is_whitespace, chars_of};

fn record(payload: &str) -> Reading {
    Reading::Record(EventRecord { command: CommandKind::Put, payload: payload.to_string() })
}

/// The way the two sides of a line are found with std alone.
fn split_with_std(input: &str) -> Option<(&str, &str)> {
    let parts = input.splitn(2, ':').map(|s| s.trim()).collect::<Vec<_>>();
    if parts.len() < 2 {
        None
    } else {
        Some((parts[0], parts[1]))
    }
}

#[test]
fn line_is_split_at_the_colon_and_trimmed() {
    assert_eq!(parse_chunk_line("event: put"), Ok(("event", "put")));
    assert_eq!(parse_chunk_line("  event  :  keep-alive  "), Ok(("event", "keep-alive")));
    assert_eq!(parse_chunk_line("event:put"), Ok(("event", "put")));
}

#[test]
fn line_is_split_at_the_first_colon_only() {
    assert_eq!(
        parse_chunk_line("data: {\"data\":{\"emoji\":\"😀\"}}"),
        Ok(("data", "{\"data\":{\"emoji\":\"😀\"}}"))
    );
    assert_eq!(parse_chunk_line("a:b:c"), Ok(("a", "b:c")));
    assert_eq!(parse_chunk_line("::"), Ok(("", ":")));
}

#[test]
fn line_with_empty_sides_is_accepted() {
    assert_eq!(parse_chunk_line(":"), Ok(("", "")));
    assert_eq!(parse_chunk_line("key:"), Ok(("key", "")));
    assert_eq!(parse_chunk_line(":value"), Ok(("", "value")));
    assert_eq!(parse_chunk_line(" \t : \r"), Ok(("", "")));
}

#[test]
fn line_without_colon_is_malformed() {
    assert_eq!(parse_chunk_line("event put"), Err(StreamError::MalformedLine));
    assert_eq!(parse_chunk_line(""), Err(StreamError::MalformedLine));
    assert_eq!(parse_chunk_line("   "), Err(StreamError::MalformedLine));
    assert_eq!(parse_chunk_line("😀"), Err(StreamError::MalformedLine));
}

#[test]
fn line_is_trimmed_of_unicode_white_space() {
    assert_eq!(parse_chunk_line("\u{a0}event\u{3000}:\u{2003}put\u{85}"), Ok(("event", "put")));
    assert_eq!(parse_chunk_line("a\u{a0}b: c\u{2028}d "), Ok(("a\u{a0}b", "c\u{2028}d")));
    // A zero width space is no white space.
    assert_eq!(parse_chunk_line("k:\u{200b}v"), Ok(("k", "\u{200b}v")));
}

#[test]
fn line_split_agrees_with_std() {
    let samples = [
        "event: put",
        "data: {\"data\":{\"emoji\":\"😀\"}}",
        "",
        ":",
        "::",
        " : ",
        "no colon here",
        "\u{a0}:\u{a0}",
        "a : b : c ",
        "\t\tkey\t:\tvalue\t\n",
        "😀:😀",
        "x:\u{1680}y\u{1680}",
        "trailing colon:",
        ":leading colon",
        " \u{feff}k : v\u{feff} ",
    ];
    for sample in samples {
        assert_eq!(parse_chunk_line(sample).ok(), split_with_std(sample), "{:?}", sample);
    }
}

#[test]
fn white_space_agrees_with_std_on_every_character() {
    for code in 0..=0x10ffffu32 {
        if let Some(c) = char::from_u32(code) {
            assert_eq!(char_is_whitespace(c), c.is_whitespace(), "U+{:04X}", code);
        }
    }
}

#[test]
fn characters_of_a_string_come_in_order() {
    assert_eq!(chars_of(""), Vec::<char>::new());
    assert_eq!(chars_of("a😀b"), vec!['a', '😀', 'b']);
    assert_eq!(chars_of("\u{1f44d}\u{1f3fd}"), vec!['\u{1f44d}', '\u{1f3fd}']);
}

#[test]
fn put_block_yields_its_payload() {
    assert_eq!(
        parse_chunk("event: put\ndata: {\"data\":{\"emoji\":\"😀\"}}"),
        Ok(record("{\"data\":{\"emoji\":\"😀\"}}"))
    );
}

#[test]
fn put_block_payload_is_kept_character_for_character() {
    let payloads = [
        "{\"data\":{\"emoji\":\"😀\"}}",
        "{\"path\":\"/\",\"data\":{\"emoji\":\"👍🏽\"}}",
        "{\"data\":{\"emoji\":\"🏳️‍🌈\"}}",
        "{ \"data\" : { \"emoji\" : \"\\u263a\" } }",
        "not json at all: but kept",
        "",
    ];
    for payload in payloads {
        let chunk = format!("event: put\ndata: {}\n\n", payload);
        assert_eq!(parse_chunk(&chunk), Ok(record(payload)));
        assert_eq!(read_chunk(chunk.as_bytes()), Ok(record(payload)));
    }
}

#[test]
fn put_block_with_terminators_is_read_the_same() {
    let expected = Ok(record("{\"data\":{\"emoji\":\"😀\"}}"));
    assert_eq!(parse_chunk("event: put\ndata: {\"data\":{\"emoji\":\"😀\"}}\n"), expected);
    assert_eq!(parse_chunk("event: put\ndata: {\"data\":{\"emoji\":\"😀\"}}\n\n"), expected);
    assert_eq!(parse_chunk("event: put\r\ndata: {\"data\":{\"emoji\":\"😀\"}}\r\n\r\n"), expected);
    assert_eq!(
        parse_chunk("event: put\ndata: {\"data\":{\"emoji\":\"😀\"}}\nevent: keep-alive\ndata: null\n"),
        expected
    );
}

#[test]
fn key_of_a_line_is_not_looked_at() {
    assert_eq!(parse_chunk("anything: put\nwhatever: 42"), Ok(record("42")));
    assert_eq!(parse_chunk(": put\n: 42"), Ok(record("42")));
}

#[test]
fn other_commands_are_ignored() {
    assert_eq!(parse_chunk("event: keep-alive\ndata: null\n\n"), Ok(Reading::Ignored));
    assert_eq!(parse_chunk("event: patch\ndata: {\"data\":{\"emoji\":\"😀\"}}"), Ok(Reading::Ignored));
    assert_eq!(parse_chunk("event: PUT\ndata: {}"), Ok(Reading::Ignored));
    assert_eq!(parse_chunk("event: put put\ndata: {}"), Ok(Reading::Ignored));
    assert_eq!(parse_chunk("event:\ndata: {}"), Ok(Reading::Ignored));
}

#[test]
fn other_commands_are_ignored_whatever_follows() {
    assert_eq!(parse_chunk("event: keep-alive\nno colon on this line"), Ok(Reading::Ignored));
    assert_eq!(parse_chunk("event: cancel\n\n"), Ok(Reading::Ignored));
}

#[test]
fn fewer_than_two_lines_are_a_fragment() {
    assert_eq!(parse_chunk(""), Ok(Reading::Fragment));
    assert_eq!(parse_chunk("event: put"), Ok(Reading::Fragment));
    assert_eq!(parse_chunk("event: put\n"), Ok(Reading::Fragment));
    assert_eq!(parse_chunk("event: put\r\n"), Ok(Reading::Fragment));
    assert_eq!(parse_chunk("\n"), Ok(Reading::Fragment));
    assert_eq!(parse_chunk("no colon and one line"), Ok(Reading::Fragment));
    assert_eq!(parse_chunk("data: {\"data\":{\"emoji\":\"😀\"}}"), Ok(Reading::Fragment));
}

#[test]
fn block_without_colon_is_malformed() {
    assert_eq!(parse_chunk("event put\ndata: {}"), Err(StreamError::MalformedLine));
    assert_eq!(parse_chunk("event: put\ndata {}"), Err(StreamError::MalformedLine));
    assert_eq!(parse_chunk("event: put\n\n"), Err(StreamError::MalformedLine));
    assert_eq!(parse_chunk("\n\n"), Err(StreamError::MalformedLine));
    assert_eq!(parse_chunk("\nevent: put"), Err(StreamError::MalformedLine));
}

#[test]
fn fragment_count_agrees_with_std_lines() {
    let samples = [
        "",
        "\n",
        "\n\n",
        "a",
        "a\n",
        "a\nb",
        "a\r\nb",
        "a\n\n",
        "a:b\nc:d\ne:f",
        "\r\n",
        "\r",
        "a\rb",
    ];
    for sample in samples {
        let fragment = matches!(parse_chunk(sample), Ok(Reading::Fragment));
        assert_eq!(fragment, sample.lines().count() < 2, "{:?}", sample);
    }
}

#[test]
fn chunk_of_valid_bytes_is_read_as_its_text() {
    let chunk = "event: put\ndata: {\"data\":{\"emoji\":\"😀\"}}".as_bytes();
    assert_eq!(read_chunk(chunk), Ok(record("{\"data\":{\"emoji\":\"😀\"}}")));
    assert_eq!(read_chunk(b"event: keep-alive\ndata: null\n\n"), Ok(Reading::Ignored));
    assert_eq!(read_chunk(b""), Ok(Reading::Fragment));
    assert_eq!(read_chunk(b"event put\ndata: null"), Err(StreamError::MalformedLine));
}

#[test]
fn chunk_of_invalid_bytes_is_read_with_replacements() {
    // A lone continuation byte and a truncated sequence are replaced, not refused.
    assert_eq!(read_chunk(b"event: put\ndata: a\x80b"), Ok(record("a\u{fffd}b")));
    assert_eq!(read_chunk(b"event: put\ndata: \xf0\x9f\x98"), Ok(record("\u{fffd}")));
    assert_eq!(read_chunk(b"\xff: put\n\xfe: x\xff"), Ok(record("x\u{fffd}")));
    assert_eq!(read_chunk(b"event: p\xffut\ndata: x"), Ok(Reading::Ignored));
    assert_eq!(read_chunk(b"\xff\xff"), Ok(Reading::Fragment));
}

#[test]
fn only_the_exact_verb_is_a_put() {
    assert_eq!(CommandKind::from_verb("put"), CommandKind::Put);
    assert_eq!(CommandKind::from_verb("keep-alive"), CommandKind::Other);
    assert_eq!(CommandKind::from_verb("Put"), CommandKind::Other);
    assert_eq!(CommandKind::from_verb(" put"), CommandKind::Other);
    assert_eq!(CommandKind::from_verb("pu"), CommandKind::Other);
    assert_eq!(CommandKind::from_verb("putt"), CommandKind::Other);
    assert_eq!(CommandKind::from_verb(""), CommandKind::Other);
}

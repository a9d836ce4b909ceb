//! The text grammar of the event stream.
//!
//! One read from the stream is a chunk of bytes. Taken as text, its first two
//! lines form a block: `event: <command>` and `data: <payload>`. Only the
//! command `put` yields a record; a read with fewer than two lines is a
//! fragment and is dropped.

use crate::text::{chars_of, equals_in, find, find_in, lemma_find, lemma_find_at, trim, trim_in};
use vstd::prelude::*;
use vstd::utf8::*;

verus! {

/// What can go wrong while following the stream.
#[derive(Clone, Copy, Debug, PartialEq, Eq, Structural)]
pub enum StreamError {
    /// The connection could not be established.
    ConnectError,
    /// A line of a block holds no colon.
    MalformedLine,
    /// The payload of a record does not have the expected shape.
    PayloadDecodeError,
    /// No data arrived within the read deadline.
    Timeout,
    /// The transport failed or the stream ended.
    Disconnected,
}

/// The command of a block.
#[derive(Clone, Copy, Debug, PartialEq, Eq, Structural)]
pub enum CommandKind {
    /// `put`: show the image that the payload names.
    Put,
    /// Any other verb, such as `keep-alive`: nothing to do.
    Other,
}

/// One decoded block of the stream.
#[derive(Debug, PartialEq, Eq)]
pub struct EventRecord {
    pub command: CommandKind,
    /// The data segment as it was received, white space at its ends removed.
    pub payload: String,
}

/// The mathematical content of an `EventRecord`.
pub struct RecordView {
    pub command: CommandKind,
    pub payload: Seq<char>,
}

impl View for EventRecord {
    type V = RecordView;

    open spec fn view(&self) -> RecordView {
        RecordView { command: self.command, payload: self.payload@ }
    }
}

/// The inner object of a payload: `{"emoji": <string>}`.
#[derive(Debug, PartialEq, Eq)]
pub struct PayloadData {
    pub emoji: String,
}

/// The shape of the payload of a `put` record: `{"data": {"emoji": <string>}}`.
/// Turning the text of a payload into this shape is left to the caller's
/// JSON decoder.
#[derive(Debug, PartialEq, Eq)]
pub struct Payload {
    pub data: PayloadData,
}

/// What one read of the stream amounts to.
#[derive(Debug, PartialEq, Eq)]
pub enum Reading {
    /// A block with the command `put`.
    Record(EventRecord),
    /// A block with another command.
    Ignored,
    /// Fewer than two lines: no block.
    Fragment,
}

/// The mathematical content of a `Reading`.
pub enum ReadingView {
    Record(RecordView),
    Ignored,
    Fragment,
}

impl View for Reading {
    type V = ReadingView;

    open spec fn view(&self) -> ReadingView {
        match self {
            Reading::Record(record) => ReadingView::Record(record@),
            Reading::Ignored => ReadingView::Ignored,
            Reading::Fragment => ReadingView::Fragment,
        }
    }
}

/// The verb of the one command that yields a record.
pub open spec fn put_verb() -> Seq<char> {
    seq!['p', 'u', 't']
}

/// The command that a verb stands for.
pub open spec fn command_of(verb: Seq<char>) -> CommandKind {
    if verb == put_verb() {
        CommandKind::Put
    } else {
        CommandKind::Other
    }
}

/// A line split at its first colon, both sides trimmed; `None` where the
/// line holds no colon.
pub open spec fn parse_line(line: Seq<char>) -> Option<(Seq<char>, Seq<char>)> {
    let at = find(line, ':');
    if at == line.len() {
        None
    } else {
        Some((trim(line.take(at)), trim(line.skip(at + 1))))
    }
}

/// The lines of a text: the pieces between line feeds. A line feed at the
/// very end starts no further line, and the empty text has no line.
pub open spec fn lines(text: Seq<char>) -> Seq<Seq<char>>
    decreases text.len(),
{
    if text.len() == 0 {
        Seq::empty()
    } else {
        let at = find(text, '\n');
        if 0 <= at < text.len() {
            seq![text.take(at)] + lines(text.skip(at + 1))
        } else {
            seq![text]
        }
    }
}

/// What a chunk of text amounts to, or the error that it is rejected with.
pub open spec fn chunk_reading(text: Seq<char>) -> Result<ReadingView, StreamError> {
    let ls = lines(text);
    if ls.len() < 2 {
        Ok(ReadingView::Fragment)
    } else {
        match parse_line(ls[0]) {
            None => Err(StreamError::MalformedLine),
            Some((_, verb)) => {
                if command_of(verb) != CommandKind::Put {
                    Ok(ReadingView::Ignored)
                } else {
                    match parse_line(ls[1]) {
                        None => Err(StreamError::MalformedLine),
                        Some((_, data)) => Ok(
                            ReadingView::Record(
                                RecordView { command: CommandKind::Put, payload: data },
                            ),
                        ),
                    }
                }
            },
        }
    }
}

/// The mathematical content of what a read returns.
pub open spec fn outcome(r: Result<Reading, StreamError>) -> Result<ReadingView, StreamError> {
    match r {
        Ok(reading) => Ok(reading@),
        Err(e) => Err(e),
    }
}

/// The text that `String::from_utf8_lossy` makes of `bytes`.
pub uninterp spec fn utf8_lossy(bytes: Seq<u8>) -> Seq<char>;

/// Calls `String::from_utf8_lossy`, which never fails: it reads `bytes` as
/// UTF-8 and puts U+FFFD in place of each sequence that is not. The contract
/// names that text, and claims of it only that valid UTF-8 comes out as the
/// characters it encodes.
#[verifier::external_body]
fn decode_lossy(bytes: &[u8]) -> (text: String)
    ensures
        text@ == utf8_lossy(bytes@),
        valid_utf8(bytes@) ==> text@ == decode_utf8(bytes@),
{
    String::from_utf8_lossy(bytes).into_owned()
}

/// The ranges of key and value of the line `s[lo..hi]`.
fn split_line(s: &[char], lo: usize, hi: usize) -> (r: Option<((usize, usize), (usize, usize))>)
    requires
        lo <= hi <= s.len(),
    ensures
        match r {
            None => parse_line(s@.subrange(lo as int, hi as int)) is None,
            Some((key, value)) => {
                &&& lo <= key.0 <= key.1 <= hi
                &&& lo <= value.0 <= value.1 <= hi
                &&& parse_line(s@.subrange(lo as int, hi as int)) == Some(
                    (
                        s@.subrange(key.0 as int, key.1 as int),
                        s@.subrange(value.0 as int, value.1 as int),
                    ),
                )
            },
        },
{
    let at = find_in(s, lo, hi, ':');
    if at == hi {
        return None;
    }
    let key = trim_in(s, lo, at);
    let value = trim_in(s, at + 1, hi);
    proof {
        let line = s@.subrange(lo as int, hi as int);
        assert(line.take(at - lo) =~= s@.subrange(lo as int, at as int));
        assert(line.skip(at - lo + 1) =~= s@.subrange(at + 1, hi as int));
    }
    Some((key, value))
}

/// The command that the verb `s[lo..hi]` stands for.
fn command_in(s: &[char], lo: usize, hi: usize) -> (command: CommandKind)
    requires
        lo <= hi <= s.len(),
    ensures
        command == command_of(s@.subrange(lo as int, hi as int)),
{
    let put = ['p', 'u', 't'];
    assert(put@ =~= put_verb());
    if equals_in(s, lo, hi, put.as_slice()) {
        CommandKind::Put
    } else {
        CommandKind::Other
    }
}

/// The ranges of the first two lines of `s`, where it has two.
fn first_two_lines(s: &[char]) -> (r: Option<((usize, usize), (usize, usize))>)
    ensures
        match r {
            None => lines(s@).len() < 2,
            Some((first, second)) => {
                &&& first.0 <= first.1 <= s.len()
                &&& second.0 <= second.1 <= s.len()
                &&& lines(s@).len() >= 2
                &&& lines(s@)[0] == s@.subrange(first.0 as int, first.1 as int)
                &&& lines(s@)[1] == s@.subrange(second.0 as int, second.1 as int)
            },
        },
{
    let n = s.len();
    let at = find_in(s, 0, n, '\n');
    proof {
        assert(s@.subrange(0, n as int) =~= s@);
        lemma_find(s@, '\n');
    }
    if at >= n || at + 1 >= n {
        proof {
            if at + 1 == n {
                assert(s@.skip(at + 1).len() == 0);
                assert(lines(s@.skip(at + 1)).len() == 0);
            }
        }
        return None;
    }
    let next = find_in(s, at + 1, n, '\n');
    proof {
        let rest = s@.skip(at + 1);
        assert(rest =~= s@.subrange(at + 1, n as int));
        lemma_find(rest, '\n');
        assert(s@.take(at as int) =~= s@.subrange(0, at as int));
        let second = s@.subrange(at + 1, next as int);
        if next < n {
            assert(rest.take(next - at - 1) =~= second);
        } else {
            assert(rest =~= second);
        }
        assert(lines(rest)[0] == second);
        assert(lines(s@)[1] == lines(rest)[0]);
    }
    Some(((0, at), (at + 1, next)))
}

/// Splits a line at its first colon and trims both sides.
///
/// Fails with `MalformedLine` exactly where the line holds no colon.
pub fn parse_chunk_line(input: &str) -> (r: Result<(&str, &str), StreamError>)
    ensures
        match r {
            Ok((key, value)) => parse_line(input@) == Some((key@, value@)),
            Err(e) => e == StreamError::MalformedLine && parse_line(input@) is None,
        },
{
    let chars = chars_of(input);
    let n = chars.len();
    assert(chars@.subrange(0, n as int) =~= input@);
    match split_line(chars.as_slice(), 0, n) {
        None => Err(StreamError::MalformedLine),
        Some((key, value)) => Ok(
            (input.substring_char(key.0, key.1), input.substring_char(value.0, value.1)),
        ),
    }
}

/// Reads one chunk of text: the record of its block, or why it has none.
///
/// Fails with `MalformedLine` where the first line holds no colon, or where
/// the command is `put` and the second line holds none.
pub fn parse_chunk(text: &str) -> (r: Result<Reading, StreamError>)
    ensures
        outcome(r) == chunk_reading(text@),
{
    let chars = chars_of(text);
    let s = chars.as_slice();
    let (first, second) = match first_two_lines(s) {
        None => { return Ok(Reading::Fragment); },
        Some(ranges) => ranges,
    };
    let verb = match split_line(s, first.0, first.1) {
        None => { return Err(StreamError::MalformedLine); },
        Some((_, value)) => value,
    };
    match command_in(s, verb.0, verb.1) {
        CommandKind::Put => {},
        CommandKind::Other => { return Ok(Reading::Ignored); },
    }
    let data = match split_line(s, second.0, second.1) {
        None => { return Err(StreamError::MalformedLine); },
        Some((_, value)) => value,
    };
    let payload = text.substring_char(data.0, data.1).to_owned();
    Ok(Reading::Record(EventRecord { command: CommandKind::Put, payload }))
}

/// Reads one chunk as it came off the wire. Bytes that are not UTF-8 are
/// replaced, never refused; a chunk of valid UTF-8 is read as the text that
/// it encodes.
pub fn read_chunk(chunk: &[u8]) -> (r: Result<Reading, StreamError>)
    ensures
        outcome(r) == chunk_reading(utf8_lossy(chunk@)),
        valid_utf8(chunk@) ==> outcome(r) == chunk_reading(decode_utf8(chunk@)),
{
    let text = decode_lossy(chunk);
    parse_chunk(text.as_str())
}

impl CommandKind {
    /// The command that a verb stands for: `Put` for `put`, written exactly
    /// so, and `Other` for everything else.
    pub fn from_verb(verb: &str) -> (command: CommandKind)
        ensures
            command == command_of(verb@),
    {
        let chars = chars_of(verb);
        let n = chars.len();
        assert(chars@.subrange(0, n as int) =~= verb@);
        command_in(chars.as_slice(), 0, n)
    }
}

/// The text of a requested emoji, or the error.
pub open spec fn requested(r: Result<String, StreamError>) -> Result<Seq<char>, StreamError> {
    match r {
        Ok(emoji) => Ok(emoji@),
        Err(e) => Err(e),
    }
}

/// The emoji that a record asks for, given its payload as the JSON decoder
/// returned it: `None` where the text did not have the shape of a payload.
///
/// Fails with `PayloadDecodeError` exactly where there is no payload.
pub fn requested_emoji(decoded: Option<Payload>) -> (r: Result<String, StreamError>)
    ensures
        requested(r) == match decoded {
            Some(payload) => Ok::<Seq<char>, StreamError>(payload.data.emoji@),
            None => Err::<Seq<char>, StreamError>(StreamError::PayloadDecodeError),
        },
{
    match decoded {
        Some(payload) => Ok(payload.data.emoji),
        None => Err(StreamError::PayloadDecodeError),
    }
}

/// The text of a block: `key0:verb` on the first line and `key1:data` on the
/// second, followed by `tail`.
pub open spec fn block_text(
    key0: Seq<char>,
    verb: Seq<char>,
    key1: Seq<char>,
    data: Seq<char>,
    tail: Seq<char>,
) -> Seq<char> {
    key0 + seq![':'] + verb + seq!['\n'] + key1 + seq![':'] + data + tail
}

/// Where `c` does not occur in `head`, its first place in `head`, `c`, `rest`
/// is right after `head`.
proof fn lemma_find_after(head: Seq<char>, c: char, rest: Seq<char>)
    requires
        !head.contains(c),
    ensures
        find(head + seq![c] + rest, c) == head.len(),
        (head + seq![c] + rest).take(head.len() as int) == head,
        (head + seq![c] + rest).skip(head.len() as int + 1) == rest,
{
    let whole = head + seq![c] + rest;
    assert forall|j: int| 0 <= j < head.len() implies whole[j] != c by {
        assert(whole[j] == head[j]);
    }
    assert(whole[head.len() as int] == c);
    lemma_find_at(whole, c, head.len() as int);
    assert(whole.take(head.len() as int) =~= head);
    assert(whole.skip(head.len() as int + 1) =~= rest);
}

/// A line `key:value` whose key holds no colon parses into the two, trimmed.
proof fn lemma_parse_line_of(key: Seq<char>, value: Seq<char>)
    requires
        !key.contains(':'),
    ensures
        parse_line(key + seq![':'] + value) == Some((trim(key), trim(value))),
{
    lemma_find_after(key, ':', value);
}

/// Every well-formed two-line block is read as what it says: with a verb
/// that trims to `put`, as a record whose payload is the data segment,
/// trimmed and otherwise character for character as it was sent; with any
/// other verb, as a block to ignore. Whatever follows the second line, after
/// a line feed, changes nothing.
pub proof fn law_block_is_read_as_sent(
    key0: Seq<char>,
    verb: Seq<char>,
    key1: Seq<char>,
    data: Seq<char>,
    tail: Seq<char>,
)
    requires
        !key0.contains(':'),
        !key0.contains('\n'),
        !verb.contains('\n'),
        !key1.contains(':'),
        !key1.contains('\n'),
        !data.contains('\n'),
        tail.len() > 0 ==> tail[0] == '\n',
    ensures
        chunk_reading(block_text(key0, verb, key1, data, tail)) == if trim(verb) == put_verb() {
            Ok::<ReadingView, StreamError>(
                ReadingView::Record(RecordView { command: CommandKind::Put, payload: trim(data) }),
            )
        } else {
            Ok::<ReadingView, StreamError>(ReadingView::Ignored)
        },
{
    let line0 = key0 + seq![':'] + verb;
    let line1 = key1 + seq![':'] + data;
    let rest = line1 + tail;
    let text = block_text(key0, verb, key1, data, tail);
    assert(text =~= line0 + seq!['\n'] + rest);
    assert(!line0.contains('\n')) by {
        if line0.contains('\n') {
            let j = choose|j: int| 0 <= j < line0.len() && line0[j] == '\n';
            if j < key0.len() {
                assert(key0[j] == '\n');
            } else if j > key0.len() {
                assert(verb[j - key0.len() - 1] == '\n');
            }
        }
    }
    assert(!line1.contains('\n')) by {
        if line1.contains('\n') {
            let j = choose|j: int| 0 <= j < line1.len() && line1[j] == '\n';
            if j < key1.len() {
                assert(key1[j] == '\n');
            } else if j > key1.len() {
                assert(data[j - key1.len() - 1] == '\n');
            }
        }
    }
    lemma_find_after(line0, '\n', rest);
    assert(lines(text) == seq![line0] + lines(rest));
    assert(rest.len() > 0);
    if tail.len() > 0 {
        let after = tail.skip(1);
        assert(rest =~= line1 + seq!['\n'] + after);
        lemma_find_after(line1, '\n', after);
        assert(lines(rest) == seq![line1] + lines(after));
    } else {
        assert(rest =~= line1);
        lemma_find(line1, '\n');
        assert(lines(rest) == seq![line1]);
    }
    assert(lines(rest)[0] == line1);
    assert(lines(text)[0] == line0);
    assert(lines(text)[1] == line1);
    lemma_parse_line_of(key0, verb);
    lemma_parse_line_of(key1, data);
}

/// A read whose first line names a command other than `put` yields no
/// record and no error, whatever else it holds.
pub proof fn law_other_commands_yield_nothing(text: Seq<char>)
    requires
        lines(text).len() >= 1,
        parse_line(lines(text)[0]) matches Some((_, verb)) && verb != put_verb(),
    ensures
        chunk_reading(text) == Ok::<ReadingView, StreamError>(ReadingView::Ignored)
            || chunk_reading(text) == Ok::<ReadingView, StreamError>(ReadingView::Fragment),
{
}

/// Text survives the wire: its UTF-8 encoding is valid, and decodes to the
/// same characters.
pub proof fn law_encoded_text_decodes_unchanged(text: Seq<char>)
    ensures
        valid_utf8(encode_utf8(text)),
        decode_utf8(encode_utf8(text)) == text,
{
    encode_utf8_valid_utf8(text);
    encode_utf8_decode_utf8(text);
}

} // verus!

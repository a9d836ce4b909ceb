//! The life of the connection to the event source, as a state machine.
//!
//! The session does no I/O. It says what to do next (connect, read with a
//! deadline, or wait), and is told how that went. Every failure of the
//! transport leads to a wait and a new connection; nothing ends the session.

use crate::stream::{
    block_text, chunk_reading, law_block_is_read_as_sent, law_encoded_text_decodes_unchanged,
    law_other_commands_yield_nothing, lines, outcome, parse_line, put_verb, read_chunk,
    utf8_lossy, CommandKind, EventRecord, Reading, ReadingView, RecordView, StreamError,
};
use crate::text::{is_trimmed, lemma_trim_is_trimmed, trim};
use vstd::prelude::*;
use vstd::utf8::*;

verus! {

/// The media type to ask the event source for, in the `Accept` header of
/// the request that opens the connection.
pub const EVENT_STREAM: &'static str = "text/event-stream";

/// The usual deadline of one read, in milliseconds.
pub const READ_TIMEOUT_MS: u64 = 60_000;

/// The usual wait before a new connection, in milliseconds.
pub const BACKOFF_MS: u64 = 1_000;

/// The two delays that govern a session.
#[derive(Clone, Copy, Debug, PartialEq, Eq, Structural)]
pub struct SessionConfig {
    /// How long one read may take, in milliseconds.
    pub read_timeout_ms: u64,
    /// How long to wait before connecting again, in milliseconds.
    pub backoff_ms: u64,
}

/// Where a session stands.
#[derive(Clone, Copy, Debug, PartialEq, Eq, Structural)]
pub enum Phase {
    /// No connection; the next step is to open one.
    Connecting,
    /// A connection is open; the next step is to read from it.
    Streaming,
    /// The connection was lost or refused; the next step is to wait.
    Backoff,
}

/// What the driver of a session is to do next.
#[derive(Clone, Copy, Debug, PartialEq, Eq, Structural)]
pub enum Action {
    /// Open the connection, and report with `connect_result`.
    Connect,
    /// Read one chunk within the deadline, and report with `on_read` or
    /// `next_event`.
    Read { timeout_ms: u64 },
    /// Drop the connection, wait, and report with `backoff_elapsed`.
    Wait { delay_ms: u64 },
}

/// How one read from the connection went.
#[derive(Debug, PartialEq, Eq)]
pub enum ReadOutcome {
    /// A chunk of the response body arrived.
    Chunk(Vec<u8>),
    /// The deadline passed with no data.
    TimedOut,
    /// The transport reported an error.
    Failed,
    /// The response body is at its end.
    Ended,
}

/// How the driver goes on after an error.
#[derive(Clone, Copy, Debug, PartialEq, Eq, Structural)]
pub enum Recovery {
    /// Drop what was read and go on reading.
    Continue,
    /// Give the connection up, wait, and connect again.
    Reconnect,
}

/// The session of one event source.
#[derive(Clone, Copy, Debug, PartialEq, Eq)]
pub struct StreamSession {
    config: SessionConfig,
    phase: Phase,
}

/// What to do in a phase.
pub open spec fn action_in(phase: Phase, config: SessionConfig) -> Action {
    match phase {
        Phase::Connecting => Action::Connect,
        Phase::Streaming => Action::Read { timeout_ms: config.read_timeout_ms },
        Phase::Backoff => Action::Wait { delay_ms: config.backoff_ms },
    }
}

/// The phase after an attempt to connect.
pub open spec fn after_connect(phase: Phase, established: bool) -> Phase {
    match phase {
        Phase::Connecting => if established {
            Phase::Streaming
        } else {
            Phase::Backoff
        },
        _ => phase,
    }
}

/// The phase after a read.
pub open spec fn after_read(phase: Phase, read: ReadOutcome) -> Phase {
    match phase {
        Phase::Streaming => match read {
            ReadOutcome::Chunk(_) => Phase::Streaming,
            _ => Phase::Backoff,
        },
        _ => phase,
    }
}

/// The phase after the wait.
pub open spec fn after_backoff(phase: Phase) -> Phase {
    match phase {
        Phase::Backoff => Phase::Connecting,
        _ => phase,
    }
}

/// How the driver goes on after `error`.
pub open spec fn recovery_of(error: StreamError) -> Recovery {
    match error {
        StreamError::MalformedLine | StreamError::PayloadDecodeError => Recovery::Continue,
        StreamError::ConnectError | StreamError::Timeout | StreamError::Disconnected =>
            Recovery::Reconnect,
    }
}

/// What a reading delivers: the record of a `put` block, nothing, or the
/// error.
pub open spec fn delivery(reading: Result<ReadingView, StreamError>) -> Result<
    Option<RecordView>,
    StreamError,
> {
    match reading {
        Ok(ReadingView::Record(record)) => Ok(Some(record)),
        Ok(_) => Ok(None),
        Err(e) => Err(e),
    }
}

/// What a chunk of text delivers.
pub open spec fn event_of_text(text: Seq<char>) -> Result<Option<RecordView>, StreamError> {
    delivery(chunk_reading(text))
}

/// What a read amounts to on an open connection.
pub open spec fn reading_of(read: ReadOutcome) -> Result<ReadingView, StreamError> {
    match read {
        ReadOutcome::Chunk(bytes) => chunk_reading(utf8_lossy(bytes@)),
        ReadOutcome::TimedOut => Err(StreamError::Timeout),
        ReadOutcome::Failed | ReadOutcome::Ended => Err(StreamError::Disconnected),
    }
}

/// What a read delivers on an open connection.
pub open spec fn event_of(read: ReadOutcome) -> Result<Option<RecordView>, StreamError> {
    delivery(reading_of(read))
}

/// The mathematical content of what `next_event` returns.
pub open spec fn delivered(r: Result<Option<EventRecord>, StreamError>) -> Result<
    Option<RecordView>,
    StreamError,
> {
    match r {
        Ok(Some(record)) => Ok(Some(record@)),
        Ok(None) => Ok(None),
        Err(e) => Err(e),
    }
}

/// The phase after `n` rounds in each of which connecting fails and the wait
/// is sat out.
pub open spec fn after_failed_attempts(phase: Phase, n: nat) -> Phase
    decreases n,
{
    if n == 0 {
        phase
    } else {
        after_backoff(after_connect(after_failed_attempts(phase, (n - 1) as nat), false))
    }
}

impl Default for SessionConfig {
    /// The usual delays: reads of up to a minute, and a second before each
    /// new connection.
    fn default() -> (config: SessionConfig)
        ensures
            config == (SessionConfig { read_timeout_ms: READ_TIMEOUT_MS, backoff_ms: BACKOFF_MS }),
    {
        SessionConfig { read_timeout_ms: READ_TIMEOUT_MS, backoff_ms: BACKOFF_MS }
    }
}

impl StreamError {
    /// How the driver goes on after this error: a malformed block or payload
    /// is dropped and reading goes on; anything else costs the connection.
    pub fn recovery(self) -> (r: Recovery)
        ensures
            r == recovery_of(self),
    {
        match self {
            StreamError::MalformedLine | StreamError::PayloadDecodeError => Recovery::Continue,
            StreamError::ConnectError | StreamError::Timeout | StreamError::Disconnected =>
                Recovery::Reconnect,
        }
    }
}

impl StreamSession {
    /// The delays of this session.
    pub closed spec fn config(&self) -> SessionConfig {
        self.config
    }

    /// Where this session stands.
    pub closed spec fn phase(&self) -> Phase {
        self.phase
    }

    /// A session that has yet to connect.
    pub fn new(config: SessionConfig) -> (session: StreamSession)
        ensures
            session.config() == config,
            session.phase() == Phase::Connecting,
    {
        StreamSession { config, phase: Phase::Connecting }
    }

    /// Where this session stands.
    pub fn current_phase(&self) -> (phase: Phase)
        ensures
            phase == self.phase(),
    {
        self.phase
    }

    /// What the driver is to do next.
    pub fn next_action(&self) -> (action: Action)
        ensures
            action == action_in(self.phase(), self.config()),
    {
        match self.phase {
            Phase::Connecting => Action::Connect,
            Phase::Streaming => Action::Read { timeout_ms: self.config.read_timeout_ms },
            Phase::Backoff => Action::Wait { delay_ms: self.config.backoff_ms },
        }
    }

    /// Takes the result of an attempt to connect. A refusal is reported as
    /// `ConnectError`, and is followed by a wait.
    pub fn connect_result(&mut self, established: bool) -> (r: Result<(), StreamError>)
        ensures
            final(self).config() == old(self).config(),
            final(self).phase() == after_connect(old(self).phase(), established),
            r == if established {
                Ok::<(), StreamError>(())
            } else {
                Err::<(), StreamError>(StreamError::ConnectError)
            },
    {
        if let Phase::Connecting = self.phase {
            self.phase = if established {
                Phase::Streaming
            } else {
                Phase::Backoff
            };
        }
        if established {
            Ok(())
        } else {
            Err(StreamError::ConnectError)
        }
    }

    /// Takes the end of the wait.
    pub fn backoff_elapsed(&mut self)
        ensures
            final(self).config() == old(self).config(),
            final(self).phase() == after_backoff(old(self).phase()),
    {
        if let Phase::Backoff = self.phase {
            self.phase = Phase::Connecting;
        }
    }

    /// Takes the result of one read, and returns what it amounts to.
    ///
    /// A chunk keeps the connection, whatever it holds; a deadline that
    /// passed, a transport error and the end of the stream cost it. Without
    /// an open connection nothing is read: the result is `Disconnected`.
    pub fn on_read(&mut self, read: ReadOutcome) -> (r: Result<Reading, StreamError>)
        ensures
            final(self).config() == old(self).config(),
            final(self).phase() == after_read(old(self).phase(), read),
            outcome(r) == if old(self).phase() == Phase::Streaming {
                reading_of(read)
            } else {
                Err(StreamError::Disconnected)
            },
            read matches ReadOutcome::Chunk(bytes) ==> old(self).phase() == Phase::Streaming
                && valid_utf8(bytes@) ==> outcome(r) == chunk_reading(decode_utf8(bytes@)),
    {
        match self.phase {
            Phase::Streaming => {},
            _ => { return Err(StreamError::Disconnected); },
        }
        match read {
            ReadOutcome::Chunk(bytes) => read_chunk(bytes.as_slice()),
            ReadOutcome::TimedOut => {
                self.phase = Phase::Backoff;
                Err(StreamError::Timeout)
            },
            ReadOutcome::Failed => {
                self.phase = Phase::Backoff;
                Err(StreamError::Disconnected)
            },
            ReadOutcome::Ended => {
                self.phase = Phase::Backoff;
                Err(StreamError::Disconnected)
            },
        }
    }

    /// Takes the result of one read, and returns the record that it
    /// delivers, if any: the record of a `put` block. A block with another
    /// command and a fragment deliver nothing, and are no error. The
    /// session moves as `on_read` says.
    pub fn next_event(&mut self, read: ReadOutcome) -> (r: Result<Option<EventRecord>, StreamError>)
        ensures
            final(self).config() == old(self).config(),
            final(self).phase() == after_read(old(self).phase(), read),
            delivered(r) == if old(self).phase() == Phase::Streaming {
                event_of(read)
            } else {
                Err(StreamError::Disconnected)
            },
            read matches ReadOutcome::Chunk(bytes) ==> old(self).phase() == Phase::Streaming
                && valid_utf8(bytes@) ==> delivered(r) == event_of_text(decode_utf8(bytes@)),
    {
        match self.on_read(read) {
            Ok(Reading::Record(record)) => Ok(Some(record)),
            Ok(_) => Ok(None),
            Err(e) => Err(e),
        }
    }
}

/// A well-formed `put` block delivers its record, with the data segment as
/// its payload, trimmed and otherwise character for character as it was
/// sent. Its text survives the wire: encoded as UTF-8 it is valid, and
/// delivers the same.
pub proof fn law_put_block_delivers_its_payload(
    key0: Seq<char>,
    verb: Seq<char>,
    key1: Seq<char>,
    data: Seq<char>,
    tail: Seq<char>,
)
    requires
        !key0.contains(':'),
        !key0.contains('\n'),
        !verb.contains('\n'),
        trim(verb) == put_verb(),
        !key1.contains(':'),
        !key1.contains('\n'),
        !data.contains('\n'),
        tail.len() > 0 ==> tail[0] == '\n',
    ensures
        ({
            let text = block_text(key0, verb, key1, data, tail);
            let record = RecordView { command: CommandKind::Put, payload: trim(data) };
            &&& event_of_text(text) == Ok::<Option<RecordView>, StreamError>(Some(record))
            &&& valid_utf8(encode_utf8(text))
            &&& event_of_text(decode_utf8(encode_utf8(text))) == event_of_text(text)
            &&& is_trimmed(data) ==> record.payload == data
        }),
{
    let text = block_text(key0, verb, key1, data, tail);
    law_block_is_read_as_sent(key0, verb, key1, data, tail);
    law_encoded_text_decodes_unchanged(text);
    lemma_trim_is_trimmed(data);
}

/// A read whose first line names a command other than `put` delivers
/// nothing, and no error.
pub proof fn law_other_commands_deliver_nothing(text: Seq<char>)
    requires
        lines(text).len() >= 1,
        parse_line(lines(text)[0]) matches Some((_, verb)) && verb != put_verb(),
    ensures
        event_of_text(text) == Ok::<Option<RecordView>, StreamError>(None),
{
    law_other_commands_yield_nothing(text);
}

/// A read that delivers an error costs the connection exactly where the
/// error calls for a new one.
pub proof fn law_errors_cost_the_connection_by_policy(read: ReadOutcome)
    ensures
        event_of(read) matches Err(e) ==> (after_read(Phase::Streaming, read) == Phase::Backoff
            <==> recovery_of(e) == Recovery::Reconnect),
        event_of(read) is Ok ==> after_read(Phase::Streaming, read) == Phase::Streaming,
{
}

/// After a read that fails (the deadline passed, the transport broke, the
/// stream ended) the session asks for the configured wait and, once that is
/// over, for a new connection.
pub proof fn law_failed_read_leads_to_reconnect(config: SessionConfig, read: ReadOutcome)
    requires
        !(read is Chunk),
    ensures
        action_in(after_read(Phase::Streaming, read), config) == (Action::Wait {
            delay_ms: config.backoff_ms,
        }),
        action_in(after_backoff(after_read(Phase::Streaming, read)), config) == Action::Connect,
{
}

/// However often connecting fails, the session is ready to connect once
/// more: no number of failures ends it.
pub proof fn law_retries_never_run_out(config: SessionConfig, n: nat)
    ensures
        after_failed_attempts(Phase::Connecting, n) == Phase::Connecting,
        action_in(after_failed_attempts(Phase::Connecting, n), config) == Action::Connect,
    decreases n,
{
    if n > 0 {
        law_retries_never_run_out(config, (n - 1) as nat);
    }
}

} // verus!

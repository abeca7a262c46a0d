//! The JSON encoder: one compact object per event, then a newline.

use vstd::prelude::*;

use crate::json::{append_decimal, decimal, json_quoted, lemma_punctuation, quote_json};
use crate::mdc::{current_entries, entries_view, keys_unique, mdc_object, write_mdc};
use crate::time::{format_rfc3339, Timestamp};

verus! {

/// The severity of a log event.
#[derive(Clone, Copy, Debug, PartialEq, Eq)]
pub enum Level {
    Error,
    Warn,
    Info,
    Debug,
    Trace,
}

/// The name under which a level is written.
pub open spec fn level_name(level: Level) -> Seq<char> {
    match level {
        Level::Error => "ERROR"@,
        Level::Warn => "WARN"@,
        Level::Info => "INFO"@,
        Level::Debug => "DEBUG"@,
        Level::Trace => "TRACE"@,
    }
}

/// The upper-case name of a level.
pub fn level_str(level: Level) -> (r: &'static str)
    ensures
        r@ == level_name(level),
{
    match level {
        Level::Error => "ERROR",
        Level::Warn => "WARN",
        Level::Info => "INFO",
        Level::Debug => "DEBUG",
        Level::Trace => "TRACE",
    }
}

/// Why an event could not be encoded.
#[derive(Debug)]
pub enum EncodeError {
    /// A field of the event could not be written as JSON.
    Serialization(serde_json::Error),
    /// The first key or value of the diagnostic context that could not be
    /// written as JSON.
    DiagnosticContext(serde_json::Error),
}

/// A thread name as JSON: a string, or `null` for an unnamed thread.
pub open spec fn thread_json(thread: Option<Seq<char>>) -> Seq<char> {
    match thread {
        Some(name) => json_quoted(name),
        None => "null"@,
    }
}

/// The view of an optional string.
pub open spec fn opt_view(s: Option<&str>) -> Option<Seq<char>> {
    match s {
        Some(t) => Some(t@),
        None => None,
    }
}

/// One member of the event object: the quoted name, a colon, the value.
pub open spec fn field(name: Seq<char>, value: Seq<char>) -> Seq<char> {
    json_quoted(name) + seq![':'] + value
}

/// The JSON object of an event, with its nine fields in their fixed order.
pub open spec fn event_object(
    time: Seq<char>,
    level: Level,
    target: Seq<char>,
    module: Seq<char>,
    file: Seq<char>,
    line: nat,
    message: Seq<char>,
    thread: Option<Seq<char>>,
    mdc: Seq<(Seq<char>, Seq<char>)>,
) -> Seq<char> {
    seq!['{']
        + field("time"@, json_quoted(time)) + seq![',']
        + field("message"@, json_quoted(message)) + seq![',']
        + field("module\x5fpath"@, json_quoted(module)) + seq![',']
        + field("file"@, json_quoted(file)) + seq![',']
        + field("line"@, decimal(line)) + seq![',']
        + field("level"@, json_quoted(level_name(level))) + seq![',']
        + field("target"@, json_quoted(target)) + seq![',']
        + field("thread"@, thread_json(thread)) + seq![',']
        + field("mdc"@, mdc_object(mdc))
        + seq!['}']
}

/// The line written for an event: its object and one newline.
pub open spec fn event_line(
    time: Seq<char>,
    level: Level,
    target: Seq<char>,
    module: Seq<char>,
    file: Seq<char>,
    line: nat,
    message: Seq<char>,
    thread: Option<Seq<char>>,
    mdc: Seq<(Seq<char>, Seq<char>)>,
) -> Seq<char> {
    event_object(time, level, target, module, file, line, message, thread, mdc) + seq!['\n']
}

/// Appends a member name, quoted, and its colon.
fn append_key(out: &mut String, name: &str) -> (r: Result<(), EncodeError>)
    ensures
        r is Ok,
        r is Ok ==> final(out)@ == old(out)@ + json_quoted(name@) + seq![':'],
{
    proof {
        lemma_punctuation();
    }
    match quote_json(name) {
        Ok(k) => {
            out.append(k.as_str());
            out.append(":");
            assert(final(out)@ =~= old(out)@ + json_quoted(name@) + seq![':']);
            Ok(())
        },
        Err(e) => Err(EncodeError::Serialization(e)),
    }
}

/// Appends a member whose value is a JSON string.
fn append_string_field(out: &mut String, name: &str, value: &str) -> (r: Result<(), EncodeError>)
    ensures
        r is Ok,
        r is Ok ==> final(out)@ == old(out)@ + field(name@, json_quoted(value@)),
{
    append_key(out, name)?;
    match quote_json(value) {
        Ok(v) => {
            out.append(v.as_str());
            assert(final(out)@ =~= old(out)@ + field(name@, json_quoted(value@)));
            Ok(())
        },
        Err(e) => Err(EncodeError::Serialization(e)),
    }
}

/// Writes each log event as a JSON object on a line of its own.
#[derive(Debug)]
pub struct JsonEncoder {
    _private: (),
}

impl JsonEncoder {
    /// A new encoder; it takes no options.
    pub fn new() -> (r: JsonEncoder) {
        JsonEncoder { _private: () }
    }

    /// The line for an event, with `mdc` as the diagnostic context.
    ///
    /// `time` is written in RFC 3339 form, `line` as a number, `thread` as a
    /// string or `null`, and the entries of `mdc` in their order.
    pub fn encode_with_mdc(
        &self,
        time: Timestamp,
        level: Level,
        target: &str,
        module: &str,
        file: &str,
        line: u32,
        message: &str,
        thread: Option<&str>,
        mdc: &Vec<(String, String)>,
    ) -> (r: Result<String, EncodeError>)
        ensures
            r matches Ok(s) && s@ == event_line(
                time.text(),
                level,
                target@,
                module@,
                file@,
                line as nat,
                message@,
                opt_view(thread),
                entries_view(mdc@),
            ),
    {
        proof {
            lemma_punctuation();
        }
        let mut out = String::new();
        out.append("{");
        let time_text = format_rfc3339(time);
        append_string_field(&mut out, "time", time_text.as_str())?;
        out.append(",");
        assert(out@ == seq!['{'] + field("time"@, json_quoted(time.text())) + seq![',']);
        append_string_field(&mut out, "message", message)?;
        out.append(",");
        append_string_field(&mut out, "module\x5fpath", module)?;
        out.append(",");
        append_string_field(&mut out, "file", file)?;
        out.append(",");
        let ghost head = out@;
        append_key(&mut out, "line")?;
        append_decimal(&mut out, line);
        assert(out@ =~= head + field("line"@, decimal(line as nat)));
        out.append(",");
        append_string_field(&mut out, "level", level_str(level))?;
        out.append(",");
        append_string_field(&mut out, "target", target)?;
        out.append(",");
        let ghost head = out@;
        match thread {
            Some(name) => append_string_field(&mut out, "thread", name)?,
            None => {
                append_key(&mut out, "thread")?;
                out.append("null");
                assert(out@ =~= head + field("thread"@, "null"@));
            },
        }
        assert(out@ == head + field("thread"@, thread_json(opt_view(thread))));
        out.append(",");
        let ghost head = out@;
        append_key(&mut out, "mdc")?;
        match write_mdc(&mut out, mdc) {
            Ok(()) => {},
            Err(e) => {
                return Err(EncodeError::DiagnosticContext(e));
            },
        }
        assert(out@ =~= head + field("mdc"@, mdc_object(entries_view(mdc@))));
        let ghost obj = out@;
        out.append("}\n");
        assert(out@ =~= obj + seq!['}'] + seq!['\n']);
        assert(obj + seq!['}'] == event_object(
            time.text(),
            level,
            target@,
            module@,
            file@,
            line as nat,
            message@,
            opt_view(thread),
            entries_view(mdc@),
        ));
        Ok(out)
    }

    /// The line for an event, with the calling thread's diagnostic context
    /// as it stands at the time of the call.
    pub fn encode_inner(
        &self,
        time: Timestamp,
        level: Level,
        target: &str,
        module: &str,
        file: &str,
        line: u32,
        message: &str,
        thread: Option<&str>,
    ) -> (r: Result<String, EncodeError>)
        ensures
            r is Ok,
            exists|mdc: Seq<(Seq<char>, Seq<char>)>|
                #[trigger] keys_unique(mdc) && r->Ok_0@ == event_line(
                    time.text(),
                    level,
                    target@,
                    module@,
                    file@,
                    line as nat,
                    message@,
                    opt_view(thread),
                    mdc,
                ),
    {
        let mdc = current_entries();
        let r = self.encode_with_mdc(time, level, target, module, file, line, message, thread, &mdc);
        assert(keys_unique(entries_view(mdc@)));
        r
    }
}

/// The encoder's configuration. It has no fields: the encoder takes no
/// options.
#[derive(Clone, Copy, Debug, PartialEq, Eq)]
pub struct JsonEncoderConfig {
    _p: (),
}

impl JsonEncoderConfig {
    /// The one configuration there is.
    pub fn new() -> (r: JsonEncoderConfig) {
        JsonEncoderConfig { _p: () }
    }
}

/// Builds a `JsonEncoder` from its configuration.
#[derive(Clone, Copy, Debug, PartialEq, Eq)]
pub struct JsonEncoderDeserializer;

impl JsonEncoderDeserializer {
    /// An encoder for the given configuration; every configuration gives the
    /// same encoder.
    pub fn deserialize(&self, _config: JsonEncoderConfig) -> (r: JsonEncoder) {
        JsonEncoder::new()
    }
}

} // verus!

//! Facts about the shape of an encoded line.

use vstd::prelude::*;

use crate::encoder::{event_line, event_object, field, level_name, thread_json, Level};
use crate::json::{decimal, digit_char, escaped, escaped_char, hex_digit, json_quoted};
use crate::mdc::{member, members, mdc_object};

verus! {

/// No character of `s` is a line feed.
pub open spec fn no_newline(s: Seq<char>) -> bool {
    forall|i: int| 0 <= i < s.len() ==> s[i] != '\n'
}

pub broadcast proof fn lemma_no_newline_concat(a: Seq<char>, b: Seq<char>)
    requires
        no_newline(a),
        no_newline(b),
    ensures
        #[trigger] no_newline(a + b),
{
    assert forall|i: int| 0 <= i < (a + b).len() implies (a + b)[i] != '\n' by {
        if i >= a.len() {
            assert((a + b)[i] == b[i - a.len()]);
        }
    }
}

proof fn lemma_hex_digit_no_newline(d: nat)
    requires
        d < 16,
    ensures
        hex_digit(d) != '\n',
{
}

proof fn lemma_escaped_no_newline(s: Seq<char>)
    ensures
        no_newline(escaped(s)),
    decreases s.len(),
{
    broadcast use lemma_no_newline_concat;
    if s.len() > 0 {
        lemma_escaped_no_newline(s.drop_last());
        let c = s.last();
        if (c as nat) < 0x20 {
            lemma_hex_digit_no_newline((c as nat) / 16);
            lemma_hex_digit_no_newline((c as nat) % 16);
        }
        assert(no_newline(escaped_char(c)));
    }
}

/// A JSON string literal never holds a raw line feed.
pub proof fn lemma_quoted_no_newline(s: Seq<char>)
    ensures
        no_newline(json_quoted(s)),
{
    broadcast use lemma_no_newline_concat;
    lemma_escaped_no_newline(s);
    assert(no_newline(seq!['"']));
}

proof fn lemma_decimal_no_newline(n: nat)
    ensures
        no_newline(decimal(n)),
    decreases n,
{
    broadcast use lemma_no_newline_concat;
    if n >= 10 {
        lemma_decimal_no_newline(n / 10);
    }
    assert(no_newline(seq![digit_char(n % 10)]));
}

proof fn lemma_members_no_newline(es: Seq<(Seq<char>, Seq<char>)>, n: nat)
    requires
        n <= es.len(),
    ensures
        no_newline(members(es, n)),
    decreases n,
{
    broadcast use lemma_no_newline_concat;
    if n > 0 {
        lemma_members_no_newline(es, (n - 1) as nat);
        lemma_quoted_no_newline(es[n - 1].0);
        lemma_quoted_no_newline(es[n - 1].1);
        assert(no_newline(seq![':']));
        assert(no_newline(seq![',']));
        assert(no_newline(member(es[n - 1])));
    }
}

proof fn lemma_field_no_newline(name: Seq<char>, value: Seq<char>)
    requires
        no_newline(value),
    ensures
        no_newline(field(name, value)),
{
    broadcast use lemma_no_newline_concat;
    lemma_quoted_no_newline(name);
    assert(no_newline(seq![':']));
}

/// The context object of an empty context is `{}`.
pub proof fn lemma_empty_context_object()
    ensures
        mdc_object(seq![]) == seq!['{', '}'],
{
    assert(mdc_object(seq![]) =~= seq!['{', '}']);
}

/// An encoded event is exactly one line: its last character is a line feed
/// and no other character is.
pub proof fn lemma_event_is_one_line(
    time: Seq<char>,
    level: Level,
    target: Seq<char>,
    module: Seq<char>,
    file: Seq<char>,
    line: nat,
    message: Seq<char>,
    thread: Option<Seq<char>>,
    mdc: Seq<(Seq<char>, Seq<char>)>,
)
    ensures
        event_line(time, level, target, module, file, line, message, thread, mdc).last() == '\n',
        no_newline(
            event_line(time, level, target, module, file, line, message, thread, mdc).drop_last(),
        ),
{
    broadcast use lemma_no_newline_concat;
    reveal_strlit("null");
    lemma_quoted_no_newline(time);
    lemma_quoted_no_newline(message);
    lemma_quoted_no_newline(module);
    lemma_quoted_no_newline(file);
    lemma_decimal_no_newline(line);
    lemma_quoted_no_newline(level_name(level));
    lemma_quoted_no_newline(target);
    match thread {
        Some(name) => lemma_quoted_no_newline(name),
        None => assert(no_newline("null"@)),
    }
    lemma_members_no_newline(mdc, mdc.len());
    assert(no_newline(seq!['{']));
    assert(no_newline(seq!['}']));
    assert(no_newline(seq![',']));
    assert(no_newline(mdc_object(mdc)));
    lemma_field_no_newline("time"@, json_quoted(time));
    lemma_field_no_newline("message"@, json_quoted(message));
    lemma_field_no_newline("module\x5fpath"@, json_quoted(module));
    lemma_field_no_newline("file"@, json_quoted(file));
    lemma_field_no_newline("line"@, decimal(line));
    lemma_field_no_newline("level"@, json_quoted(level_name(level)));
    lemma_field_no_newline("target"@, json_quoted(target));
    lemma_field_no_newline("thread"@, thread_json(thread));
    lemma_field_no_newline("mdc"@, mdc_object(mdc));
    let obj = event_object(time, level, target, module, file, line, message, thread, mdc);
    assert(no_newline(obj));
    let l = event_line(time, level, target, module, file, line, message, thread, mdc);
    assert(l.drop_last() =~= obj);
}

} // verus!

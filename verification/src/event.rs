//! The audit event record emitted on every successful purchase, and its
//! serialization: one line of text holding the `EVENT_JSON:` prefix followed
//! by the record as a tagged JSON object. The line is the only durable audit
//! trail, so its rendering is specified character by character and is stable
//! across processes.

use vstd::prelude::*;
use vstd::string::{StrSliceExecFns, StringExecFns};

verus! {

/// One issued ticket as recorded in a purchase event.
pub struct PurchaseTicket {
    pub owner_id: String,
    pub ticket_link: String,
    pub price: u128,
    pub memo: Option<String>,
}

/// The kinds of event this engine emits.
pub enum EventLogVariant {
    Purchase(Vec<PurchaseTicket>),
}

/// A structured audit record: the event-standard version tag and the event
/// itself.
pub struct EventLog {
    pub standard: String,
    pub event: EventLogVariant,
}

/// The decimal digit character for `d` in 0..=9.
pub open spec fn digit_char(d: int) -> char {
    if d == 0 {
        '0'
    } else if d == 1 {
        '1'
    } else if d == 2 {
        '2'
    } else if d == 3 {
        '3'
    } else if d == 4 {
        '4'
    } else if d == 5 {
        '5'
    } else if d == 6 {
        '6'
    } else if d == 7 {
        '7'
    } else if d == 8 {
        '8'
    } else {
        '9'
    }
}

/// The lower-case hexadecimal digit character for `d` in 0..=15.
pub open spec fn hex_char(d: int) -> char {
    if d < 10 {
        digit_char(d)
    } else if d == 10 {
        'a'
    } else if d == 11 {
        'b'
    } else if d == 12 {
        'c'
    } else if d == 13 {
        'd'
    } else if d == 14 {
        'e'
    } else {
        'f'
    }
}

/// The decimal rendering of `n`, most significant digit first, with no
/// leading zeroes (a single `0` for zero).
pub open spec fn spec_dec(n: nat) -> Seq<char>
    decreases n,
{
    if n < 10 {
        seq![digit_char(n as int)]
    } else {
        spec_dec(n / 10).push(digit_char((n % 10) as int))
    }
}

/// How one character appears inside a JSON string: quote and backslash are
/// escaped, control characters take their short escape or the `\u00..` form,
/// and every other character stands for itself.
pub open spec fn spec_escaped_char(c: char) -> Seq<char> {
    if c == '"' {
        seq!['\\', '"']
    } else if c == '\\' {
        seq!['\\', '\\']
    } else if c == '\u{8}' {
        seq!['\\', 'b']
    } else if c == '\t' {
        seq!['\\', 't']
    } else if c == '\n' {
        seq!['\\', 'n']
    } else if c == '\u{c}' {
        seq!['\\', 'f']
    } else if c == '\r' {
        seq!['\\', 'r']
    } else if (c as u32) < 0x20 {
        seq!['\\', 'u', '0', '0', hex_char(c as u32 as int / 16), hex_char(c as u32 as int % 16)]
    } else {
        seq![c]
    }
}

/// The body of a JSON string: every character escaped as JSON requires.
pub open spec fn spec_escaped(s: Seq<char>) -> Seq<char>
    decreases s.len(),
{
    if s.len() == 0 {
        Seq::empty()
    } else {
        spec_escaped(s.drop_last()) + spec_escaped_char(s.last())
    }
}

/// A JSON string literal: the escaped body between double quotes.
pub open spec fn spec_json_string(s: Seq<char>) -> Seq<char> {
    seq!['"'] + spec_escaped(s) + seq!['"']
}

/// One ticket record as a JSON object.
pub open spec fn spec_ticket_json(t: PurchaseTicket) -> Seq<char> {
    "{\"owner_id\":"@ + spec_json_string(t.owner_id@) + ",\"ticket_link\":"@ + spec_json_string(
        t.ticket_link@,
    ) + ",\"price\":"@ + spec_dec(t.price as nat) + ",\"memo\":"@ + (match t.memo {
        Some(m) => spec_json_string(m@),
        None => "null"@,
    }) + "}"@
}

/// The data array's contents: the ticket records joined by commas.
pub open spec fn spec_data_json(ts: Seq<PurchaseTicket>) -> Seq<char>
    decreases ts.len(),
{
    if ts.len() == 0 {
        Seq::empty()
    } else if ts.len() == 1 {
        spec_ticket_json(ts[0])
    } else {
        spec_data_json(ts.drop_last()) + seq![','] + spec_ticket_json(ts.last())
    }
}

/// The full audit line for an event record.
pub open spec fn spec_event_json(e: EventLog) -> Seq<char> {
    match e.event {
        EventLogVariant::Purchase(ts) => "EVENT_JSON:{\"standard\":"@ + spec_json_string(
            e.standard@,
        ) + ",\"event\":\"purchase\",\"data\":["@ + spec_data_json(ts@) + "]}"@,
    }
}

/// Relies on `String::push`: appends the given character to the end of the
/// string.
#[verifier::external_body]
fn push_char(s: &mut String, c: char)
    ensures
        final(s)@ == old(s)@ + seq![c],
{
    s.push(c);
}

/// The decimal digit character for `d`.
fn digit_of(d: u128) -> (c: char)
    requires
        d < 10,
    ensures
        c == digit_char(d as int),
{
    if d == 0 {
        '0'
    } else if d == 1 {
        '1'
    } else if d == 2 {
        '2'
    } else if d == 3 {
        '3'
    } else if d == 4 {
        '4'
    } else if d == 5 {
        '5'
    } else if d == 6 {
        '6'
    } else if d == 7 {
        '7'
    } else if d == 8 {
        '8'
    } else {
        '9'
    }
}

/// The lower-case hexadecimal digit character for `d`.
fn hex_of(d: u32) -> (c: char)
    requires
        d < 16,
    ensures
        c == hex_char(d as int),
{
    if d < 10 {
        digit_of(d as u128)
    } else if d == 10 {
        'a'
    } else if d == 11 {
        'b'
    } else if d == 12 {
        'c'
    } else if d == 13 {
        'd'
    } else if d == 14 {
        'e'
    } else {
        'f'
    }
}

/// Appends the decimal rendering of `n`.
fn append_dec(out: &mut String, n: u128)
    ensures
        final(out)@ == old(out)@ + spec_dec(n as nat),
    decreases n,
{
    if n < 10 {
        let c = digit_of(n);
        push_char(out, c);
    } else {
        append_dec(out, n / 10);
        let c = digit_of(n % 10);
        push_char(out, c);
        proof {
            assert(old(out)@ + spec_dec((n / 10) as nat) + seq![digit_char((n % 10) as int)]
                =~= old(out)@ + spec_dec(n as nat));
        }
    }
}

/// Appends one character, escaped as JSON requires.
fn append_escaped_char(out: &mut String, c: char)
    ensures
        final(out)@ == old(out)@ + spec_escaped_char(c),
{
    if c == '"' {
        push_char(out, '\\');
        push_char(out, '"');
        proof {
            assert(old(out)@ + seq!['\\'] + seq!['"'] =~= old(out)@ + spec_escaped_char(c));
        }
    } else if c == '\\' {
        push_char(out, '\\');
        push_char(out, '\\');
        proof {
            assert(old(out)@ + seq!['\\'] + seq!['\\'] =~= old(out)@ + spec_escaped_char(c));
        }
    } else if c == '\u{8}' {
        push_char(out, '\\');
        push_char(out, 'b');
        proof {
            assert(old(out)@ + seq!['\\'] + seq!['b'] =~= old(out)@ + spec_escaped_char(c));
        }
    } else if c == '\t' {
        push_char(out, '\\');
        push_char(out, 't');
        proof {
            assert(old(out)@ + seq!['\\'] + seq!['t'] =~= old(out)@ + spec_escaped_char(c));
        }
    } else if c == '\n' {
        push_char(out, '\\');
        push_char(out, 'n');
        proof {
            assert(old(out)@ + seq!['\\'] + seq!['n'] =~= old(out)@ + spec_escaped_char(c));
        }
    } else if c == '\u{c}' {
        push_char(out, '\\');
        push_char(out, 'f');
        proof {
            assert(old(out)@ + seq!['\\'] + seq!['f'] =~= old(out)@ + spec_escaped_char(c));
        }
    } else if c == '\r' {
        push_char(out, '\\');
        push_char(out, 'r');
        proof {
            assert(old(out)@ + seq!['\\'] + seq!['r'] =~= old(out)@ + spec_escaped_char(c));
        }
    } else {
        let v = c as u32;
        if v < 0x20 {
            push_char(out, '\\');
            push_char(out, 'u');
            push_char(out, '0');
            push_char(out, '0');
            let hi = hex_of(v / 16);
            push_char(out, hi);
            let lo = hex_of(v % 16);
            push_char(out, lo);
            proof {
                assert(old(out)@ + seq!['\\'] + seq!['u'] + seq!['0'] + seq!['0'] + seq![
                    hex_char(v as int / 16),
                ] + seq![hex_char((v % 16) as int)] =~= old(out)@ + spec_escaped_char(c));
            }
        } else {
            push_char(out, c);
        }
    }
}

/// Appends `s` as a JSON string literal, quotes included.
fn append_json_string(out: &mut String, s: &str)
    ensures
        final(out)@ == old(out)@ + spec_json_string(s@),
{
    push_char(out, '"');
    let n = s.unicode_len();
    for i in 0..n
        invariant
            n == s@.len(),
            out@ =~= old(out)@ + seq!['"'] + spec_escaped(s@.take(i as int)),
    {
        proof {
            assert(s@.take(i + 1).drop_last() =~= s@.take(i as int));
            assert(s@.take(i + 1).last() == s@[i as int]);
        }
        let c = s.get_char(i);
        append_escaped_char(out, c);
    }
    push_char(out, '"');
    proof {
        assert(s@.take(n as int) =~= s@);
        assert(old(out)@ + seq!['"'] + spec_escaped(s@) + seq!['"'] =~= old(out)@
            + spec_json_string(s@));
    }
}

/// Appends one ticket record as a JSON object.
fn append_ticket_json(out: &mut String, t: &PurchaseTicket)
    ensures
        final(out)@ == old(out)@ + spec_ticket_json(*t),
{
    out.append("{\"owner_id\":");
    append_json_string(out, t.owner_id.as_str());
    out.append(",\"ticket_link\":");
    append_json_string(out, t.ticket_link.as_str());
    out.append(",\"price\":");
    append_dec(out, t.price);
    out.append(",\"memo\":");
    match &t.memo {
        Some(m) => append_json_string(out, m.as_str()),
        None => out.append("null"),
    }
    out.append("}");
    proof {
        assert(out@ =~= old(out)@ + spec_ticket_json(*t));
    }
}

impl EventLog {
    /// The audit line for this record: the `EVENT_JSON:` prefix followed by
    /// the record as a tagged JSON object. Equal records render equal lines.
    pub fn render(&self) -> (r: String)
        ensures
            r@ == spec_event_json(*self),
    {
        let mut out = String::new();
        out.append("EVENT_JSON:{\"standard\":");
        append_json_string(&mut out, self.standard.as_str());
        out.append(",\"event\":\"purchase\",\"data\":[");
        let ghost prefix = out@;
        match &self.event {
            EventLogVariant::Purchase(tickets) => {
                let n = tickets.len();
                for i in 0..n
                    invariant
                        n == tickets@.len(),
                        out@ =~= prefix + spec_data_json(tickets@.take(i as int)),
                {
                    proof {
                        assert(tickets@.take(i + 1).drop_last() =~= tickets@.take(i as int));
                        assert(tickets@.take(i + 1).last() == tickets@[i as int]);
                    }
                    if i > 0 {
                        push_char(&mut out, ',');
                    }
                    append_ticket_json(&mut out, &tickets[i]);
                }
                proof {
                    assert(tickets@.take(n as int) =~= tickets@);
                }
            }
        }
        out.append("]}");
        proof {
            assert(out@ =~= spec_event_json(*self));
        }
        out
    }
}

} // verus!

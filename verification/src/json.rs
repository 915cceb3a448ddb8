//! Rendering of the response object in its documented wire shape: one JSON
//! object with the eight response fields, strings escaped as JSON asks.
use vstd::prelude::*;
use crate::codec::dec_str_of;
use crate::codec::decimal_string;
use crate::codec::digit_char;
use crate::model::MessageResponse;

verus! {

/// The character for one hexadecimal digit value, lower case.
pub open spec fn hex_char(d: int) -> char {
    if d < 10 {
        digit_char(d)
    } else if d == 10 {
        'a'
    } else if d == 11 {
        'b'
    } else if d == 12 {
        'c'
    } else if d == 13 {
        'd'
    } else if d == 14 {
        'e'
    } else {
        'f'
    }
}

/// The JSON escape of one character: the two-character short escapes, a
/// `\u00..` escape for the remaining control characters, and every other
/// character itself.
pub open spec fn json_escaped_char(c: char) -> Seq<char> {
    if c == '"' {
        "\\\""@
    } else if c == '\\' {
        "\\\\"@
    } else if c == '\u{8}' {
        "\\b"@
    } else if c == '\t' {
        "\\t"@
    } else if c == '\n' {
        "\\n"@
    } else if c == '\u{c}' {
        "\\f"@
    } else if c == '\r' {
        "\\r"@
    } else if (c as u32) < 0x20 {
        "\\u00"@ + seq![hex_char(((c as u32) as int) / 16), hex_char(((c as u32) as int) % 16)]
    } else {
        seq![c]
    }
}

/// The JSON escape of a whole string body.
pub open spec fn json_escape(s: Seq<char>) -> Seq<char>
    decreases s.len(),
{
    if s.len() == 0 {
        Seq::empty()
    } else {
        json_escaped_char(s[0]) + json_escape(s.skip(1))
    }
}

/// A JSON string: the escaped body between double quotes.
pub open spec fn json_string(s: Seq<char>) -> Seq<char> {
    "\""@ + json_escape(s) + "\""@
}

/// An optional string field: a JSON string when present, `null` otherwise.
pub open spec fn opt_json(o: Option<String>) -> Seq<char> {
    match o {
        Some(s) => json_string(s@),
        None => "null"@,
    }
}

pub open spec fn bool_json(b: bool) -> Seq<char> {
    if b {
        "true"@
    } else {
        "false"@
    }
}

/// The documented response shape, field for field: `id`, `messageType`,
/// `senderId`, `receiverId`, `text`, `read`, `image` and `createdOn`, the
/// last a bare decimal integer.
pub open spec fn response_json(resp: MessageResponse) -> Seq<char> {
    "{\"id\":"@ + json_string(resp.id@) + ",\"messageType\":"@ + json_string(resp.message_type@)
        + ",\"senderId\":"@ + json_string(resp.sender_id@) + ",\"receiverId\":"@ + json_string(
        resp.receiver_id@,
    ) + ",\"text\":"@ + opt_json(resp.text) + ",\"read\":"@ + bool_json(resp.read) + ",\"image\":"@
        + opt_json(resp.image) + ",\"createdOn\":"@ + dec_str_of(resp.created_on as int) + "}"@
}

/// Relies on `String::push`: appends exactly one character.
#[verifier::external_body]
fn push_char(s: &mut String, c: char)
    ensures
        final(s)@ == old(s)@.push(c),
{
    s.push(c);
}

fn hex_char_exec(d: u32) -> (c: char)
    requires
        d < 16,
    ensures
        c == hex_char(d as int),
{
    match d {
        0 => '0',
        1 => '1',
        2 => '2',
        3 => '3',
        4 => '4',
        5 => '5',
        6 => '6',
        7 => '7',
        8 => '8',
        9 => '9',
        10 => 'a',
        11 => 'b',
        12 => 'c',
        13 => 'd',
        14 => 'e',
        _ => 'f',
    }
}

fn append_escaped_char(out: &mut String, c: char)
    ensures
        final(out)@ == old(out)@ + json_escaped_char(c),
{
    if c == '"' {
        out.append("\\\"");
    } else if c == '\\' {
        out.append("\\\\");
    } else if c == '\u{8}' {
        out.append("\\b");
    } else if c == '\t' {
        out.append("\\t");
    } else if c == '\n' {
        out.append("\\n");
    } else if c == '\u{c}' {
        out.append("\\f");
    } else if c == '\r' {
        out.append("\\r");
    } else if (c as u32) < 0x20 {
        out.append("\\u00");
        push_char(out, hex_char_exec(c as u32 / 16));
        push_char(out, hex_char_exec(c as u32 % 16));
        proof {
            assert(out@ =~= old(out)@ + json_escaped_char(c));
        }
    } else {
        push_char(out, c);
        proof {
            assert(out@ =~= old(out)@ + json_escaped_char(c));
        }
    }
}

proof fn lemma_json_escape_snoc(s: Seq<char>, c: char)
    ensures
        json_escape(s.push(c)) == json_escape(s) + json_escaped_char(c),
    decreases s.len(),
{
    if s.len() == 0 {
        assert(s.push(c)[0] == c);
        assert(s.push(c).skip(1) =~= Seq::<char>::empty());
        assert(json_escape(s.push(c).skip(1)) =~= Seq::<char>::empty());
        assert(json_escape(s.push(c)) =~= json_escaped_char(c));
        assert(json_escape(s) + json_escaped_char(c) =~= json_escaped_char(c));
    } else {
        assert(s.push(c).skip(1) =~= s.skip(1).push(c));
        lemma_json_escape_snoc(s.skip(1), c);
        assert(json_escape(s.push(c)) =~= json_escape(s) + json_escaped_char(c));
    }
}

fn append_json_string(out: &mut String, s: &str)
    ensures
        final(out)@ == old(out)@ + json_string(s@),
{
    out.append("\"");
    let n = s.unicode_len();
    let mut i: usize = 0;
    while i < n
        invariant
            n == s@.len(),
            i <= n,
            out@ == old(out)@ + "\""@ + json_escape(s@.take(i as int)),
        decreases n - i,
    {
        let c = s.get_char(i);
        append_escaped_char(out, c);
        proof {
            assert(s@.take(i + 1) =~= s@.take(i as int).push(s@[i as int]));
            lemma_json_escape_snoc(s@.take(i as int), s@[i as int]);
        }
        i = i + 1;
    }
    proof {
        assert(s@.take(n as int) =~= s@);
    }
    out.append("\"");
    proof {
        assert(out@ =~= old(out)@ + json_string(s@));
    }
}

/// The response rendered to JSON exactly as `response_json` states it.
pub fn response_json_string(resp: &MessageResponse) -> (r: String)
    requires
        resp.created_on >= 0,
    ensures
        r@ == response_json(*resp),
{
    let mut out = String::from_str("{\"id\":");
    append_json_string(&mut out, resp.id.as_str());
    out.append(",\"messageType\":");
    append_json_string(&mut out, resp.message_type.as_str());
    out.append(",\"senderId\":");
    append_json_string(&mut out, resp.sender_id.as_str());
    out.append(",\"receiverId\":");
    append_json_string(&mut out, resp.receiver_id.as_str());
    out.append(",\"text\":");
    match &resp.text {
        Some(t) => append_json_string(&mut out, t.as_str()),
        None => out.append("null"),
    }
    out.append(",\"read\":");
    if resp.read {
        out.append("true");
    } else {
        out.append("false");
    }
    out.append(",\"image\":");
    match &resp.image {
        Some(im) => append_json_string(&mut out, im.as_str()),
        None => out.append("null"),
    }
    out.append(",\"createdOn\":");
    let ds = decimal_string(resp.created_on as u64);
    out.append(ds.as_str());
    out.append("}");
    proof {
        assert(out@ =~= response_json(*resp));
    }
    out
}

} // verus!

//! The wire form of a streaming event: one JSON object per event,
//! discriminated by its `type` field.  The frame is built and escaped
//! here, so what goes to the client is exactly what the contracts state.

use vstd::prelude::*;
use vstd::string::*;

verus! {

use crate::models::WsEvent;

/// The hexadecimal digit for `d`, lowercase.
pub open spec fn hex_digit(d: int) -> char {
    if d < 10 {
        ((48 + d) as u8) as char
    } else {
        ((87 + d) as u8) as char
    }
}

/// `c` passes into a JSON string unescaped.
pub open spec fn is_plain(c: char) -> bool {
    c != '"' && c != '\\' && (c as int) >= 32
}

/// The JSON escape of one character: the two-character escapes JSON
/// names, a `\u00XX` escape for the other control characters, and the
/// character itself otherwise.
pub open spec fn escape_char(c: char) -> Seq<char> {
    if c == '"' {
        seq!['\\', '"']
    } else if c == '\\' {
        seq!['\\', '\\']
    } else if c == '\u{8}' {
        seq!['\\', 'b']
    } else if c == '\u{c}' {
        seq!['\\', 'f']
    } else if c == '\n' {
        seq!['\\', 'n']
    } else if c == '\r' {
        seq!['\\', 'r']
    } else if c == '\t' {
        seq!['\\', 't']
    } else if (c as int) < 32 {
        seq!['\\', 'u', '0', '0', hex_digit((c as int) / 16), hex_digit((c as int) % 16)]
    } else {
        seq![c]
    }
}

/// The JSON escape of a whole string.
pub open spec fn escaped(s: Seq<char>) -> Seq<char>
    decreases s.len(),
{
    if s.len() == 0 {
        Seq::<char>::empty()
    } else {
        escaped(s.drop_last()) + escape_char(s.last())
    }
}

/// The JSON string literal for `s`: quoted and escaped.
pub open spec fn json_string(s: Seq<char>) -> Seq<char> {
    seq!['"'] + escaped(s) + seq!['"']
}

/// A run of plain characters passes through the escape unchanged.
proof fn lemma_escaped_plain_run(s: Seq<char>, a: int, b: int)
    requires
        0 <= a <= b <= s.len(),
        forall|k: int| a <= k < b ==> is_plain(s[k]),
    ensures
        escaped(s.subrange(0, b)) == escaped(s.subrange(0, a)) + s.subrange(a, b),
    decreases b - a,
{
    if a == b {
        assert(s.subrange(a, b).len() == 0);
        assert(escaped(s.subrange(0, a)) + s.subrange(a, b) =~= escaped(s.subrange(0, a)));
    } else {
        lemma_escaped_plain_run(s, a, b - 1);
        let t = s.subrange(0, b);
        assert(t.drop_last() =~= s.subrange(0, b - 1));
        assert(t.last() == s[b - 1]);
        assert(is_plain(s[b - 1]));
        assert(escape_char(s[b - 1]) =~= seq![s[b - 1]]);
        assert(escaped(s.subrange(0, a)) + s.subrange(a, b - 1) + seq![s[b - 1]] =~= escaped(
            s.subrange(0, a),
        ) + s.subrange(a, b));
    }
}

/// The one-character string for a hexadecimal digit, lowercase.
fn hex_digit_str(d: u32) -> (r: &'static str)
    requires
        d < 16,
    ensures
        r@ == seq![hex_digit(d as int)],
{
    proof {
        reveal_strlit("0");
        reveal_strlit("1");
        reveal_strlit("2");
        reveal_strlit("3");
        reveal_strlit("4");
        reveal_strlit("5");
        reveal_strlit("6");
        reveal_strlit("7");
        reveal_strlit("8");
        reveal_strlit("9");
        reveal_strlit("a");
        reveal_strlit("b");
        reveal_strlit("c");
        reveal_strlit("d");
        reveal_strlit("e");
        reveal_strlit("f");
    }
    let r = match d {
        0 => "0",
        1 => "1",
        2 => "2",
        3 => "3",
        4 => "4",
        5 => "5",
        6 => "6",
        7 => "7",
        8 => "8",
        9 => "9",
        10 => "a",
        11 => "b",
        12 => "c",
        13 => "d",
        14 => "e",
        _ => "f",
    };
    proof {
        assert(r@ =~= seq![hex_digit(d as int)]);
    }
    r
}

/// The escape of one character that does not pass through unchanged.
fn escape_of(c: char) -> (r: String)
    requires
        !is_plain(c),
    ensures
        r@ == escape_char(c),
{
    proof {
        reveal_strlit("\\\"");
        reveal_strlit("\\\\");
        reveal_strlit("\\b");
        reveal_strlit("\\f");
        reveal_strlit("\\n");
        reveal_strlit("\\r");
        reveal_strlit("\\t");
        reveal_strlit("\\u00");
    }
    if c == '"' {
        let r = String::from_str("\\\"");
        proof {
            assert(r@ =~= escape_char(c));
        }
        r
    } else if c == '\\' {
        let r = String::from_str("\\\\");
        proof {
            assert(r@ =~= escape_char(c));
        }
        r
    } else if c == '\u{8}' {
        let r = String::from_str("\\b");
        proof {
            assert(r@ =~= escape_char(c));
        }
        r
    } else if c == '\u{c}' {
        let r = String::from_str("\\f");
        proof {
            assert(r@ =~= escape_char(c));
        }
        r
    } else if c == '\n' {
        let r = String::from_str("\\n");
        proof {
            assert(r@ =~= escape_char(c));
        }
        r
    } else if c == '\r' {
        let r = String::from_str("\\r");
        proof {
            assert(r@ =~= escape_char(c));
        }
        r
    } else if c == '\t' {
        let r = String::from_str("\\t");
        proof {
            assert(r@ =~= escape_char(c));
        }
        r
    } else {
        let v = c as u32;
        let mut r = String::from_str("\\u00");
        r.append(hex_digit_str(v / 16));
        r.append(hex_digit_str(v % 16));
        proof {
            assert(r@ =~= escape_char(c));
        }
        r
    }
}

/// Whether `c` passes into a JSON string unescaped, as executable code.
fn is_plain_char(c: char) -> (b: bool)
    ensures
        b == is_plain(c),
{
    let v = c as u32;
    c != '"' && c != '\\' && v >= 32
}

/// Escapes `s` for use inside a JSON string literal.  Characters that
/// need no escape are copied through in runs, so any text passes.
pub fn escape_json(s: &str) -> (r: String)
    ensures
        r@ == escaped(s@),
{
    let n = s.unicode_len();
    let mut out = String::new();
    let mut start: usize = 0;
    let mut i: usize = 0;
    while i < n
        invariant
            n == s@.len(),
            0 <= start <= i <= n,
            forall|k: int| start <= k < i ==> is_plain(s@[k]),
            out@ == escaped(s@.subrange(0, start as int)),
        decreases n - i,
    {
        let c = s.get_char(i);
        if is_plain_char(c) {
            i = i + 1;
        } else {
            out.append(s.substring_char(start, i));
            proof {
                lemma_escaped_plain_run(s@, start as int, i as int);
            }
            let esc = escape_of(c);
            out.append(esc.as_str());
            proof {
                let t = s@.subrange(0, i + 1);
                assert(t.drop_last() =~= s@.subrange(0, i as int));
                assert(t.last() == s@[i as int]);
            }
            i = i + 1;
            start = i;
        }
    }
    out.append(s.substring_char(start, n));
    proof {
        lemma_escaped_plain_run(s@, start as int, n as int);
        assert(s@.subrange(0, n as int) =~= s@);
    }
    out
}

/// The JSON string literal for `s`: quoted and escaped.
pub fn quote_json(s: &str) -> (r: String)
    ensures
        r@ == json_string(s@),
{
    proof {
        reveal_strlit("\"");
    }
    let mut out = String::from_str("\"");
    let esc = escape_json(s);
    out.append(esc.as_str());
    out.append("\"");
    proof {
        assert(out@ =~= json_string(s@));
    }
    out
}

/// The JSON object a streaming event travels as.
pub open spec fn event_json(e: WsEvent) -> Seq<char> {
    match e {
        WsEvent::StreamStart { conversation_id } => "{\"type\":\"stream_start\",\"conversation_id\":"@
            + json_string(conversation_id@) + "}"@,
        WsEvent::StreamChunk { content } => "{\"type\":\"stream_chunk\",\"content\":"@
            + json_string(content@) + "}"@,
        WsEvent::StreamEnd { full_content, message_id } => "{\"type\":\"stream_end\",\"full_content\":"@
            + json_string(full_content@) + ",\"message_id\":"@ + (match message_id {
            Some(id) => json_string(id@),
            None => "null"@,
        }) + "}"@,
        WsEvent::Error { message } => "{\"type\":\"error\",\"message\":"@ + json_string(message@)
            + "}"@,
    }
}

/// Renders a streaming event as its wire JSON object.
pub fn encode_event(event: &WsEvent) -> (r: String)
    ensures
        r@ == event_json(*event),
{
    match event {
        WsEvent::StreamStart { conversation_id } => {
            let mut out = String::from_str("{\"type\":\"stream_start\",\"conversation_id\":");
            let q = quote_json(conversation_id.as_str());
            out.append(q.as_str());
            out.append("}");
            proof {
                assert(out@ =~= event_json(*event));
            }
            out
        },
        WsEvent::StreamChunk { content } => {
            let mut out = String::from_str("{\"type\":\"stream_chunk\",\"content\":");
            let q = quote_json(content.as_str());
            out.append(q.as_str());
            out.append("}");
            proof {
                assert(out@ =~= event_json(*event));
            }
            out
        },
        WsEvent::StreamEnd { full_content, message_id } => {
            let mut out = String::from_str("{\"type\":\"stream_end\",\"full_content\":");
            let q = quote_json(full_content.as_str());
            out.append(q.as_str());
            out.append(",\"message_id\":");
            match message_id {
                Some(id) => {
                    let qid = quote_json(id.as_str());
                    out.append(qid.as_str());
                },
                None => {
                    out.append("null");
                },
            }
            out.append("}");
            proof {
                assert(out@ =~= event_json(*event));
            }
            out
        },
        WsEvent::Error { message } => {
            let mut out = String::from_str("{\"type\":\"error\",\"message\":");
            let q = quote_json(message.as_str());
            out.append(q.as_str());
            out.append("}");
            proof {
                assert(out@ =~= event_json(*event));
            }
            out
        },
    }
}

} // verus!

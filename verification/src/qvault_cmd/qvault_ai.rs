//! The AI-chat request and response handling: the chat request payload is
//! framed here, character by character with JSON string escaping, and the
//! response body is reduced to the first choice's message text. The HTTP
//! request itself is the caller's concern.
use vstd::prelude::*;

use crate::qvault_cmd::qvault_search::{json_err_of, json_parse_error};
use crate::text::{chars_of, hex_digit};

verus! {

/// The JSON string escape of one character: the two-character short
/// escapes where JSON has them, a `\u00..` escape for the other control
/// characters, and the character itself otherwise.
pub open spec fn esc_char(c: char) -> Seq<char> {
    if c == '"' {
        seq!['\\', '"']
    } else if c == '\\' {
        seq!['\\', '\\']
    } else if c == '\n' {
        seq!['\\', 'n']
    } else if c == '\r' {
        seq!['\\', 'r']
    } else if c == '\t' {
        seq!['\\', 't']
    } else if c == '\u{8}' {
        seq!['\\', 'b']
    } else if c == '\u{C}' {
        seq!['\\', 'f']
    } else if (c as u32) < 32 {
        seq!['\\', 'u', '0', '0', hex_digit((c as u32) as nat / 16), hex_digit(
            (c as u32) as nat % 16,
        )]
    } else {
        seq![c]
    }
}

/// A whole character sequence escaped for a JSON string literal.
pub open spec fn json_escaped(s: Seq<char>) -> Seq<char>
    decreases s.len(),
{
    if s.len() == 0 {
        Seq::<char>::empty()
    } else {
        esc_char(s[0]) + json_escaped(s.drop_first())
    }
}

/// Escaping distributes over concatenation.
proof fn lemma_json_escaped_append(a: Seq<char>, b: Seq<char>)
    ensures
        json_escaped(a + b) == json_escaped(a) + json_escaped(b),
    decreases a.len(),
{
    if a.len() == 0 {
        assert(a + b =~= b);
        assert(json_escaped(a) + json_escaped(b) =~= json_escaped(b));
    } else {
        assert((a + b).len() > 0);
        assert((a + b)[0] == a[0]);
        assert((a + b).drop_first() =~= a.drop_first() + b);
        lemma_json_escaped_append(a.drop_first(), b);
        assert(json_escaped(a + b) =~= json_escaped(a) + json_escaped(b));
    }
}

/// Appends the JSON string escape of one character.
fn push_escaped_char(out: &mut String, c: char)
    ensures
        final(out)@ == old(out)@ + esc_char(c),
{
    if c == '"' {
        out.append("\\\"");
        proof {
            reveal_strlit("\\\"");
            assert(out@ =~= old(out)@ + esc_char(c));
        }
    } else if c == '\\' {
        out.append("\\\\");
        proof {
            reveal_strlit("\\\\");
            assert(out@ =~= old(out)@ + esc_char(c));
        }
    } else if c == '\n' {
        out.append("\\n");
        proof {
            reveal_strlit("\\n");
            assert(out@ =~= old(out)@ + esc_char(c));
        }
    } else if c == '\r' {
        out.append("\\r");
        proof {
            reveal_strlit("\\r");
            assert(out@ =~= old(out)@ + esc_char(c));
        }
    } else if c == '\t' {
        out.append("\\t");
        proof {
            reveal_strlit("\\t");
            assert(out@ =~= old(out)@ + esc_char(c));
        }
    } else if c == '\u{8}' {
        out.append("\\b");
        proof {
            reveal_strlit("\\b");
            assert(out@ =~= old(out)@ + esc_char(c));
        }
    } else if c == '\u{C}' {
        out.append("\\f");
        proof {
            reveal_strlit("\\f");
            assert(out@ =~= old(out)@ + esc_char(c));
        }
    } else if (c as u32) < 32 {
        out.append("\\u00");
        let v = c as u32;
        crate::text::push_char(out, crate::text::hex_char((v / 16) as u8));
        crate::text::push_char(out, crate::text::hex_char((v % 16) as u8));
        proof {
            reveal_strlit("\\u00");
            assert(out@ =~= old(out)@ + esc_char(c));
        }
    } else {
        crate::text::push_char(out, c);
        proof {
            assert(out@ =~= old(out)@ + esc_char(c));
        }
    }
}

/// Escapes `s` for use inside a JSON string literal.
pub fn escape_json(s: &str) -> (r: String)
    ensures
        r@ == json_escaped(s@),
{
    let chars = chars_of(s);
    let mut r = String::new();
    let mut i: usize = 0;
    while i < chars.len()
        invariant
            chars@ == s@,
            i <= s@.len(),
            r@ == json_escaped(s@.take(i as int)),
        decreases s@.len() - i,
    {
        push_escaped_char(&mut r, chars[i]);
        i = i + 1;
        proof {
            assert(s@.take(i as int) =~= s@.take(i - 1) + seq![s@[i - 1]]);
            lemma_json_escaped_append(s@.take(i - 1), seq![s@[i - 1]]);
            assert(seq![s@[i - 1]].drop_first() =~= Seq::<char>::empty());
            assert(json_escaped(Seq::<char>::empty()) =~= Seq::<char>::empty());
            assert(json_escaped(seq![s@[i - 1]]) =~= esc_char(s@[i - 1]));
        }
    }
    proof {
        assert(s@.take(s@.len() as int) =~= s@);
    }
    r
}

/// The chat request payload for `message`: the fixed model and a single
/// user message, serialized with the object keys in sorted order.
pub fn build_chat_payload(message: &str) -> (r: String)
    ensures
        r@ == "{\"messages\":[{\"content\":\""@ + json_escaped(message@)
            + "\",\"role\":\"user\"}],\"model\":\"gpt-3.5-turbo\"}"@,
{
    let mut r = String::from_str("{\"messages\":[{\"content\":\"");
    let esc = escape_json(message);
    r.append(esc.as_str());
    r.append("\",\"role\":\"user\"}],\"model\":\"gpt-3.5-turbo\"}");
    proof {
        assert(r@ =~= "{\"messages\":[{\"content\":\""@ + json_escaped(message@)
            + "\",\"role\":\"user\"}],\"model\":\"gpt-3.5-turbo\"}"@);
    }
    r
}

/// The reply text of a chat response body: the string under
/// `choices[0].message.content`, if `body` is valid JSON holding one — a
/// function of the body's characters alone.
pub uninterp spec fn chat_content_of(body: Seq<char>) -> Option<Seq<char>>;

/// Relies on serde_json's `from_str`, `Value` indexing, `get` and
/// `as_str`: the reply text of the response body, as `chat_content_of`
/// describes it.
#[verifier::external_body]
fn extract_content(body: &str) -> (r: Option<String>)
    ensures
        r is Some <==> chat_content_of(body@) is Some,
        r is Some ==> r->0@ == chat_content_of(body@)->0,
{
    let v: serde_json::Value = serde_json::from_str(body).ok()?;
    Some(v["choices"].get(0)?["message"]["content"].as_str()?.to_string())
}

/// Reduces a chat response body to the text under
/// `choices[0].message.content`, exactly when the body holds one: a body
/// that is not JSON is reported with the parse error, and valid JSON
/// without that text with the fixed extraction message.
pub fn extract_chat_content(body: &str) -> (r: Result<String, String>)
    ensures
        r is Ok <==> chat_content_of(body@) is Some,
        r is Ok ==> r->Ok_0@ == chat_content_of(body@)->0,
        r is Err && json_err_of(body@) is Some ==> r->Err_0@ == json_err_of(body@)->0,
        r is Err && json_err_of(body@) is None ==> r->Err_0@
            == "Failed to extract response content from OpenAI API"@,
{
    match extract_content(body) {
        Some(s) => Ok(s),
        None => match json_parse_error(body) {
            Some(msg) => Err(msg),
            None => Err(String::from_str("Failed to extract response content from OpenAI API")),
        },
    }
}

} // verus!

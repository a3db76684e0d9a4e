//! The one-line JSON text that reports an error on standard error.
use vstd::prelude::*;
use crate::error::{error_message, ErrorV, ZhihuError};
use crate::text::concat3;

verus! {

/// The lowercase hexadecimal digit for `n` (0 to 15).
pub open spec fn hex_digit(n: int) -> char {
    if n < 10 {
        (('0' as u32) + n) as char
    } else {
        (('a' as u32) + (n - 10)) as char
    }
}

/// How one character is written inside a JSON string: `"` and `\` and the
/// control characters below U+0020 are escaped (with the short forms
/// `\b`, `\t`, `\n`, `\f`, `\r` where JSON has them, `\u00XX` otherwise);
/// every other character is written as it is.
pub open spec fn json_escape_char(c: char) -> Seq<char> {
    let u = c as u32;
    if c == '"' {
        seq!['\\', '"']
    } else if c == '\\' {
        seq!['\\', '\\']
    } else if u == 0x08 {
        seq!['\\', 'b']
    } else if u == 0x09 {
        seq!['\\', 't']
    } else if u == 0x0a {
        seq!['\\', 'n']
    } else if u == 0x0c {
        seq!['\\', 'f']
    } else if u == 0x0d {
        seq!['\\', 'r']
    } else if u < 0x20 {
        seq!['\\', 'u', '0', '0', hex_digit((u / 16) as int), hex_digit((u % 16) as int)]
    } else {
        seq![c]
    }
}

/// The characters of `s`, each written as in a JSON string.
pub open spec fn json_escape(s: Seq<char>) -> Seq<char>
    decreases s.len(),
{
    if s.len() == 0 {
        seq![]
    } else {
        json_escape(s.drop_last()) + json_escape_char(s.last())
    }
}

/// `s` as a JSON string literal.
pub open spec fn json_quoted(s: Seq<char>) -> Seq<char> {
    seq!['"'] + json_escape(s) + seq!['"']
}

/// Calls `serde_json::to_string` on a string slice. For a `str` the
/// serializer writes the JSON string literal: the text in double quotes with
/// the escapes that `json_escape_char` lists (serde_json's `ESCAPE` table and
/// `write_char_escape`). Serializing a `str` into memory cannot fail.
#[verifier::external_body]
fn json_string(s: &str) -> (r: String)
    ensures
        r@ == json_quoted(s@),
{
    match serde_json::to_string(s) {
        Ok(text) => text,
        Err(_) => String::new(),
    }
}

/// The machine-readable code reported with an error, if it has one: only a
/// missing secret has one.
pub open spec fn error_code(e: ErrorV) -> Option<int> {
    match e {
        ErrorV::MissingSecret => Some(20001),
        _ => None,
    }
}

/// The JSON text reporting `e`: an object with the member `error` holding the
/// message, followed by the member `code` when the error has a code.
pub open spec fn error_json_text(e: ErrorV) -> Seq<char> {
    "{\"error\":"@ + json_quoted(error_message(e)) + match error_code(e) {
        Some(_) => ",\"code\":20001}"@,
        None => "}"@,
    }
}

/// The single-line JSON text that reports `err` on standard error.
pub fn format_error_json(err: &ZhihuError) -> (r: String)
    ensures
        r@ == error_json_text(err@),
{
    let message = err.message();
    let quoted = json_string(message.as_str());
    let tail = match err {
        ZhihuError::MissingSecret => ",\"code\":20001}",
        _ => "}",
    };
    concat3("{\"error\":", quoted.as_str(), tail)
}

proof fn lemma_json_escape_one_line(s: Seq<char>)
    ensures
        forall|i: int| 0 <= i < json_escape(s).len() ==> #[trigger] json_escape(s)[i] != '\n',
    decreases s.len(),
{
    if s.len() > 0 {
        lemma_json_escape_one_line(s.drop_last());
        let head = json_escape(s.drop_last());
        let tail = json_escape_char(s.last());
        assert forall|i: int| 0 <= i < tail.len() implies tail[i] != '\n' by {
            let u = s.last() as u32;
            if u < 0x20 && u != 0x08 && u != 0x09 && u != 0x0a && u != 0x0c && u != 0x0d {
                assert(u / 16 < 2);
            }
        }
        assert forall|i: int| 0 <= i < json_escape(s).len() implies #[trigger] json_escape(s)[i]
            != '\n' by {
            if i >= head.len() {
                assert(json_escape(s)[i] == tail[i - head.len()]);
            } else {
                assert(json_escape(s)[i] == head[i]);
            }
        }
    }
}

/// The error report is a single line: whatever the message holds, no newline
/// character appears in it (a newline in the message is written as `\n`).
pub proof fn lemma_error_json_is_one_line(e: ErrorV)
    ensures
        forall|i: int|
            0 <= i < error_json_text(e).len() ==> #[trigger] error_json_text(e)[i] != '\n',
{
    reveal_strlit("{\"error\":");
    reveal_strlit(",\"code\":20001}");
    reveal_strlit("}");
    let q = json_quoted(error_message(e));
    lemma_json_escape_one_line(error_message(e));
    assert forall|i: int| 0 <= i < q.len() implies q[i] != '\n' by {
        if 0 < i < q.len() - 1 {
            assert(q[i] == json_escape(error_message(e))[i - 1]);
        }
    }
}


/// Only a missing secret is reported with the code: the report ends with
/// `,"code":20001}` for it, and with the closing brace of the message
/// otherwise; it always starts with the `error` member holding the message.
pub proof fn lemma_error_json_code_only_for_missing_secret(e: ErrorV)
    ensures
        error_json_text(e) == "{\"error\":"@ + json_quoted(error_message(e)) + (if e is MissingSecret {
            ",\"code\":20001}"@
        } else {
            "}"@
        }),
{
}

} // verus!

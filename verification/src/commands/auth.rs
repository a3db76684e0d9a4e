//! `auth`: validation of an access secret, the status report and the
//! replies of the commands that save a secret.
use vstd::prelude::*;
use crate::error::{invalid_argument, ErrorV, ZhihuError};
use crate::json::{jstr, obj2, Json, JsonV};
use crate::text::{
    is_blank, lemma_trim_idempotent, lemma_trim_push_ws, owned, trim, trim_str, utf8_text,
};
use vstd::string::StrSliceExecFns;
use vstd::utf8::{
    char_is_scalar, decode_utf8, encode_scalar, encode_utf8, encode_utf8_decode_utf8,
    encode_utf8_valid_utf8, has_width_1_encoding, has_width_2_encoding, has_width_3_encoding,
    valid_utf8,
};

verus! {

/// A candidate secret: trimmed, and refused when nothing is left of it.
pub open spec fn validate_secret_spec(secret: Seq<char>) -> Result<Seq<char>, ErrorV> {
    if is_blank(secret) {
        Err(ErrorV::InvalidArgument("secret cannot be empty"@))
    } else {
        Ok(trim(secret))
    }
}

/// Trims a candidate secret and refuses it when nothing is left of it.
pub fn validate_secret(secret: &str) -> (r: Result<String, ZhihuError>)
    ensures
        match r {
            Ok(s) => validate_secret_spec(secret@) == Ok::<Seq<char>, ErrorV>(s@),
            Err(e) => validate_secret_spec(secret@) == Err::<Seq<char>, ErrorV>(e@),
        },
{
    let trimmed = trim_str(secret);
    if trimmed.as_str().unicode_len() == 0 {
        return Err(invalid_argument("secret cannot be empty"));
    }
    Ok(trimmed)
}

/// A secret that was accepted is accepted again unchanged, and validation
/// depends only on the trimmed text.
pub proof fn lemma_validate_secret_idempotent(secret: Seq<char>)
    ensures
        validate_secret_spec(trim(secret)) == validate_secret_spec(secret),
        validate_secret_spec(secret) matches Ok(s) ==> validate_secret_spec(s) == Ok::<
            Seq<char>,
            ErrorV,
        >(s),
{
    lemma_trim_idempotent(secret);
}

/// The first line of `bytes`: everything up to and including the first
/// newline byte, or all of it when there is none (what `read_line` reads).
pub open spec fn first_line(bytes: Seq<u8>) -> Seq<u8>
    decreases bytes.len(),
{
    if bytes.len() == 0 {
        seq![]
    } else if bytes[0] == 10u8 {
        seq![10u8]
    } else {
        seq![bytes[0]] + first_line(bytes.drop_first())
    }
}

/// The secret read from `input`: its first line, which must be UTF-8, trimmed
/// and validated.
pub open spec fn read_secret_spec(input: Seq<u8>) -> Result<Seq<char>, ErrorV> {
    let line = first_line(input);
    if !valid_utf8(line) {
        Err(ErrorV::Io("stream did not contain valid UTF-8"@))
    } else {
        validate_secret_spec(trim(decode_utf8(line)))
    }
}

proof fn lemma_first_line_prefix(bytes: Seq<u8>, i: int)
    requires
        0 <= i <= bytes.len(),
        forall|k: int| 0 <= k < i ==> bytes[k] != 10u8,
    ensures
        first_line(bytes) == bytes.take(i) + first_line(bytes.skip(i)),
    decreases i,
{
    if i > 0 {
        lemma_first_line_prefix(bytes.drop_first(), i - 1);
        assert(bytes.drop_first().take(i - 1) =~= bytes.take(i).drop_first());
        assert(bytes.drop_first().skip(i - 1) =~= bytes.skip(i));
        assert(bytes.take(i) =~= seq![bytes[0]] + bytes.take(i).drop_first());
    } else {
        assert(bytes.skip(0) =~= bytes);
    }
}

/// Reads one line from `input` (the bytes a reader holds), and validates it as
/// a secret. A line that is not UTF-8 is an I/O error, as `read_line` reports.
pub fn read_and_validate_secret(input: &[u8]) -> (r: Result<String, ZhihuError>)
    ensures
        match r {
            Ok(s) => read_secret_spec(input@) == Ok::<Seq<char>, ErrorV>(s@),
            Err(e) => read_secret_spec(input@) == Err::<Seq<char>, ErrorV>(e@),
        },
{
    let mut line: Vec<u8> = Vec::new();
    let mut i: usize = 0;
    let mut done = false;
    while i < input.len() && !done
        invariant
            i <= input@.len(),
            !done ==> line@ == input@.take(i as int),
            !done ==> forall|k: int| 0 <= k < i ==> input@[k] != 10u8,
            done ==> line@ == first_line(input@),
        decreases input@.len() - i,
    {
        let b = input[i];
        line.push(b);
        if b == 10u8 {
            proof {
                lemma_first_line_prefix(input@, i as int);
                assert(input@.skip(i as int)[0] == 10u8);
                assert(input@.take(i + 1) =~= input@.take(i as int) + seq![10u8]);
            }
            done = true;
        } else {
            assert(input@.take(i + 1) =~= input@.take(i as int).push(b));
        }
        i = i + 1;
    }
    proof {
        if !done {
            lemma_first_line_prefix(input@, i as int);
            assert(input@.skip(i as int).len() == 0);
        }
    }
    match utf8_text(line.as_slice()) {
        None => Err(ZhihuError::Io(owned("stream did not contain valid UTF-8"))),
        Some(text) => {
            let trimmed = trim_str(text.as_str());
            validate_secret(trimmed.as_str())
        },
    }
}

proof fn lemma_encode_char_has_no_newline_byte(c: char)
    requires
        c != '\n',
    ensures
        forall|i: int| 0 <= i < encode_scalar(c as u32).len() ==> #[trigger] encode_scalar(c as u32)[i] != 10u8,
{
    let u = c as u32;
    char_is_scalar(c);
    if has_width_1_encoding(u) {
        assert(u != 10u32);
        assert(u <= 0x7f && u != 10 ==> (u & 0x7F) as u8 != 10u8) by (bit_vector);
    } else {
        assert((0xC0u8 | ((u >> 6) & 0x1F) as u8) != 10u8) by (bit_vector);
        assert((0xE0u8 | ((u >> 12) & 0x0F) as u8) != 10u8) by (bit_vector);
        assert((0xF0u8 | ((u >> 18) & 0x7) as u8) != 10u8) by (bit_vector);
        assert((0x80u8 | (u & 0x3F) as u8) != 10u8) by (bit_vector);
        assert((0x80u8 | ((u >> 6) & 0x3F) as u8) != 10u8) by (bit_vector);
        assert((0x80u8 | ((u >> 12) & 0x3F) as u8) != 10u8) by (bit_vector);
        if has_width_2_encoding(u) {
        } else if has_width_3_encoding(u) {
        } else {
        }
    }
}

proof fn lemma_encode_has_no_newline_byte(t: Seq<char>)
    requires
        forall|i: int| 0 <= i < t.len() ==> t[i] != '\n',
    ensures
        forall|i: int| 0 <= i < encode_utf8(t).len() ==> encode_utf8(t)[i] != 10u8,
    decreases t.len(),
{
    if t.len() > 0 {
        lemma_encode_char_has_no_newline_byte(t[0]);
        assert forall|i: int| 0 <= i < t.drop_first().len() implies t.drop_first()[i] != '\n' by {
            assert(t.drop_first()[i] == t[i + 1]);
        }
        lemma_encode_has_no_newline_byte(t.drop_first());
        let head = encode_scalar(t[0] as u32);
        let tail = encode_utf8(t.drop_first());
        assert forall|i: int| 0 <= i < encode_utf8(t).len() implies encode_utf8(t)[i] != 10u8 by {
            if i < head.len() {
                assert(encode_utf8(t)[i] == head[i]);
            } else {
                assert(encode_utf8(t)[i] == tail[i - head.len()]);
            }
        }
    }
}

proof fn lemma_encode_concat(a: Seq<char>, b: Seq<char>)
    ensures
        encode_utf8(a + b) == encode_utf8(a) + encode_utf8(b),
    decreases a.len(),
{
    if a.len() == 0 {
        assert(a + b =~= b);
    } else {
        assert((a + b)[0] == a[0]);
        assert((a + b).drop_first() =~= a.drop_first() + b);
        lemma_encode_concat(a.drop_first(), b);
    }
}

/// `auth login` and `auth set-secret` follow the same rules: reading a line
/// that holds the text `t` (whatever input follows it) gives what validating
/// `t` given directly gives.
pub proof fn lemma_read_line_matches_validate(t: Seq<char>, rest: Seq<u8>)
    requires
        forall|i: int| 0 <= i < t.len() ==> t[i] != '\n',
    ensures
        read_secret_spec(encode_utf8(t) + seq![10u8] + rest) == validate_secret_spec(t),
{
    let p = encode_utf8(t);
    let bytes = p + seq![10u8] + rest;
    lemma_encode_has_no_newline_byte(t);
    assert forall|k: int| 0 <= k < p.len() implies bytes[k] != 10u8 by {
        assert(bytes[k] == p[k]);
    }
    lemma_first_line_prefix(bytes, p.len() as int);
    assert(bytes.take(p.len() as int) =~= p);
    assert(bytes.skip(p.len() as int)[0] == 10u8);
    let line = first_line(bytes);
    assert(line =~= p + seq![10u8]);
    let nl = seq!['\n'];
    lemma_encode_concat(t, nl);
    assert(nl.drop_first() =~= seq![]);
    assert(((10u32 & 0x7F) as u8) == 10u8) by (bit_vector);
    assert(('\n' as u32) == 10u32);
    assert(encode_scalar(10u32) =~= seq![10u8]);
    assert(encode_utf8(nl.drop_first()) =~= seq![]);
    assert(encode_utf8(nl) =~= seq![10u8]);
    assert(t + nl =~= t.push('\n'));
    encode_utf8_valid_utf8(t.push('\n'));
    encode_utf8_decode_utf8(t.push('\n'));
    lemma_trim_push_ws(t, '\n');
    lemma_validate_secret_idempotent(t);
}

/// What `auth status` reports: whether a secret is configured, and where it
/// comes from (the environment wins over the config file).
pub open spec fn status_payload_spec(env_set: bool, config_set: bool) -> JsonV {
    JsonV::Object(
        seq![
            ("configured"@, JsonV::Bool(env_set || config_set)),
            (
                "source"@,
                JsonV::Str(
                    if env_set {
                        "env"@
                    } else if config_set {
                        "config"@
                    } else {
                        "none"@
                    },
                ),
            ),
        ],
    )
}

/// The `auth status` report, given whether `ZHIHU_ACCESS_SECRET` is set and
/// whether the config file holds a secret.
pub fn status_payload(env_set: bool, config_set: bool) -> (r: Json)
    ensures
        r@ == status_payload_spec(env_set, config_set),
{
    let source = if env_set {
        "env"
    } else if config_set {
        "config"
    } else {
        "none"
    };
    obj2("configured", Json::Bool(env_set || config_set), "source", jstr(source))
}

/// The reply of a command that saved a secret.
pub fn secret_saved() -> (r: Json)
    ensures
        r@ == JsonV::Object(
            seq![("status"@, JsonV::Str("ok"@)), ("message"@, JsonV::Str("secret saved"@))],
        ),
{
    obj2("status", jstr("ok"), "message", jstr("secret saved"))
}


/// A secret is refused exactly when it is blank, and an accepted secret is
/// the given text without its surrounding whitespace: not empty, starting and
/// ending with a character that is not whitespace.
pub proof fn lemma_validate_secret_result(secret: Seq<char>)
    ensures
        validate_secret_spec(secret) is Err <==> is_blank(secret),
        validate_secret_spec(secret) matches Ok(s) ==> s == trim(secret) && s.len() > 0
            && !crate::text::is_ws(s[0]) && !crate::text::is_ws(s.last()),
{
    lemma_trim_idempotent(secret);
}

} // verus!

use vstd::prelude::*;
use vstd::string::*;
use crate::common::text::hex_alphabet;

verus! {

/// An HTTP response as the service sends it: status code, content type,
/// an optional `Set-Cookie` header and a JSON body.
pub struct ApiResponse {
    pub status: u16,
    pub content_type: String,
    pub set_cookie: Option<String>,
    pub body: String,
}

/// The content type of every response of the service.
pub open spec fn json_content_type() -> Seq<char> {
    "application/json"@
}

/// How `serde_json` writes one character inside a JSON string: `"` and `\`
/// behind a backslash, backspace, tab, line feed, form feed and carriage
/// return as `\b \t \n \f \r`, the other characters below U+0020 as
/// `\u00XX` with lowercase hex digits, every other character as itself.
pub open spec fn json_escape_char(c: char) -> Seq<char> {
    if c == '"' {
        seq!['\\', '"']
    } else if c == '\\' {
        seq!['\\', '\\']
    } else if c == '\u{8}' {
        seq!['\\', 'b']
    } else if c == '\t' {
        seq!['\\', 't']
    } else if c == '\n' {
        seq!['\\', 'n']
    } else if c == '\u{c}' {
        seq!['\\', 'f']
    } else if c == '\r' {
        seq!['\\', 'r']
    } else if (c as int) < 0x20 {
        seq!['\\', 'u', '0', '0', hex_alphabet()[(c as int) / 16], hex_alphabet()[(c as int) % 16]]
    } else {
        seq![c]
    }
}

/// The characters of `s`, each written as `serde_json` writes it in a string.
pub open spec fn json_escape(s: Seq<char>) -> Seq<char>
    decreases s.len(),
{
    if s.len() == 0 {
        seq![]
    } else {
        json_escape_char(s[0]) + json_escape(s.drop_first())
    }
}

/// What `serde_json` writes for a JSON string holding `s`: the escaped
/// characters between double quotes.
pub open spec fn json_string_literal(s: Seq<char>) -> Seq<char> {
    seq!['"'] + json_escape(s) + seq!['"']
}

/// The JSON string literal for `s`.
///
/// Trusted: wraps `serde_json::to_string(s)`. In serde_json's source
/// (`format_escaped_str` and its `ESCAPE` table) the string is written
/// between quotes with the escapes of `json_escape_char`; it works on
/// bytes, but the bytes of a multi-byte character are never escaped, so the
/// character-wise statement is the same. Serialising a string into memory
/// never fails (the writer is a `Vec`), so the `unwrap` never fires.
#[verifier::external_body]
pub(crate) fn json_quote(s: &str) -> (res: String)
    ensures
        res@ == json_string_literal(s@),
{
    serde_json::to_string(s).unwrap()
}

/// What `format!("{:?}", s)` writes for a string `s` (quoted, escaped).
pub uninterp spec fn debug_string_literal(s: Seq<char>) -> Seq<char>;

/// The `Debug` text of `s`.
///
/// Trusted: wraps `format!("{:?}", s)`, whose result is named
/// `debug_string_literal`.
#[verifier::external_body]
pub(crate) fn debug_quote(s: &str) -> (res: String)
    ensures
        res@ == debug_string_literal(s@),
{
    format!("{:?}", s)
}

/// JSON text of a boolean.
pub open spec fn json_bool(b: bool) -> Seq<char> {
    if b {
        "true"@
    } else {
        "false"@
    }
}

/// The body `{"data":{"message":<message>},"success":<success>}`, keys in the
/// sorted order in which `serde_json` writes an object.
pub open spec fn message_body(success: bool, message: Seq<char>) -> Seq<char> {
    "{\"data\":{\"message\":"@ + json_string_literal(message) + "},\"success\":"@ + json_bool(
        success,
    ) + "}"@
}

/// The JSON body carrying a message and a success flag.
pub fn message_body_text(success: bool, message: &str) -> (res: String)
    ensures
        res@ == message_body(success, message@),
{
    let mut out = String::from_str("{\"data\":{\"message\":");
    let quoted = json_quote(message);
    out.append(quoted.as_str());
    out.append("},\"success\":");
    if success {
        out.append("true");
    } else {
        out.append("false");
    }
    out.append("}");
    out
}

/// `r` is a JSON response with this status, this `Set-Cookie` value (or none)
/// and this body.
pub open spec fn is_json_response(r: ApiResponse, status: u16, cookie: Option<Seq<char>>, body: Seq<char>) -> bool {
    &&& r.status == status
    &&& r.content_type@ == json_content_type()
    &&& match r.set_cookie {
        Some(c) => cookie == Some(c@),
        None => cookie is None,
    }
    &&& r.body@ == body
}

/// `r` is the error response with this status and message.
pub open spec fn is_error_response(r: ApiResponse, status: u16, message: Seq<char>) -> bool {
    is_json_response(r, status, None, message_body(false, message))
}

/// A JSON response with the given status, `Set-Cookie` value and body.
pub fn json_response_with_cookie(status: u16, cookie: String, body: String) -> (res: ApiResponse)
    ensures
        is_json_response(res, status, Some(cookie@), body@),
{
    ApiResponse {
        status,
        content_type: String::from_str("application/json"),
        set_cookie: Some(cookie),
        body,
    }
}

/// A JSON response with the given status, no cookie and `body`.
pub fn json_response(status: u16, body: String) -> (res: ApiResponse)
    ensures
        res.status == status,
        res.content_type@ == json_content_type(),
        res.set_cookie is None,
        res.body == body,
{
    ApiResponse { status, content_type: String::from_str("application/json"), set_cookie: None, body }
}

/// The error response: `status_code` and the body
/// `{"data":{"message":<message>},"success":false}`.
pub fn return_response_error(message: String, status_code: u16) -> (res: ApiResponse)
    requires
        100 <= status_code <= 999,
    ensures
        is_error_response(res, status_code, message@),
{
    json_response(status_code, message_body_text(false, message.as_str()))
}

/// The value of a hexadecimal digit, either case.
pub open spec fn hex_digit_value(c: char) -> Option<int> {
    if '0' <= c && c <= '9' {
        Some(c as int - '0' as int)
    } else if 'a' <= c && c <= 'f' {
        Some(c as int - 'a' as int + 10)
    } else if 'A' <= c && c <= 'F' {
        Some(c as int - 'A' as int + 10)
    } else {
        None
    }
}

/// The character a two-character escape `\x` stands for in JSON (RFC 8259).
pub open spec fn json_short_escape(x: char) -> Option<char> {
    if x == '"' || x == '\\' || x == '/' {
        Some(x)
    } else if x == 'b' {
        Some('\u{8}')
    } else if x == 'f' {
        Some('\u{c}')
    } else if x == 'n' {
        Some('\n')
    } else if x == 'r' {
        Some('\r')
    } else if x == 't' {
        Some('\t')
    } else {
        None
    }
}

/// The code point of four hexadecimal digits, where they are such.
pub open spec fn hex4_value(t: Seq<char>) -> Option<int> {
    match (hex_digit_value(t[0]), hex_digit_value(t[1]), hex_digit_value(t[2]), hex_digit_value(t[3])) {
        (Some(a), Some(b), Some(c), Some(d)) => Some(((a * 16 + b) * 16 + c) * 16 + d),
        _ => None,
    }
}

/// How a JSON reader reads the inside of a string (RFC 8259, section 7):
/// unescaped characters other than `"`, `\` and controls stand for
/// themselves, `\x` escapes for their character, and `\uXXXX` for the code
/// point XXXX; `None` where the text is not so formed. Escapes of UTF-16
/// surrogates, which only pairs of them give meaning to, are not read.
pub open spec fn json_unescape(t: Seq<char>) -> Option<Seq<char>>
    decreases t.len(),
{
    if t.len() == 0 {
        Some(seq![])
    } else if t[0] == '\\' {
        if t.len() >= 2 && json_short_escape(t[1]) is Some {
            match json_unescape(t.skip(2)) {
                Some(rest) => Some(seq![json_short_escape(t[1])->0] + rest),
                None => None,
            }
        } else if t.len() >= 6 && t[1] == 'u' && hex4_value(t.subrange(2, 6)) is Some {
            let v = hex4_value(t.subrange(2, 6))->0;
            if 0xD800 <= v <= 0xDFFF {
                None
            } else {
                match json_unescape(t.skip(6)) {
                    Some(rest) => Some(seq![v as char] + rest),
                    None => None,
                }
            }
        } else {
            None
        }
    } else if t[0] == '"' || (t[0] as int) < 0x20 {
        None
    } else {
        match json_unescape(t.drop_first()) {
            Some(rest) => Some(seq![t[0]] + rest),
            None => None,
        }
    }
}

/// The text a JSON string literal stands for: its inside, read as above,
/// where it is between double quotes.
pub open spec fn json_string_value(t: Seq<char>) -> Option<Seq<char>> {
    if t.len() >= 2 && t[0] == '"' && t.last() == '"' {
        json_unescape(t.subrange(1, t.len() - 1))
    } else {
        None
    }
}

/// Reading one escaped character back.
proof fn lemma_unescape_char(c: char, rest: Seq<char>)
    ensures
        json_unescape(json_escape_char(c) + rest) == (match json_unescape(rest) {
            Some(r) => Some(seq![c] + r),
            None => None,
        }),
{
    let t = json_escape_char(c) + rest;
    let e = json_escape_char(c);
    if e.len() == 2 {
        assert(t.skip(2) =~= rest);
        assert(t[0] == e[0] && t[1] == e[1]);
    } else if e.len() == 6 {
        assert(t.skip(6) =~= rest);
        let n = c as int;
        assert(t.subrange(2, 6) =~= seq!['0', '0', hex_alphabet()[n / 16], hex_alphabet()[n % 16]]);
        assert(0 <= n / 16 < 2 && 0 <= n % 16 < 16);
        assert(hex_digit_value(hex_alphabet()[n / 16]) == Some(n / 16));
        assert(hex_digit_value(hex_alphabet()[n % 16]) == Some(n % 16));
        assert(hex4_value(t.subrange(2, 6)) == Some(n));
        assert((n as char) == c);
        assert(t[0] == '\\' && t[1] == 'u');
    } else {
        assert(t.drop_first() =~= rest);
        assert(t[0] == c);
    }
}

/// Reading escaped text back gives the text.
proof fn lemma_unescape_escape(s: Seq<char>)
    ensures
        json_unescape(json_escape(s)) == Some(s),
    decreases s.len(),
{
    if s.len() == 0 {
    } else {
        lemma_unescape_escape(s.drop_first());
        lemma_unescape_char(s[0], json_escape(s.drop_first()));
        assert(seq![s[0]] + s.drop_first() =~= s);
    }
}

/// The message in a response body reads back unchanged: the JSON string
/// `serde_json` writes for any text is read by a JSON reader as that text.
pub proof fn law_json_string_reads_back(s: Seq<char>)
    ensures
        json_string_value(json_string_literal(s)) == Some(s),
{
    let t = json_string_literal(s);
    lemma_unescape_escape(s);
    assert(t.subrange(1, t.len() - 1) =~= json_escape(s));
}

/// The message reporting a failed database write.
pub open spec fn failed_query_message(err: Seq<char>) -> Seq<char> {
    "Failed to execute query: "@ + err
}

/// The answer to a database write: `success` where it went through, else a
/// 500 "Failed to execute query: <err>" (without a cookie).
pub fn answer_after_write(success: ApiResponse, failure: Option<String>) -> (res: ApiResponse)
    ensures
        failure is None ==> res == success,
        failure matches Some(e) ==> is_error_response(res, 500, failed_query_message(e@)),
{
    match failure {
        None => success,
        Some(e) => {
            let mut message = String::from_str("Failed to execute query: ");
            message.append(e.as_str());
            return_response_error(message, 500)
        },
    }
}

/// A request lacks a required field: its username or its password is empty.
pub open spec fn lacks_required_field(username: Seq<char>, password: Seq<char>) -> bool {
    username.len() == 0 || password.len() == 0
}

/// The refusal of a request with an empty username or password: 400
/// "All fields required.", or `None` where both are given.
pub fn check_required_fields(username: &str, password: &str) -> (res: Option<ApiResponse>)
    ensures
        res is Some <==> lacks_required_field(username@, password@),
        res matches Some(r) ==> is_error_response(r, 400, "All fields required."@),
{
    if username.is_empty() || password.is_empty() {
        Some(return_response_error(String::from_str("All fields required."), 400))
    } else {
        None
    }
}

} // verus!

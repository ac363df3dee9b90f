//! What an HTTP reply of the API becomes: its JSON value, or the refusal
//! that the caller sees.
use vstd::prelude::*;

use crate::json::{text_at, text_of, Json, Kind};
use crate::text::{owned, trim, trimmed};

verus! {

/// Whether an HTTP status is a success (2xx).
pub open spec fn ok_status(code: u16) -> bool {
    200 <= code <= 299
}

/// The JSON value `null`.
pub open spec fn is_null(v: Json) -> bool {
    v.kind is Null && v.text@ == "null"@
}

/// The JSON value `null`.
pub fn null() -> (r: Json)
    ensures
        is_null(r),
{
    Json { text: owned("null"), kind: Kind::Null }
}

/// `serde_json::Value`, carried between the parse and its conversion.
#[verifier::external_type_specification]
#[verifier::external_body]
pub struct ExValue(serde_json::Value);

/// Whether `serde_json` reads a text as a JSON value (`serde_json::from_str`
/// into `serde_json::Value` succeeds).
pub uninterp spec fn json_parses(text: Seq<char>) -> bool;

/// The library's form of a `serde_json::Value`: each variant as the same
/// kind (a number with its `as_u64` value), and the value's compact text.
/// Nothing is claimed of the result.
#[verifier::external_body]
fn json_value(v: &serde_json::Value) -> Json {
    let kind = match v {
        serde_json::Value::Null => Kind::Null,
        serde_json::Value::Bool(b) => Kind::Bool(*b),
        serde_json::Value::Number(n) => Kind::Number(n.as_u64()),
        serde_json::Value::String(t) => Kind::Text(t.clone()),
        serde_json::Value::Array(items) => Kind::Array(items.iter().map(json_value).collect()),
        serde_json::Value::Object(map) => Kind::Object(map.iter().map(|(k, x)| (k.clone(), json_value(x))).collect()),
    };
    Json { text: v.to_string(), kind }
}

/// What `serde_json::from_str` reads from a text into `serde_json::Value`,
/// in the library's form (a function of the text alone: maps are ordered by
/// key).
pub uninterp spec fn json_read(text: Seq<char>) -> Option<Json>;

/// Reads a reply body with `serde_json::from_str` into `serde_json::Value`:
/// a value exactly when the text is JSON, converted to the library's form.
#[verifier::external_body]
pub fn read_json(raw: &str) -> (r: Option<Json>)
    ensures
        r == json_read(raw@),
        r is Some <==> json_parses(raw@),
{
    serde_json::from_str::<serde_json::Value>(raw).ok().map(|v| json_value(&v))
}

/// The `message` of a refusal, or `request failed`.
pub open spec fn detail_of(v: Json) -> Seq<char> {
    match text_at(v, "message"@) {
        Some(m) => m,
        None => "request failed"@,
    }
}

/// The `message` of a refusal, or `request failed`.
fn detail(v: &Json) -> (r: String)
    ensures
        r@ == detail_of(*v),
{
    match text_of(v, "message") {
        Some(m) => owned(m),
        None => owned("request failed"),
    }
}

/// A reply of the native `@forgejo` call, given its body `text` read as
/// JSON (`parsed`, when it reads): an empty body is `null` on success; a
/// refusal says the reply's `message`.
pub open spec fn finish_of(code: u16, text: Seq<char>, parsed: Option<Json>, r: Result<Json, String>) -> bool {
    if trim(text).len() == 0 {
        if ok_status(code) {
            r matches Ok(v) && is_null(v)
        } else {
            r matches Err(e) && e@ == "forgejo: request failed"@
        }
    } else {
        match parsed {
            None => r matches Err(e) && e@ == "forgejo response is not JSON"@,
            Some(v) => if ok_status(code) {
                r == Ok::<Json, String>(v)
            } else {
                r matches Err(e) && e@ == "forgejo: "@ + detail_of(v)
            },
        }
    }
}

/// A reply of the native `@forgejo` call: its body is read as JSON, then
/// decided as [`finish_of`] says.
pub fn finish(code: u16, text: &str) -> (r: Result<Json, String>)
    ensures
        finish_of(code, text@, json_read(text@), r),
{
    let parsed = read_json(text);
    let r = finish_with(code, text, parsed);
    r
}

/// A reply of the native `@forgejo` call, given its body read as JSON.
pub fn finish_with(code: u16, text: &str, parsed: Option<Json>) -> (r: Result<Json, String>)
    ensures
        finish_of(code, text@, parsed, r),
{
    let t = trimmed(text);
    if t.as_str().unicode_len() == 0 {
        if 200 <= code && code <= 299 {
            return Ok(null());
        }
        return Err(owned("forgejo: request failed"));
    }
    match parsed {
        None => Err(owned("forgejo response is not JSON")),
        Some(v) => {
            if 200 <= code && code <= 299 {
                Ok(v)
            } else {
                let mut e = owned("forgejo: ");
                let d = detail(&v);
                e.append(d.as_str());
                Err(e)
            }
        },
    }
}

/// A lowercase hexadecimal digit.
pub open spec fn hex_digit(n: int) -> char {
    if n < 10 {
        (48 + n) as char
    } else {
        (87 + n) as char
    }
}

/// How `serde_json` writes one character inside a string: `"` and `\`
/// behind a backslash, the control characters with a short escape where
/// there is one (`\b`, `\t`, `\n`, `\f`, `\r`) and as `\u00XX` (lowercase
/// hexadecimal) otherwise, every other character as it is.
pub open spec fn escaped(c: char) -> Seq<char> {
    let n = c as u32;
    if c == '"' {
        seq!['\\', '"']
    } else if c == '\\' {
        seq!['\\', '\\']
    } else if n == 8 {
        seq!['\\', 'b']
    } else if n == 9 {
        seq!['\\', 't']
    } else if n == 10 {
        seq!['\\', 'n']
    } else if n == 12 {
        seq!['\\', 'f']
    } else if n == 13 {
        seq!['\\', 'r']
    } else if n < 32 {
        seq!['\\', 'u', '0', '0', hex_digit((n / 16) as int), hex_digit((n % 16) as int)]
    } else {
        seq![c]
    }
}

/// The escaped characters of a text.
pub open spec fn escaped_text(text: Seq<char>) -> Seq<char>
    decreases text.len(),
{
    if text.len() == 0 {
        seq![]
    } else {
        escaped_text(text.drop_last()) + escaped(text.last())
    }
}

/// The JSON text of a string (as `serde_json` writes it): the escaped
/// characters between double quotes.
pub open spec fn json_text(text: Seq<char>) -> Seq<char> {
    seq!['"'] + escaped_text(text) + seq!['"']
}

/// Writes a string as JSON text with `serde_json::to_string`, which escapes
/// it as [`json_text`] states (`format_escaped_str`); serializing a `str`
/// cannot fail.
#[verifier::external_body]
pub(crate) fn string_json(text: &str) -> (r: String)
    ensures
        r@ == json_text(text@),
{
    serde_json::to_string(text).unwrap_or_default()
}

/// The value of a reply of a tool request, given its body `text` read as
/// JSON (`parsed`, when it reads): an empty body is `null` on success; a
/// body that is not JSON is kept as a string on success.
pub open spec fn raw_of(code: u16, text: Seq<char>, parsed: Option<Json>, r: Result<Json, String>) -> bool {
    if trim(text).len() == 0 {
        if ok_status(code) {
            r matches Ok(v) && is_null(v)
        } else {
            r matches Err(e) && e@ == "request failed"@
        }
    } else {
        match parsed {
            Some(v) => r == Ok::<Json, String>(v),
            None => if ok_status(code) {
                r matches Ok(v) && v.kind matches Kind::Text(s) && s@ == text && v.text@ == json_text(text)
            } else {
                r matches Err(e) && e@ == "response is not JSON"@
            },
        }
    }
}

/// The value of a reply of a tool request: its body is read as JSON, then
/// decided as [`raw_of`] says.
pub fn raw(code: u16, text: &str) -> (r: Result<Json, String>)
    ensures
        raw_of(code, text@, json_read(text@), r),
{
    let parsed = read_json(text);
    let r = raw_with(code, text, parsed);
    r
}

/// The value of a reply of a tool request, given its body read as JSON.
pub fn raw_with(code: u16, text: &str, parsed: Option<Json>) -> (r: Result<Json, String>)
    ensures
        raw_of(code, text@, parsed, r),
{
    let t = trimmed(text);
    if t.as_str().unicode_len() == 0 {
        if 200 <= code && code <= 299 {
            return Ok(null());
        }
        return Err(owned("request failed"));
    }
    match parsed {
        Some(v) => Ok(v),
        None => {
            if 200 <= code && code <= 299 {
                Ok(Json { text: string_json(text), kind: Kind::Text(owned(text)) })
            } else {
                Err(owned("response is not JSON"))
            }
        },
    }
}

/// The outcome of a tool request: the value on success, else the reply's
/// `message` (or `request failed`).
pub fn send(code: u16, value: Json) -> (r: Result<Json, String>)
    ensures
        ok_status(code) ==> r == Ok::<Json, String>(value),
        !ok_status(code) ==> (r matches Err(e) && e@ == detail_of(value)),
{
    if 200 <= code && code <= 299 {
        Ok(value)
    } else {
        Err(detail(&value))
    }
}


/// The empty JSON object.
pub open spec fn is_empty_object(v: Json) -> bool {
    v.kind matches Kind::Object(f) && f@.len() == 0 && v.text@ == "{}"@
}

/// The empty JSON object.
pub fn empty_object() -> (r: Json)
    ensures
        is_empty_object(r),
{
    Json { text: owned("{}"), kind: Kind::Object(Vec::new()) }
}

/// The refusal of a reply whose status is not a success.
pub open spec fn refused_of(service: Seq<char>, method: Seq<char>, path: Seq<char>, code: nat, raw: Seq<char>) -> Seq<char> {
    service + " API "@ + method + " "@ + path + " -> "@ + crate::text::decimal(code) + ": "@ + raw
}

/// A reply of the GitHub or Cloudflare API (`service` names it): refused
/// unless its status is a success; an empty body is `{}`; a body that is not
/// JSON is refused; Cloudflare's `"success": false` is refused.
pub open spec fn api_reply_of(service: Seq<char>, method: Seq<char>, path: Seq<char>, code: u16, raw: Seq<char>, parsed: Option<Json>,
    r: Result<Json, String>) -> bool {
    if !ok_status(code) {
        r matches Err(e) && e@ == refused_of(service, method, path, code as nat, raw)
    } else if trim(raw).len() == 0 {
        r matches Ok(v) && is_empty_object(v)
    } else {
        match parsed {
            None => r matches Err(e) && e@ == service + " API returned invalid JSON for "@ + path,
            Some(v) => if service == "Cloudflare"@ && (v.member("success"@) matches Some(m) && m.kind == Kind::Bool(false)) {
                r matches Err(e) && e@ == service + " API "@ + method + " "@ + path + " failed: "@ + v.text@
            } else {
                r == Ok::<Json, String>(v)
            },
        }
    }
}

/// Reads a reply of the GitHub or Cloudflare API: its body is read as
/// JSON, then decided as [`api_reply_of`] says.
pub fn api_reply(service: &str, method: &str, path: &str, code: u16, raw: &str) -> (r: Result<Json, String>)
    ensures
        api_reply_of(service@, method@, path@, code, raw@, json_read(raw@), r),
{
    let parsed = read_json(raw);
    let r = api_reply_with(service, method, path, code, raw, parsed);
    r
}

/// Reads a reply of the GitHub or Cloudflare API, given its body read as
/// JSON.
pub fn api_reply_with(service: &str, method: &str, path: &str, code: u16, raw: &str, parsed: Option<Json>) -> (r: Result<Json, String>)
    ensures
        api_reply_of(service@, method@, path@, code, raw@, parsed, r),
{
    if !(200 <= code && code <= 299) {
        let mut e = owned(service);
        e.append(" API ");
        e.append(method);
        e.append(" ");
        e.append(path);
        e.append(" -> ");
        let d = crate::text::decimal_of(code as u64);
        e.append(d.as_str());
        e.append(": ");
        e.append(raw);
        return Err(e);
    }
    let t = trimmed(raw);
    if t.as_str().unicode_len() == 0 {
        return Ok(empty_object());
    }
    match parsed {
        None => {
            let mut e = owned(service);
            e.append(" API returned invalid JSON for ");
            e.append(path);
            Err(e)
        },
        Some(v) => {
            let failed = crate::text::same(service, "Cloudflare") && match crate::json::member(&v, "success") {
                Some(m) => match &m.kind {
                    Kind::Bool(b) => !*b,
                    _ => false,
                },
                None => false,
            };
            if failed {
                let mut e = owned(service);
                e.append(" API ");
                e.append(method);
                e.append(" ");
                e.append(path);
                e.append(" failed: ");
                e.append(v.text.as_str());
                Err(e)
            } else {
                Ok(v)
            }
        },
    }
}

/// The body of a reply of the Forgejo API of the `@tool forgejo` commands,
/// given the body read as JSON: an empty body is `null`, a body that is not
/// JSON is refused.
pub open spec fn body_of(raw: Seq<char>, parsed: Option<Json>, r: Result<Json, String>) -> bool {
    if trim(raw).len() == 0 {
        r matches Ok(v) && is_null(v)
    } else {
        match parsed {
            Some(v) => r == Ok::<Json, String>(v),
            None => r matches Err(e) && e@ == "Forgejo API returned invalid JSON"@,
        }
    }
}

/// The body of a reply of the Forgejo API of the `@tool forgejo` commands:
/// it is read as JSON, then decided as [`body_of`] says.
pub fn body(raw: &str) -> (r: Result<Json, String>)
    ensures
        body_of(raw@, json_read(raw@), r),
{
    let parsed = read_json(raw);
    let r = body_with(raw, parsed);
    r
}

/// The body of a reply of the Forgejo API, given the body read as JSON.
pub fn body_with(raw: &str, parsed: Option<Json>) -> (r: Result<Json, String>)
    ensures
        body_of(raw@, parsed, r),
{
    let t = trimmed(raw);
    if t.as_str().unicode_len() == 0 {
        return Ok(null());
    }
    match parsed {
        Some(v) => Ok(v),
        None => Err(owned("Forgejo API returned invalid JSON")),
    }
}

/// A token character of an HTTP method (RFC 9110): a letter, a digit, or
/// one of ``!#$%&'*+-.^_`|~``.
pub open spec fn tchar(c: char) -> bool {
    let n = c as u32;
    (65 <= n <= 90) || (97 <= n <= 122) || (48 <= n <= 57) || c == '!' || c == '#' || c == '$' || c == '%' || c == '&'
        || c == '\'' || c == '*' || c == '+' || c == '-' || c == '.' || c == '^' || c == '_' || c == '`' || c == '|'
        || c == '~'
}

/// Whether `reqwest` reads a text as an HTTP method: a non-empty text of
/// token characters.
pub open spec fn http_method(text: Seq<char>) -> bool {
    text.len() > 0 && forall|i: int| 0 <= i < text.len() ==> tchar(#[trigger] text[i])
}

/// Whether a character is a token character.
fn is_tchar(c: char) -> (r: bool)
    ensures
        r == tchar(c),
{
    let n = c as u32;
    (65 <= n && n <= 90) || (97 <= n && n <= 122) || (48 <= n && n <= 57) || c == '!' || c == '#' || c == '$' || c == '%'
        || c == '&' || c == '\'' || c == '*' || c == '+' || c == '-' || c == '.' || c == '^' || c == '_' || c == '`'
        || c == '|' || c == '~'
}

/// Whether `reqwest::Method::from_str` accepts the text: `http`'s
/// `Method::from_bytes` takes a non-empty text whose every byte is in its
/// token table (`METHOD_CHARS`), which is [`http_method`].
fn method_ok(text: &str) -> (r: bool)
    ensures
        r == http_method(text@),
{
    let n = text.unicode_len();
    if n == 0 {
        return false;
    }
    let mut i: usize = 0;
    while i < n
        invariant
            n == text@.len(),
            i <= n,
            forall|j: int| 0 <= j < i ==> tchar(#[trigger] text@[j]),
        decreases n - i,
    {
        if !is_tchar(text.get_char(i)) {
            return false;
        }
        i += 1;
    }
    true
}

/// The HTTP method of a request, refused when `reqwest` does not read it.
pub fn method(text: &str) -> (r: Result<String, String>)
    ensures
        http_method(text@) ==> (r matches Ok(m) && m@ == text@),
        !http_method(text@) ==> (r matches Err(e) && e@ == "invalid HTTP method: "@ + text@),
{
    if method_ok(text) {
        Ok(owned(text))
    } else {
        let mut e = owned("invalid HTTP method: ");
        e.append(text);
        Err(e)
    }
}

} // verus!

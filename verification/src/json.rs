//! A JSON reply as the printing rules read it, and the lines that a reply
//! prints as when `--json` is not given.
use vstd::prelude::*;

use crate::reply::{json_text, string_json};
use crate::table::{before, rank, Rank};
use crate::text::{owned, slice, split_once, split_once_at};

verus! {

/// A JSON value: its shape, and its compact JSON text (as `serde_json`
/// writes it), which is what the printing rules show of values that are not
/// strings.
pub struct Json {
    pub text: String,
    pub kind: Kind,
}

/// The shape of a JSON value.
pub enum Kind {
    Null,
    Bool(bool),
    /// A number, with its value when it is an integer from 0 to `u64::MAX`
    /// (what `serde_json::Value::as_u64` gives).
    Number(Option<u64>),
    Text(String),
    Array(Vec<Json>),
    Object(Vec<(String, Json)>),
}

/// The member named `key` of a list of members, the first one when keys
/// repeat.
pub open spec fn member_in(fields: Seq<(String, Json)>, key: Seq<char>) -> Option<Json>
    decreases fields.len(),
{
    if fields.len() == 0 {
        None
    } else if fields[0].0@ == key {
        Some(fields[0].1)
    } else {
        member_in(fields.drop_first(), key)
    }
}

impl Json {
    /// The member named `key`, when the value is an object that has one.
    pub open spec fn member(self, key: Seq<char>) -> Option<Json> {
        match self.kind {
            Kind::Object(f) => member_in(f@, key),
            _ => None,
        }
    }

    /// The text of a string value.
    pub open spec fn as_text(self) -> Option<Seq<char>> {
        match self.kind {
            Kind::Text(t) => Some(t@),
            _ => None,
        }
    }
}

/// The string value of member `key`.
pub open spec fn text_at(v: Json, key: Seq<char>) -> Option<Seq<char>> {
    match v.member(key) {
        Some(m) => m.as_text(),
        None => None,
    }
}

/// The JSON text of member `key`, or nothing.
pub open spec fn shown_at(v: Json, key: Seq<char>) -> Seq<char> {
    match v.member(key) {
        Some(m) => m.text@,
        None => seq![],
    }
}

/// The first of the members `name`, `full_name`, `rule_name` and
/// `branch_name` that is there.
pub open spec fn name_member(v: Json) -> Option<Json> {
    if v.member("name"@) is Some {
        v.member("name"@)
    } else if v.member("full_name"@) is Some {
        v.member("full_name"@)
    } else if v.member("rule_name"@) is Some {
        v.member("rule_name"@)
    } else {
        v.member("branch_name"@)
    }
}

/// The first line of a text (`str::lines`): up to the first `\n`, without a
/// `\r` just before it; the whole text when there is no `\n`.
pub open spec fn first_line(s: Seq<char>) -> Seq<char> {
    match split_once(s, "\n"@) {
        Some((seg, _)) => if seg.len() > 0 && seg.last() == '\r' {
            seg.drop_last()
        } else {
            seg
        },
        None => s,
    }
}

/// The line that one value prints as: a `login`; else `number`, `state`
/// and `title`; else a name; else a combined `state` (with `statuses`);
/// else `id` (or `number`), the user's login and the first line of `body`,
/// or the value's JSON text when all three are empty.
pub open spec fn line_of(v: Json) -> Seq<char> {
    if text_at(v, "login"@) is Some {
        text_at(v, "login"@)->0
    } else if text_at(v, "title"@) is Some {
        shown_at(v, "number"@) + "\t"@ + (match text_at(v, "state"@) {
            Some(s) => s,
            None => seq![],
        }) + "\t"@ + text_at(v, "title"@)->0
    } else if name_member(v) matches Some(m) && m.as_text() is Some {
        name_member(v)->0.as_text()->0
    } else if text_at(v, "state"@) is Some && v.member("statuses"@) is Some {
        text_at(v, "state"@)->0
    } else {
        let id = if v.member("id"@) is Some {
            shown_at(v, "id"@)
        } else {
            shown_at(v, "number"@)
        };
        let login = match v.member("user"@) {
            Some(u) => match text_at(u, "login"@) {
                Some(l) => l,
                None => seq![],
            },
            None => seq![],
        };
        let body = match text_at(v, "body"@) {
            Some(b) => first_line(b),
            None => seq![],
        };
        if id.len() == 0 && login.len() == 0 && body.len() == 0 {
            v.text@
        } else {
            id + "\t"@ + login + "\t"@ + body
        }
    }
}

/// The member named `key`.
pub fn member<'a>(v: &'a Json, key: &str) -> (r: Option<&'a Json>)
    ensures
        match v.member(key@) {
            Some(m) => r matches Some(x) && *x == m,
            None => r is None,
        },
{
    match &v.kind {
        Kind::Object(fields) => {
            assert(v.member(key@) == member_in(fields@, key@));
            let mut i: usize = 0;
            assert(fields@.skip(0) =~= fields@);
            while i < fields.len()
                invariant
                    i <= fields@.len(),
                    member_in(fields@, key@) == member_in(fields@.skip(i as int), key@),
                    v.member(key@) == member_in(fields@, key@),
                decreases fields@.len() - i,
            {
                assert(fields@.skip(i as int).drop_first() =~= fields@.skip(i + 1));
                assert(fields@.skip(i as int)[0] == fields@[i as int]);
                assert(fields@[i as int].0@ == key@ ==> member_in(fields@.skip(i as int), key@) == Some(fields@[i as int].1));
                if crate::text::same(fields[i].0.as_str(), key) {
                    return Some(&fields[i].1);
                }
                i += 1;
            }
            None
        },
        _ => None,
    }
}

/// The JSON text of one object member: the key as a JSON string, `:`, and
/// the value's text.
pub open spec fn member_text(f: (String, Json)) -> Seq<char> {
    json_text(f.0@) + ":"@ + f.1.text@
}

/// The members' texts, separated by `,`.
pub open spec fn members_text(fields: Seq<(String, Json)>) -> Seq<char>
    decreases fields.len(),
{
    if fields.len() == 0 {
        seq![]
    } else if fields.len() == 1 {
        member_text(fields[0])
    } else {
        members_text(fields.drop_last()) + ","@ + member_text(fields.last())
    }
}

/// The compact JSON text of an object with these members, in their order
/// (as `serde_json` writes a map).
pub open spec fn object_text(fields: Seq<(String, Json)>) -> Seq<char> {
    "{"@ + members_text(fields) + "}"@
}

/// An object with these members, and its JSON text.
pub fn object(fields: Vec<(String, Json)>) -> (r: Json)
    ensures
        r.kind == Kind::Object(fields),
        r.text@ == object_text(fields@),
{
    let mut body = String::new();
    let mut i: usize = 0;
    while i < fields.len()
        invariant
            i <= fields@.len(),
            body@ == members_text(fields@.take(i as int)),
        decreases fields@.len() - i,
    {
        assert(fields@.take(i + 1).drop_last() =~= fields@.take(i as int));
        assert(fields@.take(i + 1).last() == fields@[i as int]);
        if i > 0 {
            body.append(",");
        } else {
            assert(fields@.take(1)[0] == fields@[0]);
        }
        let k = string_json(fields[i].0.as_str());
        body.append(k.as_str());
        body.append(":");
        body.append(fields[i].1.text.as_str());
        i += 1;
    }
    assert(fields@.take(fields@.len() as int) =~= fields@);
    let mut text = owned("{");
    text.append(body.as_str());
    text.append("}");
    Json { text, kind: Kind::Object(fields) }
}

/// The first member named `key` is the one at `i`.
proof fn lemma_member_at(fields: Seq<(String, Json)>, key: Seq<char>, i: int)
    requires
        0 <= i < fields.len(),
        fields[i].0@ == key,
        forall|j: int| 0 <= j < i ==> (#[trigger] fields[j]).0@ != key,
    ensures
        member_in(fields, key) == Some(fields[i].1),
    decreases i,
{
    if i > 0 {
        assert(fields[0].0@ != key);
        let rest = fields.drop_first();
        assert forall|j: int| 0 <= j < i - 1 implies (#[trigger] rest[j]).0@ != key by {
            assert(rest[j] == fields[j + 1]);
        }
        lemma_member_at(rest, key, i - 1);
    }
}

/// No member is named `key`.
proof fn lemma_member_none(fields: Seq<(String, Json)>, key: Seq<char>)
    requires
        forall|j: int| 0 <= j < fields.len() ==> (#[trigger] fields[j]).0@ != key,
    ensures
        member_in(fields, key) is None,
    decreases fields.len(),
{
    if fields.len() > 0 {
        assert(fields[0].0@ != key);
        let rest = fields.drop_first();
        assert forall|j: int| 0 <= j < rest.len() implies (#[trigger] rest[j]).0@ != key by {
            assert(rest[j] == fields[j + 1]);
        }
        lemma_member_none(rest, key);
    }
}

/// Where the first member named `key` is.
fn position(fields: &Vec<(String, Json)>, key: &str) -> (r: Option<usize>)
    ensures
        r matches Some(i) ==> i < fields@.len() && fields@[i as int].0@ == key@ && (forall|j: int|
            0 <= j < i ==> (#[trigger] fields@[j]).0@ != key@) && member_in(fields@, key@) == Some(fields@[i as int].1),
        r is None ==> member_in(fields@, key@) is None,
{
    let mut i: usize = 0;
    while i < fields.len()
        invariant
            i <= fields@.len(),
            forall|j: int| 0 <= j < i ==> (#[trigger] fields@[j]).0@ != key@,
        decreases fields@.len() - i,
    {
        if crate::text::same(fields[i].0.as_str(), key) {
            proof {
                lemma_member_at(fields@, key@, i as int);
            }
            return Some(i);
        }
        i += 1;
    }
    proof {
        lemma_member_none(fields@, key@);
    }
    None
}

/// `r` is `v` with its first member named `key` taken out and its text
/// rebuilt; `v` itself when it is not an object or has no such member.
pub open spec fn taken(v: Json, key: Seq<char>, r: Json) -> bool {
    &&& v.member(key) is None ==> r == v
    &&& match v.kind {
        Kind::Object(f) => member_in(f@, key) is Some ==> (exists|i: int|
            #![trigger f@.remove(i)]
            0 <= i < f@.len() && f@[i].0@ == key && (forall|j: int| 0 <= j < i ==> (#[trigger] f@[j]).0@ != key)
                && (r.kind matches Kind::Object(g) && g@ == f@.remove(i) && r.text@ == object_text(g@))),
        _ => true,
    }
}

/// `r` is `v` with member `key` holding `entry` put in before the first
/// member whose name does not sort before `key`, and its text rebuilt; `v`
/// itself when it is not an object or already has such a member.
pub open spec fn placed(v: Json, key: Seq<char>, entry: Json, r: Json) -> bool {
    &&& (v.member(key) is Some || !(v.kind is Object)) ==> r == v
    &&& match v.kind {
        Kind::Object(f) => member_in(f@, key) is None ==> (exists|i: int|
            #![trigger f@.insert(i, r.kind->Object_0@[i])]
            0 <= i <= f@.len() && (forall|j: int| 0 <= j < i ==> before(#[trigger] f@[j].0@, key)) && (i < f@.len()
                ==> !before(f@[i].0@, key)) && (r.kind matches Kind::Object(g) && g@ == f@.insert(i, g@[i])
                && g@[i].0@ == key && g@[i].1 == entry && r.text@ == object_text(g@))),
        _ => true,
    }
}

/// Takes member `key` out of an object: the object without its first member
/// of that name (its text rebuilt), and that member's text when it is a
/// string. A value that is not an object, or has no such member, is given
/// back as it is.
pub fn take_member(value: Json, key: &str) -> (r: (Json, Option<String>))
    ensures
        taken(value, key@, r.0),
        match text_at(value, key@) {
            Some(t) => r.1 matches Some(x) && x@ == t,
            None => r.1 is None,
        },
{
    let (rest, gone) = take_entry(value, key);
    let found = match gone {
        Some(g) => match g.kind {
            Kind::Text(t) => Some(t),
            _ => None,
        },
        None => None,
    };
    (rest, found)
}

/// Takes member `key` out of an object, as [`take_member`] does, and gives
/// back the member itself.
pub fn take_entry(value: Json, key: &str) -> (r: (Json, Option<Json>))
    ensures
        taken(value, key@, r.0),
        r.1 == value.member(key@),
{
    if member(&value, key).is_none() {
        return (value, None);
    }
    let Json { text, kind } = value;
    match kind {
        Kind::Object(fields) => {
            let mut fields = fields;
            let ghost f = fields@;
            match position(&fields, key) {
                Some(i) => {
                    let (_, gone) = fields.remove(i);
                    let out = object(fields);
                    (out, Some(gone))
                },
                None => (object(fields), None),
            }
        },
        other => (Json { text, kind: other }, None),
    }
}

/// Puts member `key` with value `entry` into an object that has no member
/// of that name, before the first member whose name does not sort before
/// `key` (its place in a sorted map), and rebuilds its text. A value that is not an object, or already has such a
/// member, is given back as it is.
pub fn put_absent(value: Json, key: String, entry: Json) -> (r: Json)
    ensures
        placed(value, key@, entry, r),
{
    if member(&value, key.as_str()).is_some() {
        return value;
    }
    let Json { text, kind } = value;
    match kind {
        Kind::Object(fields) => {
            let mut fields = fields;
            let mut i: usize = 0;
            while i < fields.len()
                invariant
                    i <= fields@.len(),
                    forall|j: int| 0 <= j < i ==> before(#[trigger] fields@[j].0@, key@),
                ensures
                    i <= fields@.len(),
                    forall|j: int| 0 <= j < i ==> before(#[trigger] fields@[j].0@, key@),
                    i < fields@.len() ==> !before(fields@[i as int].0@, key@),
                decreases fields@.len() - i,
            {
                if rank(fields[i].0.as_str(), key.as_str()) != Rank::Below {
                    break;
                }
                i += 1;
            }
            let ghost f = fields@;
            let ghost at = i as int;
            fields.insert(i, (key, entry));
            let ghost g = fields@;
            let out = object(fields);
            assert(g =~= f.insert(at, g[at]));
            assert(out.kind->Object_0@ == g);
            out
        },
        other => Json { text, kind: other },
    }
}

/// The items' texts, separated by `,`.
pub open spec fn items_text(rows: Seq<Json>) -> Seq<char>
    decreases rows.len(),
{
    if rows.len() == 0 {
        seq![]
    } else if rows.len() == 1 {
        rows[0].text@
    } else {
        items_text(rows.drop_last()) + ","@ + rows.last().text@
    }
}

/// The compact JSON text of an array of these items.
pub open spec fn array_text(rows: Seq<Json>) -> Seq<char> {
    "["@ + items_text(rows) + "]"@
}

/// An array of these items, and its JSON text.
pub fn array(rows: Vec<Json>) -> (r: Json)
    ensures
        r.kind == Kind::Array(rows),
        r.text@ == array_text(rows@),
{
    let mut body = String::new();
    let mut i: usize = 0;
    while i < rows.len()
        invariant
            i <= rows@.len(),
            body@ == items_text(rows@.take(i as int)),
        decreases rows@.len() - i,
    {
        assert(rows@.take(i + 1).drop_last() =~= rows@.take(i as int));
        assert(rows@.take(i + 1).last() == rows@[i as int]);
        if i > 0 {
            body.append(",");
        } else {
            assert(rows@.take(1)[0] == rows@[0]);
        }
        body.append(rows[i].text.as_str());
        i += 1;
    }
    assert(rows@.take(rows@.len() as int) =~= rows@);
    let mut text = owned("[");
    text.append(body.as_str());
    text.append("]");
    Json { text, kind: Kind::Array(rows) }
}

/// At most `limit` rows of an array, its text rebuilt when rows were cut; a
/// value that is not an array, or has no more rows than the limit, is
/// given back as it is.
pub fn clip(value: Json, limit: Option<usize>) -> (r: Json)
    ensures
        match value.kind {
            Kind::Array(rows) => match limit {
                Some(l) => if rows@.len() > l {
                    r.kind matches Kind::Array(kept) && kept@ == rows@.take(l as int) && r.text@ == array_text(kept@)
                } else {
                    r == value
                },
                None => r == value,
            },
            _ => r == value,
        },
{
    let cut = match (&value.kind, limit) {
        (Kind::Array(rows), Some(l)) => rows.len() > l,
        _ => false,
    };
    if !cut {
        return value;
    }
    let Json { text, kind } = value;
    match kind {
        Kind::Array(rows) => {
            let mut rows = rows;
            let l = limit.unwrap();
            rows.truncate(l);
            array(rows)
        },
        other => Json { text, kind: other },
    }
}

/// Member `key` of an object cut to at most `limit` rows when it is an
/// array (see [`clip`]), the object's text rebuilt when it changed; any
/// other value is given back as it is.
pub fn clip_member(value: Json, key: &str, limit: usize) -> (r: Json)
    ensures
        match value.member(key@) {
            Some(m) => match m.kind {
                Kind::Array(rows) => if rows@.len() > limit {
                    exists|cut: Json, rest: Json| #![trigger placed(rest, key@, cut, r)]
                        cut.kind matches Kind::Array(kept) && kept@ == rows@.take(limit as int) && cut.text@
                            == array_text(kept@) && taken(value, key@, rest) && placed(rest, key@, cut, r)
                } else {
                    r == value
                },
                _ => r == value,
            },
            None => r == value,
        },
{
    let due = match member(&value, key) {
        Some(m) => match &m.kind {
            Kind::Array(rows) => rows.len() > limit,
            _ => false,
        },
        None => false,
    };
    if !due {
        return value;
    }
    let (rest, gone) = take_entry(value, key);
    match gone {
        Some(m) => {
            let cut = clip(m, Some(limit));
            put_absent(rest, owned(key), cut)
        },
        None => rest,
    }
}

/// An object of these string members, in this order, and its text.
pub open spec fn strings_body(body: Json, pairs: Seq<(Seq<char>, Seq<char>)>) -> bool {
    body.kind matches Kind::Object(f) && f@.len() == pairs.len() && body.text@ == object_text(f@)
        && forall|i: int| 0 <= i < pairs.len() ==> (#[trigger] f@[i]).0@ == pairs[i].0 && f@[i].1.as_text() == Some(pairs[i].1)
            && f@[i].1.text@ == crate::reply::json_text(pairs[i].1)
}

/// A JSON boolean, and its text.
pub fn bool_value(b: bool) -> (r: Json)
    ensures
        r.kind == Kind::Bool(b),
        r.text@ == (if b { "true"@ } else { "false"@ }),
{
    Json { text: owned(if b { "true" } else { "false" }), kind: Kind::Bool(b) }
}

/// A JSON string, and its text.
pub fn text_value(t: String) -> (r: Json)
    ensures
        r.kind == Kind::Text(t),
        r.text@ == json_text(t@),
{
    let text = string_json(t.as_str());
    Json { text, kind: Kind::Text(t) }
}

/// A JSON number from 0 to `u64::MAX`, and its text.
pub fn count_value(n: u64) -> (r: Json)
    ensures
        r.kind == Kind::Number(Some(n)),
        r.text@ == crate::text::decimal(n as nat),
{
    Json { text: crate::text::decimal_of(n), kind: Kind::Number(Some(n)) }
}

/// Member `key` of a value when it has one, else the value itself.
pub fn unwrap_member(value: Json, key: &str) -> (r: Json)
    ensures
        r == match value.member(key@) {
            Some(m) => m,
            None => value,
        },
{
    let (rest, gone) = take_entry(value, key);
    match gone {
        Some(m) => m,
        None => rest,
    }
}

/// The string value of member `key`.
pub fn text_of<'a>(v: &'a Json, key: &str) -> (r: Option<&'a str>)
    ensures
        match text_at(*v, key@) {
            Some(t) => r matches Some(x) && x@ == t,
            None => r is None,
        },
{
    match member(v, key) {
        Some(m) => match &m.kind {
            Kind::Text(t) => Some(t.as_str()),
            _ => None,
        },
        None => None,
    }
}

/// The first line of a text.
pub fn first_line_of(s: &str) -> (r: String)
    ensures
        r@ == first_line(s@),
{
    match split_once_at(s, "\n") {
        Some((seg, _)) => {
            let n = seg.as_str().unicode_len();
            if n > 0 && seg.as_str().get_char(n - 1) == '\r' {
                slice(seg.as_str(), 0, n - 1)
            } else {
                seg
            }
        },
        None => owned(s),
    }
}


/// The JSON text of member `key`, or nothing.
fn shown(v: &Json, key: &str) -> (r: String)
    ensures
        r@ == shown_at(*v, key@),
{
    match member(v, key) {
        Some(m) => m.text.clone(),
        None => String::new(),
    }
}

/// The line that one value prints as.
pub fn line(v: &Json) -> (r: String)
    ensures
        r@ == line_of(*v),
{
    if let Some(login) = text_of(v, "login") {
        return owned(login);
    }
    if let Some(title) = text_of(v, "title") {
        let mut out = shown(v, "number");
        out.append("\t");
        if let Some(state) = text_of(v, "state") {
            out.append(state);
        }
        out.append("\t");
        out.append(title);
        return out;
    }
    let named = match member(v, "name") {
        Some(m) => Some(m),
        None => match member(v, "full_name") {
            Some(m) => Some(m),
            None => match member(v, "rule_name") {
                Some(m) => Some(m),
                None => member(v, "branch_name"),
            },
        },
    };
    assert(match name_member(*v) {
        Some(m) => named matches Some(x) && *x == m,
        None => named is None,
    });
    if let Some(m) = named {
        if let Kind::Text(t) = &m.kind {
            return t.clone();
        }
    }
    if let Some(state) = text_of(v, "state") {
        if member(v, "statuses").is_some() {
            return owned(state);
        }
    }
    let id = if member(v, "id").is_some() {
        shown(v, "id")
    } else {
        shown(v, "number")
    };
    let login = match member(v, "user") {
        Some(u) => match text_of(u, "login") {
            Some(l) => owned(l),
            None => String::new(),
        },
        None => String::new(),
    };
    let body = match text_of(v, "body") {
        Some(b) => first_line_of(b),
        None => String::new(),
    };
    if id.as_str().unicode_len() == 0 && login.as_str().unicode_len() == 0 && body.as_str().unicode_len() == 0 {
        return v.text.clone();
    }
    let mut out = id;
    out.append("\t");
    out.append(login.as_str());
    out.append("\t");
    out.append(body.as_str());
    out
}

/// What a reply prints as without `--json`: `ok` for null, a string as it
/// is, one line per row of an array, else the value's line.
pub open spec fn show_of(v: Json) -> Seq<char> {
    match v.kind {
        Kind::Null => "ok\n"@,
        Kind::Text(t) => t@,
        Kind::Array(rows) => rows_text(rows@),
        _ => line_of(v) + "\n"@,
    }
}

/// The lines of rows.
pub open spec fn rows_text(rows: Seq<Json>) -> Seq<char>
    decreases rows.len(),
{
    if rows.len() == 0 {
        seq![]
    } else {
        rows_text(rows.drop_last()) + line_of(rows.last()) + "\n"@
    }
}

/// What a reply prints as without `--json`.
pub fn show(v: &Json) -> (r: String)
    ensures
        r@ == show_of(*v),
{
    match &v.kind {
        Kind::Null => owned("ok\n"),
        Kind::Text(t) => t.clone(),
        Kind::Array(rows) => {
            let mut out = String::new();
            let mut i: usize = 0;
            while i < rows.len()
                invariant
                    i <= rows@.len(),
                    out@ == rows_text(rows@.take(i as int)),
                decreases rows@.len() - i,
            {
                let l = line(&rows[i]);
                out.append(l.as_str());
                out.append("\n");
                assert(rows@.take(i + 1).drop_last() =~= rows@.take(i as int));
                i += 1;
            }
            assert(rows@.take(rows@.len() as int) =~= rows@);
            out
        },
        _ => {
            let mut out = line(v);
            out.append("\n");
            out
        },
    }
}

/// How many rows of a reply are kept under `--limit`: all of them without a
/// limit, else at most the limit; `None` when the reply is not an array.
pub fn kept(rows: Option<usize>, limit: Option<usize>) -> (r: Option<usize>)
    ensures
        r == match rows {
            None => None,
            Some(n) => Some(match limit {
                Some(l) => if n < l { n } else { l },
                None => n,
            }),
        },
{
    match rows {
        None => None,
        Some(n) => Some(match limit {
            Some(l) => if n < l { n } else { l },
            None => n,
        }),
    }
}


/// The line that one value prints as for the native `@forgejo` call: a
/// `login`; else `number`, `state` and `title`; else `id`, the user's login
/// and the first line of `body`.
pub open spec fn plain_line_of(v: Json) -> Seq<char> {
    if text_at(v, "login"@) is Some {
        text_at(v, "login"@)->0
    } else if text_at(v, "title"@) is Some {
        shown_at(v, "number"@) + "\t"@ + (match text_at(v, "state"@) {
            Some(s) => s,
            None => seq![],
        }) + "\t"@ + text_at(v, "title"@)->0
    } else {
        shown_at(v, "id"@) + "\t"@ + (match v.member("user"@) {
            Some(u) => match text_at(u, "login"@) {
                Some(l) => l,
                None => seq![],
            },
            None => seq![],
        }) + "\t"@ + (match text_at(v, "body"@) {
            Some(b) => first_line(b),
            None => seq![],
        })
    }
}

/// The line that one value prints as for the native `@forgejo` call.
pub fn plain_line(v: &Json) -> (r: String)
    ensures
        r@ == plain_line_of(*v),
{
    if let Some(login) = text_of(v, "login") {
        return owned(login);
    }
    if let Some(title) = text_of(v, "title") {
        let mut out = shown(v, "number");
        out.append("\t");
        if let Some(state) = text_of(v, "state") {
            out.append(state);
        }
        out.append("\t");
        out.append(title);
        return out;
    }
    let mut out = shown(v, "id");
    out.append("\t");
    if let Some(u) = member(v, "user") {
        if let Some(l) = text_of(u, "login") {
            out.append(l);
        }
    }
    out.append("\t");
    if let Some(b) = text_of(v, "body") {
        let f = first_line_of(b);
        out.append(f.as_str());
    }
    out
}

/// The plain lines of rows.
pub open spec fn plain_rows(rows: Seq<Json>) -> Seq<char>
    decreases rows.len(),
{
    if rows.len() == 0 {
        seq![]
    } else {
        plain_rows(rows.drop_last()) + plain_line_of(rows.last()) + "\n"@
    }
}

/// What a reply of the native `@forgejo` call prints as without `--json`:
/// one line per row of an array, else the value's line.
pub open spec fn print_of(v: Json) -> Seq<char> {
    match v.kind {
        Kind::Array(rows) => plain_rows(rows@),
        _ => plain_line_of(v) + "\n"@,
    }
}

/// What a reply of the native `@forgejo` call prints as without `--json`.
pub fn print(v: &Json) -> (r: String)
    ensures
        r@ == print_of(*v),
{
    match &v.kind {
        Kind::Array(rows) => {
            let mut out = String::new();
            let mut i: usize = 0;
            while i < rows.len()
                invariant
                    i <= rows@.len(),
                    out@ == plain_rows(rows@.take(i as int)),
                decreases rows@.len() - i,
            {
                let l = plain_line(&rows[i]);
                out.append(l.as_str());
                out.append("\n");
                assert(rows@.take(i + 1).drop_last() =~= rows@.take(i as int));
                i += 1;
            }
            assert(rows@.take(rows@.len() as int) =~= rows@);
            out
        },
        _ => {
            let mut out = plain_line(v);
            out.append("\n");
            out
        },
    }
}

} // verus!

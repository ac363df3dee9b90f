//! The HTTP requests of the `@cloudflare` verbs, and the decisions taken on
//! their replies.
use vstd::prelude::*;

use super::deed::{Action, ActionModel, Control, ControlModel, Owner, Token};
use crate::json::{put_absent, placed, take_member, taken, text_at, Json, Kind};
use crate::parse::Line;
use crate::tool::Reply;
use crate::text::{decimal, decimal_of, owned, percent_encode, quoted, join};

verus! {

/// The JSON body of a request.
pub enum Payload {
    /// No body.
    Nothing,
    /// `{}`.
    Empty,
    /// `{"name": NAME}`.
    Name(String),
    /// The caller's body file.
    Given,
}

/// The JSON body of a request, in text.
pub enum PayloadModel {
    Nothing,
    Empty,
    Name(Seq<char>),
    Given,
}

impl Payload {
    /// The body in text.
    pub open spec fn model(&self) -> PayloadModel {
        match self {
            Payload::Nothing => PayloadModel::Nothing,
            Payload::Empty => PayloadModel::Empty,
            Payload::Name(n) => PayloadModel::Name(n@),
            Payload::Given => PayloadModel::Given,
        }
    }
}

/// One request of the Cloudflare API, and the kind of its reply.
pub struct Call {
    pub method: String,
    pub route: String,
    pub kind: String,
    pub payload: Payload,
}

/// One request, in text.
pub struct CallModel {
    pub method: Seq<char>,
    pub route: Seq<char>,
    pub kind: Seq<char>,
    pub payload: PayloadModel,
}

impl Call {
    /// The request in text.
    pub open spec fn model(&self) -> CallModel {
        CallModel { method: self.method@, route: self.route@, kind: self.kind@, payload: self.payload.model() }
    }
}

/// A request model from its parts.
pub open spec fn call_of(method: Seq<char>, route: Seq<char>, kind: Seq<char>, payload: PayloadModel) -> CallModel {
    CallModel { method, route, kind, payload }
}

/// The request of a Workers or R2 verb under the account's route.
pub open spec fn control_call(account: Seq<char>, c: ControlModel) -> CallModel {
    match c {
        ControlModel::Worker(n) => call_of("GET"@, account + "/workers/services/"@ + quoted(n), "worker"@, PayloadModel::Nothing),
        ControlModel::Domains => call_of("GET"@, account + "/workers/domains"@, "domains"@, PayloadModel::Nothing),
        ControlModel::Bucket(n) => call_of("GET"@, account + "/r2/buckets/"@ + quoted(n), "bucket"@, PayloadModel::Nothing),
        ControlModel::Create(n) => call_of("POST"@, account + "/r2/buckets"@, "bucket"@, PayloadModel::Name(n)),
        ControlModel::Custom(n) => call_of("GET"@, account + "/r2/buckets/"@ + quoted(n) + "/domains/custom"@, "domains"@, PayloadModel::Nothing),
        ControlModel::Attach(n) => call_of("POST"@, account + "/r2/buckets/"@ + quoted(n) + "/domains/custom"@, "domain"@, PayloadModel::Given),
        ControlModel::Normalize { bucket, domain } => call_of("PUT"@, account + "/r2/buckets/"@ + quoted(bucket)
            + "/domains/custom/"@ + quoted(domain), "domain"@, PayloadModel::Given),
        ControlModel::Detach { bucket, domain } => call_of("DELETE"@, account + "/r2/buckets/"@ + quoted(bucket)
            + "/domains/custom/"@ + quoted(domain), "domain"@, PayloadModel::Nothing),
        ControlModel::Drop(n) => call_of("DELETE"@, account + "/r2/buckets/"@ + quoted(n), "bucket"@, PayloadModel::Nothing),
    }
}

/// `head`, then the percent-encoded `id`.
fn after(head: &str, id: &str) -> (r: String)
    ensures
        r@ == head@ + quoted(id@),
{
    let mut out = owned(head);
    let q = percent_encode(id);
    out.append(q.as_str());
    out
}

/// `head`, then the percent-encoded `id`, then `tail`.
fn around(head: &str, id: &str, tail: &str) -> (r: String)
    ensures
        r@ == head@ + quoted(id@) + tail@,
{
    let mut out = owned(head);
    let q = percent_encode(id);
    out.append(q.as_str());
    out.append(tail);
    out
}

/// Builds a request.
fn make(method: &str, route: String, kind: &str, payload: Payload) -> (r: Call)
    ensures
        r.model() == call_of(method@, route@, kind@, payload.model()),
{
    Call { method: owned(method), route, kind: owned(kind), payload }
}

/// The request of a Workers or R2 verb; `account` is the account's route.
pub fn control(account: &str, deed: &Control) -> (r: Call)
    ensures
        r.model() == control_call(account@, deed.model()),
{
    let mut base = owned(account);
    match deed {
        Control::Worker(name) => {
            base.append("/workers/services/");
            make("GET", after(base.as_str(), name.as_str()), "worker", Payload::Nothing)
        },
        Control::Domains => {
            base.append("/workers/domains");
            make("GET", base, "domains", Payload::Nothing)
        },
        Control::Bucket(name) => {
            base.append("/r2/buckets/");
            make("GET", after(base.as_str(), name.as_str()), "bucket", Payload::Nothing)
        },
        Control::Create(name) => {
            base.append("/r2/buckets");
            make("POST", base, "bucket", Payload::Name(name.clone()))
        },
        Control::Custom(name) => {
            base.append("/r2/buckets/");
            make("GET", around(base.as_str(), name.as_str(), "/domains/custom"), "domains", Payload::Nothing)
        },
        Control::Attach(name) => {
            base.append("/r2/buckets/");
            make("POST", around(base.as_str(), name.as_str(), "/domains/custom"), "domain", Payload::Given)
        },
        Control::Normalize { bucket, domain } => {
            base.append("/r2/buckets/");
            let head = around(base.as_str(), bucket.as_str(), "/domains/custom/");
            make("PUT", after(head.as_str(), domain.as_str()), "domain", Payload::Given)
        },
        Control::Detach { bucket, domain } => {
            base.append("/r2/buckets/");
            let head = around(base.as_str(), bucket.as_str(), "/domains/custom/");
            make("DELETE", after(head.as_str(), domain.as_str()), "domain", Payload::Nothing)
        },
        Control::Drop(name) => {
            base.append("/r2/buckets/");
            make("DELETE", after(base.as_str(), name.as_str()), "bucket", Payload::Nothing)
        },
    }
}

/// The route of the API tokens of an owner; `account` is the account's route.
pub open spec fn scope_of(owner: Owner, account: Seq<char>) -> Seq<char> {
    match owner {
        Owner::Account => account + "/tokens"@,
        Owner::User => "/user/tokens"@,
    }
}

/// The route of the API tokens of an owner.
pub fn scope(owner: Owner, account: &str) -> (r: String)
    ensures
        r@ == scope_of(owner, account@),
{
    match owner {
        Owner::Account => {
            let mut s = owned(account);
            s.append("/tokens");
            s
        },
        Owner::User => owned("/user/tokens"),
    }
}

/// What a token verb does over HTTP.
pub enum Step {
    /// One request.
    Send(Call),
    /// One request; the reply's result gets this `id` when it has none.
    Roll(Call, String),
    /// A paged listing of the route: see [`listing`].
    List(String),
}

/// What a token verb does, in text.
pub enum StepModel {
    Send(CallModel),
    Roll(CallModel, Seq<char>),
    List(Seq<char>),
}

impl Step {
    /// The step in text.
    pub open spec fn model(&self) -> StepModel {
        match self {
            Step::Send(c) => StepModel::Send(c.model()),
            Step::Roll(c, i) => StepModel::Roll(c.model(), i@),
            Step::List(s) => StepModel::List(s@),
        }
    }
}

/// The flag of a line, in text.
pub open spec fn flag_at(line: crate::parse::LineModel, name: Seq<char>) -> Option<Seq<char>> {
    if line.flags.contains_key(name) {
        Some(line.flags[name])
    } else {
        None
    }
}

/// `&name=value`-style query parts of the flags that are given.
pub open spec fn query_parts(line: crate::parse::LineModel, names: Seq<Seq<char>>) -> Seq<Seq<char>>
    decreases names.len(),
{
    if names.len() == 0 {
        seq![]
    } else {
        query_parts(line, names.drop_last()) + match flag_at(line, names.last()) {
            Some(v) => seq![names.last() + "="@ + quoted(v)],
            None => seq![],
        }
    }
}

/// The permission groups route with its `name` and `scope` filters.
pub open spec fn filters_of(line: crate::parse::LineModel, stem: Seq<char>) -> Seq<char> {
    let parts = query_parts(line, seq!["name"@, "scope"@]);
    if parts.len() == 0 {
        stem
    } else {
        stem + "?"@ + join(parts, "&"@)
    }
}

/// Adds `name=value` for a flag that is given.
fn part(parts: &mut Vec<String>, line: &Line, name: &str)
    ensures
        crate::text::views(final(parts)@) == crate::text::views(old(parts)@) + match flag_at(line.model(), name@) {
            Some(v) => seq![name@ + "="@ + quoted(v)],
            None => seq![],
        },
{
    if let Some(v) = line.flag(name) {
        let mut p = owned(name);
        p.append("=");
        let q = percent_encode(v);
        p.append(q.as_str());
        let ghost before = crate::text::views(parts@);
        parts.push(p);
        assert(crate::text::views(parts@) =~= before.push(name@ + "="@ + quoted(v@)));
    } else {
        assert(crate::text::views(parts@) =~= crate::text::views(old(parts)@) + seq![]);
    }
}

/// The permission groups route with its `name` and `scope` filters.
pub fn filters(line: &Line, stem: &str) -> (r: String)
    ensures
        r@ == filters_of(line.model(), stem@),
{
    let mut parts: Vec<String> = Vec::new();
    part(&mut parts, line, "name");
    part(&mut parts, line, "scope");
    proof {
        let names = seq!["name"@, "scope"@];
        let one = seq!["name"@];
        assert(names.drop_last() =~= one);
        assert(one.drop_last() =~= Seq::<Seq<char>>::empty());
        assert(query_parts(line.model(), Seq::<Seq<char>>::empty()) == Seq::<Seq<char>>::empty());
        assert(query_parts(line.model(), one) =~= query_parts(line.model(), Seq::<Seq<char>>::empty()) + match flag_at(line.model(), "name"@) {
            Some(v) => seq!["name"@ + "="@ + quoted(v)],
            None => seq![],
        });
        assert(query_parts(line.model(), names) =~= query_parts(line.model(), one) + match flag_at(line.model(), "scope"@) {
            Some(v) => seq!["scope"@ + "="@ + quoted(v)],
            None => seq![],
        });
        assert(crate::text::views(parts@) =~= query_parts(line.model(), names));
    }
    if parts.len() == 0 {
        owned(stem)
    } else {
        let mut out = owned(stem);
        out.append("?");
        let joined = crate::text::join_with(parts.as_slice(), "&");
        out.append(joined.as_str());
        out
    }
}

/// One page of a token listing: 50 per page, with the `direction` and
/// `include_expired` flags passed on.
pub open spec fn listing_of(line: crate::parse::LineModel, stem: Seq<char>, page: nat) -> Seq<char> {
    stem + "?page="@ + decimal(page) + "&per_page=50"@ + (match flag_at(line, "direction"@) {
        Some(v) => "&"@ + "direction"@ + "="@ + quoted(v),
        None => seq![],
    }) + (match flag_at(line, "include-expired"@) {
        Some(v) => "&"@ + "include_expired"@ + "="@ + quoted(v),
        None => seq![],
    })
}

/// One page of a token listing.
pub fn listing(line: &Line, stem: &str, page: u64) -> (r: String)
    ensures
        r@ == listing_of(line.model(), stem@, page as nat),
{
    let mut route = owned(stem);
    route.append("?page=");
    let d = decimal_of(page);
    route.append(d.as_str());
    route.append("&per_page=50");
    if let Some(v) = line.flag("direction") {
        route.append("&");
        route.append("direction");
        route.append("=");
        let q = percent_encode(v);
        route.append(q.as_str());
    }
    if let Some(v) = line.flag("include-expired") {
        route.append("&");
        route.append("include_expired");
        route.append("=");
        let q = percent_encode(v);
        route.append(q.as_str());
    }
    route
}

/// Whether a token listing stops after a page: the limit is reached, else
/// the reply's `total_pages` is reached, else (without it) the page was not
/// full.
pub open spec fn done_of(limit: Option<nat>, total_pages: Option<nat>, page: nat, count: nat, total: nat) -> bool {
    if limit matches Some(l) && total >= l {
        true
    } else {
        match total_pages {
            Some(p) => page >= p,
            None => count < 50,
        }
    }
}

/// Whether a token listing stops after a page.
pub fn done(line: &Line, total_pages: Option<u64>, page: u64, count: usize, total: usize) -> (r: bool)
    ensures
        r == done_of(line.model().limit, match total_pages {
            Some(p) => Some(p as nat),
            None => None,
        }, page as nat, count as nat, total as nat),
{
    if let Some(limit) = line.limit {
        if total >= limit {
            return true;
        }
    }
    match total_pages {
        Some(p) => page >= p,
        None => count < 50,
    }
}

/// The page count that a listing reply reports: the `total_pages` of its
/// `result_info`, when it is a number from 0 to `u64::MAX`.
pub open spec fn total_pages_of(info: Option<Json>) -> Option<u64> {
    match info {
        Some(i) => match i.member("total_pages"@) {
            Some(m) => match m.kind {
                Kind::Number(n) => n,
                _ => None,
            },
            None => None,
        },
        None => None,
    }
}

/// Adds one page of a token listing to the rows gathered so far: a result
/// that is not an array is refused; otherwise its rows follow the others,
/// and the answer is whether the listing stops (see [`done_of`]).
pub fn gather(line: &Line, rows: &mut Vec<Json>, result: Json, info: Option<&Json>, page: u64) -> (r: Result<bool, String>)
    ensures
        match result.kind {
            Kind::Array(p) => final(rows)@ == old(rows)@ + p@ && r == Ok::<bool, String>(done_of(
                line.model().limit,
                match total_pages_of(match info { Some(i) => Some(*i), None => None }) {
                    Some(n) => Some(n as nat),
                    None => None,
                },
                page as nat,
                p@.len(),
                old(rows)@.len() + p@.len(),
            )),
            _ => final(rows)@ == old(rows)@ && (r matches Err(e) && e@ == "cloudflare token list did not return an array"@),
        },
{
    let pages = match info {
        Some(i) => match crate::json::member(i, "total_pages") {
            Some(m) => match &m.kind {
                Kind::Number(n) => *n,
                _ => None,
            },
            None => None,
        },
        None => None,
    };
    match result.kind {
        Kind::Array(found) => {
            let mut found = found;
            let count = found.len();
            rows.append(&mut found);
            Ok(done(line, pages, page, count, rows.len()))
        },
        _ => Err(owned("cloudflare token list did not return an array")),
    }
}

/// The secret that a token reply carries in its `value` member: none when
/// the member is absent (or not a string), refused when empty.
pub fn secret_of(value: Option<String>) -> (r: Result<Option<String>, String>)
    ensures
        match value {
            None => r matches Ok(None),
            Some(v) => if v@.len() == 0 {
                r matches Err(e) && e@ == "cloudflare returned an empty token secret"@
            } else {
                r matches Ok(Some(s)) && s@ == v@
            },
        },
{
    match value {
        None => Ok(None),
        Some(v) => {
            if v.as_str().unicode_len() == 0 {
                Err(owned("cloudflare returned an empty token secret"))
            } else {
                Ok(Some(v))
            }
        },
    }
}

/// What a token verb does over HTTP; `stem` is the owner's token route.
pub open spec fn token_step(stem: Seq<char>, line: crate::parse::LineModel, k: ActionModel, label: Seq<char>) -> StepModel {
    match k {
        ActionModel::List => StepModel::List(stem),
        ActionModel::Show(id) => StepModel::Send(call_of("GET"@, stem + "/"@ + quoted(id), label, PayloadModel::Nothing)),
        ActionModel::Create => StepModel::Send(call_of("POST"@, stem, label, PayloadModel::Given)),
        ActionModel::Edit(id) => StepModel::Send(call_of("PUT"@, stem + "/"@ + quoted(id), label, PayloadModel::Given)),
        ActionModel::Roll(id) => StepModel::Roll(call_of("PUT"@, stem + "/"@ + quoted(id) + "/value"@, label, PayloadModel::Empty), id),
        ActionModel::Drop(id) => StepModel::Send(call_of("DELETE"@, stem + "/"@ + quoted(id), label, PayloadModel::Empty)),
        ActionModel::Verify => StepModel::Send(call_of("GET"@, stem + "/verify"@, label, PayloadModel::Nothing)),
        ActionModel::Permissions => StepModel::Send(call_of("GET"@, filters_of(line, stem + "/permission_groups"@), label,
            PayloadModel::Nothing)),
    }
}

/// What a token verb does over HTTP; `account` is the account's route (only
/// read for account tokens).
pub fn token_plan(line: &Line, account: &str, token: &Token) -> (r: Step)
    ensures
        r.model() == token_step(scope_of(token.owner, account@), line.model(), token.kind.model(), match token.kind.model() {
            ActionModel::List => "tokens"@,
            ActionModel::Permissions => "permissions"@,
            ActionModel::Verify => "verification"@,
            _ => "token"@,
        }),
{
    let stem = scope(token.owner, account);
    let label = token.label();
    let mut slash = owned(stem.as_str());
    slash.append("/");
    match &token.kind {
        Action::List => Step::List(stem),
        Action::Show(id) => Step::Send(make("GET", after(slash.as_str(), id.as_str()), label, Payload::Nothing)),
        Action::Create => Step::Send(make("POST", stem, label, Payload::Given)),
        Action::Edit(id) => Step::Send(make("PUT", after(slash.as_str(), id.as_str()), label, Payload::Given)),
        Action::Roll(id) => Step::Roll(make("PUT", around(slash.as_str(), id.as_str(), "/value"), label, Payload::Empty), id.clone()),
        Action::Drop(id) => Step::Send(make("DELETE", after(slash.as_str(), id.as_str()), label, Payload::Empty)),
        Action::Verify => {
            let mut u = stem;
            u.append("/verify");
            Step::Send(make("GET", u, label, Payload::Nothing))
        },
        Action::Permissions => {
            let mut u = stem;
            u.append("/permission_groups");
            let route = filters(line, u.as_str());
            Step::Send(make("GET", route, label, Payload::Nothing))
        },
    }
}

/// The account's route: `/accounts/` and the percent-encoded account ID,
/// taken from `--account`, else from `CLOUDFLARE_ACCOUNT_ID`.
pub open spec fn account_of(flag: Option<Seq<char>>, var: Option<Seq<char>>) -> Result<Seq<char>, Seq<char>> {
    match flag {
        Some(id) => Ok("/accounts/"@ + quoted(id)),
        None => match var {
            Some(id) => Ok("/accounts/"@ + quoted(id)),
            None => Err("@cloudflare account calls require --account or CLOUDFLARE_ACCOUNT_ID"@),
        },
    }
}

/// The account's route.
pub fn account(flag: Option<&str>, var: Option<&str>) -> (r: Result<String, String>)
    ensures
        match account_of(match flag { Some(f) => Some(f@), None => None }, match var { Some(v) => Some(v@), None => None }) {
            Ok(a) => r matches Ok(x) && x@ == a,
            Err(e) => r matches Err(x) && x@ == e,
        },
{
    let id = match flag {
        Some(f) => f,
        None => match var {
            Some(v) => v,
            None => {
                return Err(owned("@cloudflare account calls require --account or CLOUDFLARE_ACCOUNT_ID"));
            },
        },
    };
    let mut out = owned("/accounts/");
    let q = percent_encode(id);
    out.append(q.as_str());
    Ok(out)
}

/// The API base: `--url`, else `CLOUDFLARE_API_URL`, else the public API.
pub fn base(flag: Option<&str>, var: Option<&str>) -> (r: String)
    ensures
        r@ == match flag {
            Some(f) => f@,
            None => match var {
                Some(v) => v@,
                None => "https://api.cloudflare.com/client/v4"@,
            },
        },
{
    match flag {
        Some(f) => owned(f),
        None => match var {
            Some(v) => owned(v),
            None => owned("https://api.cloudflare.com/client/v4"),
        },
    }
}

/// The answer of a sent request: the `result` of the reply, as the kind the
/// request names, with no secret.
pub fn answer(call: &Call, result: Json) -> (r: Reply)
    ensures
        r.kind@ == call.kind@,
        r.value == result,
        r.held() is None,
{
    Reply::plain(call.kind.as_str(), result)
}

/// The answer of a token request: the `value` member is taken out of the
/// result; a string there is the token secret, which the reply carries
/// apart from its value (an empty one is refused).
pub fn token_reply(kind: &str, result: Json) -> (r: Result<Reply, String>)
    ensures
        match text_at(result, "value"@) {
            Some(t) => if t.len() == 0 {
                r matches Err(e) && e@ == "cloudflare returned an empty token secret"@
            } else {
                r matches Ok(x) && x.kind@ == kind@ && taken(result, "value"@, x.value) && x.held() == Some(t)
            },
            None => r matches Ok(x) && x.kind@ == kind@ && taken(result, "value"@, x.value) && x.held() is None,
        },
{
    let (rest, secret) = take_member(result, "value");
    match secret_of(secret)? {
        Some(s) => Ok(Reply::guarded(kind, rest, s)),
        None => Ok(Reply::plain(kind, rest)),
    }
}

/// The result of a roll with its `id` member set to the rolled token's ID
/// when the reply left it out.
pub fn rolled(result: Json, id: &str) -> (r: Json)
    ensures
        exists|entry: Json| #![trigger placed(result, "id"@, entry, r)]
            entry.as_text() == Some(id@) && entry.text@ == crate::reply::json_text(id@) && placed(result, "id"@, entry, r),
{
    let entry = Json { text: crate::reply::string_json(id), kind: Kind::Text(owned(id)) };
    let ghost e = entry;
    let out = put_absent(result, owned("id"), entry);
    assert(e.as_text() == Some(id@));
    out
}

/// How the Cloudflare API is authenticated.
pub enum Credential {
    /// A bearer token read from a file.
    TokenFile(String),
    /// A bearer token.
    Token(String),
    /// A global API key read from a file, with the account e-mail.
    KeyFile(String, String),
    /// A global API key, with the account e-mail.
    Key(String, String),
}

/// How the Cloudflare API is authenticated, in text.
pub enum CredentialModel {
    TokenFile(Seq<char>),
    Token(Seq<char>),
    KeyFile(Seq<char>, Seq<char>),
    Key(Seq<char>, Seq<char>),
}

impl Credential {
    /// The credential in text.
    pub open spec fn model(&self) -> CredentialModel {
        match self {
            Credential::TokenFile(p) => CredentialModel::TokenFile(p@),
            Credential::Token(t) => CredentialModel::Token(t@),
            Credential::KeyFile(p, e) => CredentialModel::KeyFile(p@, e@),
            Credential::Key(k, e) => CredentialModel::Key(k@, e@),
        }
    }
}

/// The credential: `--token-file`, else the profile's
/// `CLOUDFLARE_API_TOKEN_FILE`, `CLOUDFLARE_API_TOKEN`, then
/// `CLOUDFLARE_API_KEY_FILE` or `CLOUDFLARE_API_KEY` with
/// `CLOUDFLARE_API_EMAIL`.
pub open spec fn credential_of(flag: Option<Seq<char>>, vars: Map<Seq<char>, String>) -> Result<CredentialModel, Seq<char>> {
    if flag is Some {
        Ok(CredentialModel::TokenFile(flag->0))
    } else if vars.contains_key("CLOUDFLARE_API_TOKEN_FILE"@) {
        Ok(CredentialModel::TokenFile(vars["CLOUDFLARE_API_TOKEN_FILE"@]@))
    } else if vars.contains_key("CLOUDFLARE_API_TOKEN"@) {
        Ok(CredentialModel::Token(vars["CLOUDFLARE_API_TOKEN"@]@))
    } else if vars.contains_key("CLOUDFLARE_API_KEY_FILE"@) || vars.contains_key("CLOUDFLARE_API_KEY"@) {
        if !vars.contains_key("CLOUDFLARE_API_EMAIL"@) {
            Err("@cloudflare CLOUDFLARE_API_KEY requires CLOUDFLARE_API_EMAIL"@)
        } else if vars.contains_key("CLOUDFLARE_API_KEY_FILE"@) {
            Ok(CredentialModel::KeyFile(vars["CLOUDFLARE_API_KEY_FILE"@]@, vars["CLOUDFLARE_API_EMAIL"@]@))
        } else {
            Ok(CredentialModel::Key(vars["CLOUDFLARE_API_KEY"@]@, vars["CLOUDFLARE_API_EMAIL"@]@))
        }
    } else {
        Err("@cloudflare requires --token-file, CLOUDFLARE_API_TOKEN_FILE, CLOUDFLARE_API_TOKEN, or CLOUDFLARE_API_KEY with CLOUDFLARE_API_EMAIL"@)
    }
}

/// The credential of a call.
pub fn credential(flag: Option<&str>, vars: &crate::table::Table<String>) -> (r: Result<Credential, String>)
    ensures
        match credential_of(match flag { Some(f) => Some(f@), None => None }, vars@) {
            Ok(c) => r matches Ok(x) && x.model() == c,
            Err(e) => r matches Err(x) && x@ == e,
        },
{
    if let Some(f) = flag {
        return Ok(Credential::TokenFile(owned(f)));
    }
    if let Some(p) = vars.get("CLOUDFLARE_API_TOKEN_FILE") {
        return Ok(Credential::TokenFile(p.clone()));
    }
    if let Some(t) = vars.get("CLOUDFLARE_API_TOKEN") {
        return Ok(Credential::Token(t.clone()));
    }
    let file = vars.get("CLOUDFLARE_API_KEY_FILE");
    let key = vars.get("CLOUDFLARE_API_KEY");
    if file.is_none() && key.is_none() {
        return Err(owned(
            "@cloudflare requires --token-file, CLOUDFLARE_API_TOKEN_FILE, CLOUDFLARE_API_TOKEN, or CLOUDFLARE_API_KEY with CLOUDFLARE_API_EMAIL",
        ));
    }
    let email = match vars.get("CLOUDFLARE_API_EMAIL") {
        Some(e) => e.clone(),
        None => {
            return Err(owned("@cloudflare CLOUDFLARE_API_KEY requires CLOUDFLARE_API_EMAIL"));
        },
    };
    match file {
        Some(p) => Ok(Credential::KeyFile(p.clone(), email)),
        None => Ok(Credential::Key(key.unwrap().clone(), email)),
    }
}

} // verus!

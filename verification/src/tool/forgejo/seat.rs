//! The structured `@forgejo` call: where it talks, how it signs in, and the
//! HTTP request that each resource verb makes.
use vstd::prelude::*;

use super::deed::{Deed, DeedModel, Kind, KindModel};
use crate::model::forgejo::{auth, host, host_of, auth_of, pair, pair_of, repo_pair, repo_url, target_of, Auth};
use crate::parse::{line_of, opt, Line, LineModel};
use crate::reply::json_parses;
use crate::table::Table;
use crate::text::{lemma_lookup_concat, lemma_lookup_one, lookup, owned, percent_encode, quoted, rsplit_once_at, same, trim_end_all, trim_end_matches, views};

verus! {

/// A field value of a JSON request body.
pub enum Field {
    Text(String),
    Flag(bool),
    Texts(Vec<String>),
    /// JSON text given by the caller, already checked to parse.
    Raw(String),
}

/// A field value, in text.
pub enum FieldModel {
    Text(Seq<char>),
    Flag(bool),
    Texts(Seq<Seq<char>>),
    Raw(Seq<char>),
}

impl Field {
    /// The value in text.
    pub open spec fn model(&self) -> FieldModel {
        match self {
            Field::Text(t) => FieldModel::Text(t@),
            Field::Flag(b) => FieldModel::Flag(*b),
            Field::Texts(v) => FieldModel::Texts(views(v@)),
            Field::Raw(t) => FieldModel::Raw(t@),
        }
    }
}

/// A JSON request body.
pub enum Body {
    Object(Vec<(String, Field)>),
    /// JSON text given by the caller, already checked to parse.
    Raw(String),
}

/// The fields of an object body, in text.
pub open spec fn fields(v: Seq<(String, Field)>) -> Seq<(Seq<char>, FieldModel)> {
    v.map_values(|p: (String, Field)| (p.0@, p.1.model()))
}

/// A request body, in text.
pub enum BodyModel {
    Object(Seq<(Seq<char>, FieldModel)>),
    Raw(Seq<char>),
}

impl Body {
    /// The body in text.
    pub open spec fn model(&self) -> BodyModel {
        match self {
            Body::Object(v) => BodyModel::Object(fields(v@)),
            Body::Raw(t) => BodyModel::Raw(t@),
        }
    }
}

/// An HTTP request of the API.
pub struct Request {
    pub method: String,
    pub url: String,
    pub body: Option<Body>,
}

/// An HTTP request, in text.
pub struct RequestModel {
    pub method: Seq<char>,
    pub url: Seq<char>,
    pub body: Option<BodyModel>,
}

impl Request {
    /// The request in text.
    pub open spec fn model(&self) -> RequestModel {
        RequestModel {
            method: self.method@,
            url: self.url@,
            body: match self.body {
                Some(b) => Some(b.model()),
                None => None,
            },
        }
    }
}

/// What the call does over HTTP.
pub enum Plan {
    /// One signed request; its reply is the value.
    Send(Request),
    /// Signed GETs of `stem&page=N` for N = 1, 2, ... while pages are full;
    /// the rows together are the value.
    Pages(String),
    /// One signed request; the reply's member with this name is the value
    /// when there is one, else the reply.
    Unwrap(Request, String),
    /// One signed request; the reply's `state.run.jobs` rows, each as its
    /// index, name and status, are the value.
    Jobs(Request),
    /// One unsigned GET of this URL.
    Fetch(String),
}

/// What the call does over HTTP, in text.
pub enum PlanModel {
    Send(RequestModel),
    Pages(Seq<char>),
    Unwrap(RequestModel, Seq<char>),
    Jobs(RequestModel),
    Fetch(Seq<char>),
}

impl Plan {
    /// The plan in text.
    pub open spec fn model(&self) -> PlanModel {
        match self {
            Plan::Send(q) => PlanModel::Send(q.model()),
            Plan::Pages(s) => PlanModel::Pages(s@),
            Plan::Unwrap(q, k) => PlanModel::Unwrap(q.model(), k@),
            Plan::Jobs(q) => PlanModel::Jobs(q.model()),
            Plan::Fetch(u) => PlanModel::Fetch(u@),
        }
    }
}

/// A request model from its parts.
pub open spec fn ask(method: Seq<char>, url: Seq<char>, body: Option<BodyModel>) -> RequestModel {
    RequestModel { method, url, body }
}

/// A text field.
pub open spec fn tf(key: Seq<char>, value: Seq<char>) -> (Seq<char>, FieldModel) {
    (key, FieldModel::Text(value))
}

/// One text field when the value is there.
pub open spec fn maybe(key: Seq<char>, value: Option<Seq<char>>) -> Seq<(Seq<char>, FieldModel)> {
    match value {
        Some(v) => seq![tf(key, v)],
        None => seq![],
    }
}

/// The value, or the fallback when there is none.
pub open spec fn or_else(value: Option<Seq<char>>, fallback: Seq<char>) -> Seq<char> {
    match value {
        Some(v) => v,
        None => fallback,
    }
}

/// A value that is there and not empty.
pub open spec fn given(value: Option<Seq<char>>) -> bool {
    value matches Some(v) && v.len() > 0
}

/// The error for a verb that is not known.
pub open spec fn unknown() -> Seq<char> {
    "@forgejo expected a known resource verb"@
}

/// The call: its option line, the API base and the token source.
pub struct Seat {
    pub line: Line,
    pub base: String,
    pub auth: Option<Auth>,
}

/// The token source of a call, when it signs at all.
pub open spec fn seat_auth(a: Option<Auth>) -> Option<(bool, Seq<char>)> {
    match a {
        Some(x) => Some(x.view_of()),
        None => None,
    }
}

/// The URL of a call: `--url`, else `FORGEJO_URL`, when not empty.
pub open spec fn url_of(line: LineModel, vars: Map<Seq<char>, String>) -> Option<Seq<char>> {
    let held = match line.url {
        Some(u) => Some(u),
        None => if vars.contains_key("FORGEJO_URL"@) {
            Some(vars["FORGEJO_URL"@]@)
        } else {
            None
        },
    };
    if given(held) {
        held
    } else {
        None
    }
}

/// Whether the line is a bare `get URL` fetch, which neither signs nor needs
/// a Forgejo URL.
pub open spec fn bare(line: LineModel) -> bool {
    line.rest.len() > 0 && line.rest[0] == "get"@
}

/// Composes `a/b` style paths from parts.
fn join2(a: &str, b: &str) -> (r: String)
    ensures
        r@ == a@ + b@,
{
    let mut out = owned(a);
    out.append(b);
    out
}

/// The owner, name and number of an issue or pull reference.
fn aim(id: &str, repo: &Option<String>) -> (r: Result<(String, String, String), String>)
    ensures
        r matches Ok((o, n, i)) ==> target_of(id@, opt(*repo)) == Ok::<(Seq<char>, Seq<char>, Seq<char>), Seq<char>>((o@, n@, i@)),
        r matches Err(e) ==> target_of(id@, opt(*repo)) == Err::<(Seq<char>, Seq<char>, Seq<char>), Seq<char>>(e@),
{
    if let Some((held, index)) = rsplit_once_at(id, "#") {
        let (owner, name) = pair(held.as_str())?;
        return Ok((owner, name, index));
    }
    match repo {
        Some(held) => {
            let (owner, name) = pair(held.as_str())?;
            Ok((owner, name, owned(id)))
        },
        None => Err(owned("git remote origin is unavailable; pass --repo owner/name")),
    }
}

/// The repository of the call as a pair.
fn home(repo: &Option<String>) -> (r: Result<(String, String), String>)
    ensures
        r matches Ok((o, n)) ==> repo_pair(opt(*repo)) == Ok::<(Seq<char>, Seq<char>), Seq<char>>((o@, n@)),
        r matches Err(e) ==> repo_pair(opt(*repo)) == Err::<(Seq<char>, Seq<char>), Seq<char>>(e@),
{
    match repo {
        Some(held) => pair(held.as_str()),
        None => Err(owned("git remote origin is unavailable; pass --repo owner/name")),
    }
}

/// Appends a field to an object body.
fn put(v: &mut Vec<(String, Field)>, key: &str, value: Field)
    ensures
        fields(final(v)@) == fields(old(v)@).push((key@, value.model())),
{
    let ghost m = value.model();
    v.push((owned(key), value));
    assert(fields(v@) =~= fields(old(v)@).push((key@, m)));
}

/// A text value.
fn text(value: &str) -> (r: Field)
    ensures
        r.model() == FieldModel::Text(value@),
{
    Field::Text(owned(value))
}

/// Whether `serde_json` reads the text as a JSON value.
pub(crate) fn parses(text: &str) -> (r: bool)
    ensures
        r == json_parses(text@),
{
    crate::reply::read_json(text).is_some()
}

impl Seat {
    /// Opens a call: parses the option line; unless it is a bare `get`, takes
    /// the Forgejo URL and the token source from the line or the profile.
    pub fn open(argv: &[String], vars: &Table<String>) -> (r: Result<Self, String>)
        ensures
            match line_of(views(argv@)) {
                Err(e) => r matches Err(m) && m@ == e,
                Ok(l) => if bare(l) {
                    r matches Ok(s) && s.line.model() == l && s.base@ == Seq::<char>::empty() && s.auth is None
                } else {
                    match url_of(l, vars@) {
                        None => r matches Err(m) && m@ == "@forgejo requires FORGEJO_URL or --url"@,
                        Some(u) => match auth_of(l.file, vars@) {
                            None => r matches Err(m) && m@
                                == "@forgejo requires FORGEJO_TOKEN_FILE, FORGEJO_TOKEN, or --token-file"@,
                            Some(a) => r matches Ok(s) && s.line.model() == l && s.base@ == host_of(u)
                                && seat_auth(s.auth) == Some(a),
                        },
                    }
                },
            },
    {
        let line = Line::take(argv)?;
        if line.rest.len() > 0 && same(line.rest[0].as_str(), "get") {
            assert(line.model().rest[0] == line.rest@[0]@);
            return Ok(Seat { line, base: String::new(), auth: None });
        }
        proof {
            if line.model().rest.len() > 0 {
                assert(line.model().rest[0] == line.rest@[0]@);
            }
        }
        let held = match &line.url {
            Some(u) => Some(u.clone()),
            None => match vars.get("FORGEJO_URL") {
                Some(v) => Some(v.clone()),
                None => None,
            },
        };
        let url = match held {
            Some(u) => {
                if u.as_str().unicode_len() > 0 {
                    u
                } else {
                    return Err(owned("@forgejo requires FORGEJO_URL or --url"));
                }
            },
            None => {
                return Err(owned("@forgejo requires FORGEJO_URL or --url"));
            },
        };
        let source = auth(&line.file, vars)?;
        let base = host(url.as_str());
        Ok(Seat { line, base, auth: Some(source) })
    }

    /// The repository of the call, when `--repo` named one.
    pub open spec fn repo_view(&self) -> Option<Seq<char>> {
        opt(self.line.repo)
    }

    /// A flag of the option line.
    pub open spec fn flag_view(&self, name: Seq<char>) -> Option<Seq<char>> {
        let f = self.line.model().flags;
        if f.contains_key(name) {
            Some(f[name])
        } else {
            None
        }
    }

    /// The caller's JSON text that a verb passes on, which must parse.
    pub open spec fn raw_of(&self, d: DeedModel) -> Option<Seq<char>> {
        match d {
            DeedModel::Guard(KindModel::Create) | DeedModel::Guard(KindModel::Edit(_))
            | DeedModel::Repo(KindModel::Edit(_)) => if given(self.flag_view("body"@)) {
                self.flag_view("body"@)
            } else {
                None
            },
            DeedModel::Flow(_) => self.flag_view("inputs"@),
            _ => None,
        }
    }

    /// The plan of a verb, given whether the caller's JSON text parses.
    pub open spec fn planned(&self, d: DeedModel, valid: bool) -> Result<PlanModel, Seq<char>> {
        let b = self.base@;
        let title = self.flag_view("title"@);
        let body = self.flag_view("body"@);
        let state = self.flag_view("state"@);
        match d {
            DeedModel::User => Ok(PlanModel::Send(ask("GET"@, b + "/user"@, None))),
            DeedModel::Show(id) => match target_of(id, self.repo_view()) {
                Ok((o, n, i)) => Ok(PlanModel::Send(ask("GET"@, repo_url(b, o, n) + "/issues/"@ + i, None))),
                Err(e) => Err(e),
            },
            DeedModel::List => match repo_pair(self.repo_view()) {
                Ok((o, n)) => Ok(PlanModel::Pages(repo_url(b, o, n) + "/issues?state=all&limit=50"@)),
                Err(e) => Err(e),
            },
            DeedModel::Create => if !given(title) {
                Err("@forgejo issue create requires --title"@)
            } else {
                match repo_pair(self.repo_view()) {
                    Ok((o, n)) => Ok(PlanModel::Send(ask("POST"@, repo_url(b, o, n) + "/issues"@,
                        Some(BodyModel::Object(seq![tf("title"@, title->0)] + maybe("body"@, body)))))),
                    Err(e) => Err(e),
                }
            },
            DeedModel::Edit(id) => if state matches Some(s) && s != "open"@ && s != "closed"@ {
                Err("@forgejo issue edit --state must be open or closed"@)
            } else if title is None && body is None && state is None {
                Err("@forgejo issue edit requires --title, --body, or --state"@)
            } else {
                match target_of(id, self.repo_view()) {
                    Ok((o, n, i)) => Ok(PlanModel::Send(ask("PATCH"@, repo_url(b, o, n) + "/issues/"@ + i,
                        Some(BodyModel::Object(maybe("title"@, title) + maybe("body"@, body) + maybe("state"@, state)))))),
                    Err(e) => Err(e),
                }
            },
            DeedModel::Notes(id) => match target_of(id, self.repo_view()) {
                Ok((o, n, i)) => Ok(PlanModel::Pages(repo_url(b, o, n) + "/issues/"@ + i + "/comments?limit=50"@)),
                Err(e) => Err(e),
            },
            DeedModel::Comment(id) => if !given(body) {
                Err("@forgejo issue comment create requires --body"@)
            } else {
                match target_of(id, self.repo_view()) {
                    Ok((o, n, i)) => Ok(PlanModel::Send(ask("POST"@, repo_url(b, o, n) + "/issues/"@ + i + "/comments"@,
                        Some(BodyModel::Object(seq![tf("body"@, body->0)]))))),
                    Err(e) => Err(e),
                }
            },
            DeedModel::Pull(KindModel::Show(id)) => match target_of(id, self.repo_view()) {
                Ok((o, n, i)) => Ok(PlanModel::Send(ask("GET"@, repo_url(b, o, n) + "/pulls/"@ + i, None))),
                Err(e) => Err(e),
            },
            DeedModel::Pull(KindModel::List) => match repo_pair(self.repo_view()) {
                Ok((o, n)) => Ok(PlanModel::Pages(repo_url(b, o, n) + "/pulls?state=all&limit=50"@)),
                Err(e) => Err(e),
            },
            DeedModel::Pull(KindModel::Create) => if !given(title) {
                Err("@forgejo pull create requires --title"@)
            } else if !given(self.flag_view("head"@)) {
                Err("@forgejo pull create requires --head"@)
            } else {
                match repo_pair(self.repo_view()) {
                    Ok((o, n)) => Ok(PlanModel::Send(ask("POST"@, repo_url(b, o, n) + "/pulls"@,
                        Some(BodyModel::Object(seq![tf("title"@, title->0), tf("head"@, self.flag_view("head"@)->0),
                            tf("base"@, or_else(self.flag_view("base"@), "main"@))] + maybe("body"@, body)))))),
                    Err(e) => Err(e),
                }
            },
            DeedModel::Pull(KindModel::Edit(id)) => if title is None && body is None && state is None {
                Err("@forgejo pull edit requires --title, --body, or --state"@)
            } else {
                match target_of(id, self.repo_view()) {
                    Ok((o, n, i)) => Ok(PlanModel::Send(ask("PATCH"@, repo_url(b, o, n) + "/pulls/"@ + i,
                        Some(BodyModel::Object(maybe("title"@, title) + maybe("body"@, body) + maybe("state"@, state)))))),
                    Err(e) => Err(e),
                }
            },
            DeedModel::Pull(KindModel::Merge(id)) => if !given(self.flag_view("head"@)) {
                Err("@forgejo pull merge requires --head"@)
            } else {
                match target_of(id, self.repo_view()) {
                    Ok((o, n, i)) => Ok(PlanModel::Send(ask("POST"@, repo_url(b, o, n) + "/pulls/"@ + i + "/merge"@,
                        Some(BodyModel::Object(seq![tf("Do"@, or_else(self.flag_view("do"@), "fast-forward-only"@)),
                            ("delete_branch_after_merge"@, FieldModel::Flag(false)),
                            tf("head_commit_id"@, self.flag_view("head"@)->0)]))))),
                    Err(e) => Err(e),
                }
            },
            DeedModel::Status(id) => match repo_pair(self.repo_view()) {
                Ok((o, n)) => Ok(PlanModel::Send(ask("GET"@, repo_url(b, o, n) + "/commits/"@ + quoted(id) + "/status"@, None))),
                Err(e) => Err(e),
            },
            DeedModel::Branch(KindModel::Show(id)) => match repo_pair(self.repo_view()) {
                Ok((o, n)) => Ok(PlanModel::Send(ask("GET"@, repo_url(b, o, n) + "/branches/"@ + quoted(id), None))),
                Err(e) => Err(e),
            },
            DeedModel::Branch(KindModel::Put(id)) => if !given(self.flag_view("from"@)) {
                Err("@forgejo branch create requires --from"@)
            } else {
                match repo_pair(self.repo_view()) {
                    Ok((o, n)) => Ok(PlanModel::Send(ask("POST"@, repo_url(b, o, n) + "/branches"@,
                        Some(BodyModel::Object(seq![tf("new_branch_name"@, id), tf("old_branch_name"@, self.flag_view("from"@)->0)]))))),
                    Err(e) => Err(e),
                }
            },
            DeedModel::Guard(KindModel::Show(id)) => match repo_pair(self.repo_view()) {
                Ok((o, n)) => Ok(PlanModel::Send(ask("GET"@, repo_url(b, o, n) + "/branch_protections/"@ + quoted(id), None))),
                Err(e) => Err(e),
            },
            DeedModel::Guard(KindModel::Create) => if !given(body) {
                Err("@forgejo protection requires --body"@)
            } else if !valid {
                Err("invalid --body"@)
            } else {
                match repo_pair(self.repo_view()) {
                    Ok((o, n)) => Ok(PlanModel::Send(ask("POST"@, repo_url(b, o, n) + "/branch_protections"@,
                        Some(BodyModel::Raw(body->0))))),
                    Err(e) => Err(e),
                }
            },
            DeedModel::Guard(KindModel::Edit(id)) => if !given(body) {
                Err("@forgejo protection requires --body"@)
            } else if !valid {
                Err("invalid --body"@)
            } else {
                match repo_pair(self.repo_view()) {
                    Ok((o, n)) => Ok(PlanModel::Send(ask("PATCH"@, repo_url(b, o, n) + "/branch_protections/"@ + quoted(id),
                        Some(BodyModel::Raw(body->0))))),
                    Err(e) => Err(e),
                }
            },
            DeedModel::Repo(KindModel::Show(_)) => match repo_pair(self.repo_view()) {
                Ok((o, n)) => Ok(PlanModel::Send(ask("GET"@, repo_url(b, o, n), None))),
                Err(e) => Err(e),
            },
            DeedModel::Repo(KindModel::Edit(_)) => if !given(body) {
                Err("@forgejo repo edit requires --body"@)
            } else if !valid {
                Err("invalid --body"@)
            } else {
                match repo_pair(self.repo_view()) {
                    Ok((o, n)) => Ok(PlanModel::Send(ask("PATCH"@, repo_url(b, o, n), Some(BodyModel::Raw(body->0))))),
                    Err(e) => Err(e),
                }
            },
            DeedModel::Repo(KindModel::Drop(_)) => match repo_pair(self.repo_view()) {
                Ok((o, n)) => Ok(PlanModel::Send(ask("DELETE"@, repo_url(b, o, n), None))),
                Err(e) => Err(e),
            },
            DeedModel::Secret(KindModel::List) => match repo_pair(self.repo_view()) {
                Ok((o, n)) => Ok(PlanModel::Unwrap(ask("GET"@, repo_url(b, o, n) + "/actions/secrets"@, None), "secrets"@)),
                Err(e) => Err(e),
            },
            DeedModel::Secret(KindModel::Put(id)) => if !given(body) {
                Err("@forgejo secret set requires --body"@)
            } else {
                match repo_pair(self.repo_view()) {
                    Ok((o, n)) => Ok(PlanModel::Send(ask("PUT"@, repo_url(b, o, n) + "/actions/secrets/"@ + quoted(id),
                        Some(BodyModel::Object(seq![tf("data"@, body->0)]))))),
                    Err(e) => Err(e),
                }
            },
            DeedModel::Secret(KindModel::Drop(id)) => match repo_pair(self.repo_view()) {
                Ok((o, n)) => Ok(PlanModel::Send(ask("DELETE"@, repo_url(b, o, n) + "/actions/secrets/"@ + quoted(id), None))),
                Err(e) => Err(e),
            },
            DeedModel::Flow(id) => if !given(self.flag_view("ref"@)) {
                Err("@forgejo workflow dispatch requires --ref"@)
            } else if self.flag_view("inputs"@) is Some && !valid {
                Err("invalid --inputs"@)
            } else {
                match repo_pair(self.repo_view()) {
                    Ok((o, n)) => Ok(PlanModel::Send(ask("POST"@, repo_url(b, o, n) + "/actions/workflows/"@ + quoted(id) + "/dispatches"@,
                        Some(BodyModel::Object(seq![tf("ref"@, self.flag_view("ref"@)->0),
                            ("inputs"@, FieldModel::Raw(or_else(self.flag_view("inputs"@), "{}"@))),
                            ("return_run_info"@, FieldModel::Flag(true))]))))),
                    Err(e) => Err(e),
                }
            },
            DeedModel::Run(id) => match repo_pair(self.repo_view()) {
                Ok((o, n)) => Ok(PlanModel::Send(ask("GET"@, repo_url(b, o, n) + "/actions/runs/"@ + id, None))),
                Err(e) => Err(e),
            },
            DeedModel::Job(run, job) => match repo_pair(self.repo_view()) {
                Ok((o, n)) => Ok(PlanModel::Send(ask("GET"@, trim_end_all(b, "/api/v1"@) + "/"@ + o + "/"@ + n
                    + "/actions/runs/"@ + run + "/jobs/"@ + job + "/attempt/"@ + or_else(self.flag_view("attempt"@), "1"@)
                    + "/logs"@, None))),
                Err(e) => Err(e),
            },
            DeedModel::Task(run) => match repo_pair(self.repo_view()) {
                Ok((o, n)) => Ok(PlanModel::Jobs(ask("POST"@, trim_end_all(b, "/api/v1"@) + "/"@ + o + "/"@ + n
                    + "/actions/runs/"@ + run + "/jobs/"@ + "0"@ + "/attempt/"@ + or_else(self.flag_view("attempt"@), "1"@),
                    Some(BodyModel::Object(seq![("logCursors"@, FieldModel::Texts(seq![]))]))))),
                Err(e) => Err(e),
            },
            DeedModel::Review(KindModel::Show(id)) => match target_of(id, self.repo_view()) {
                Ok((o, n, i)) => Ok(PlanModel::Pages(repo_url(b, o, n) + "/pulls/"@ + i + "/reviews?limit=50"@)),
                Err(e) => Err(e),
            },
            DeedModel::Review(KindModel::Put(id)) => if !given(body) {
                Err("@forgejo review create requires --body"@)
            } else {
                match target_of(id, self.repo_view()) {
                    Ok((o, n, i)) => Ok(PlanModel::Send(ask("POST"@, repo_url(b, o, n) + "/pulls/"@ + i + "/reviews"@,
                        Some(BodyModel::Object(seq![tf("body"@, body->0), tf("event"@, or_else(self.flag_view("event"@), "COMMENT"@))]))))),
                    Err(e) => Err(e),
                }
            },
            DeedModel::Label => match repo_pair(self.repo_view()) {
                Ok((o, n)) => Ok(PlanModel::Pages(repo_url(b, o, n) + "/labels?limit=50"@)),
                Err(e) => Err(e),
            },
            DeedModel::Fetch(url) => Ok(PlanModel::Fetch(url)),
            _ => Err(unknown()),
        }
    }
}


/// Whether a result is the planned one: the same plan, or the same error.
pub open spec fn fits(r: Result<Plan, String>, m: Result<PlanModel, Seq<char>>) -> bool {
    match r {
        Ok(p) => m == Ok::<PlanModel, Seq<char>>(p.model()),
        Err(e) => m == Err::<PlanModel, Seq<char>>(e@),
    }
}

/// A signed request.
fn send(method: &str, url: String, body: Option<Body>) -> (r: Result<Plan, String>)
    ensures
        r matches Ok(p) && p.model() == PlanModel::Send(ask(method@, url@, match body {
            Some(b) => Some(b.model()),
            None => None,
        })),
{
    Ok(Plan::Send(Request { method: owned(method), url, body }))
}

/// An object body.
fn object(v: Vec<(String, Field)>) -> (r: Option<Body>)
    ensures
        r matches Some(b) && b.model() == BodyModel::Object(fields(v@)),
{
    Some(Body::Object(v))
}

impl Seat {
    /// `base/repos/owner/name`.
    fn at(&self, owner: &str, name: &str) -> (r: String)
        ensures
            r@ == repo_url(self.base@, owner@, name@),
    {
        let mut u = join2(self.base.as_str(), "/repos/");
        u.append(owner);
        u.append("/");
        u.append(name);
        u
    }

    /// The value of a flag.
    fn flag(&self, name: &str) -> (r: Option<&str>)
        ensures
            r matches Some(v) ==> self.flag_view(name@) == Some(v@),
            r is None ==> self.flag_view(name@) is None,
    {
        self.line.flag(name)
    }

    /// The value of a flag when it is given and not empty.
    fn given(&self, name: &str) -> (r: Option<&str>)
        ensures
            r matches Some(v) ==> self.flag_view(name@) == Some(v@) && v@.len() > 0,
            r is None ==> !given(self.flag_view(name@)),
    {
        match self.flag(name) {
            Some(v) => {
                if v.unicode_len() > 0 {
                    Some(v)
                } else {
                    None
                }
            },
            None => None,
        }
    }

    /// Optional text fields of an edit.
    fn edits(&self) -> (r: Vec<(String, Field)>)
        ensures
            fields(r@) == maybe("title"@, self.flag_view("title"@)) + maybe("body"@, self.flag_view("body"@))
                + maybe("state"@, self.flag_view("state"@)),
    {
        let mut v: Vec<(String, Field)> = Vec::new();
        assert(fields(v@) =~= seq![]);
        if let Some(t) = self.flag("title") {
            put(&mut v, "title", text(t));
        }
        if let Some(t) = self.flag("body") {
            put(&mut v, "body", text(t));
        }
        if let Some(t) = self.flag("state") {
            put(&mut v, "state", text(t));
        }
        assert(fields(v@) =~= maybe("title"@, self.flag_view("title"@)) + maybe("body"@, self.flag_view("body"@))
            + maybe("state"@, self.flag_view("state"@)));
        v
    }

    proof fn lemma_no_edits(&self, v: Seq<(String, Field)>)
        requires
            fields(v) == maybe("title"@, self.flag_view("title"@)) + maybe("body"@, self.flag_view("body"@))
                + maybe("state"@, self.flag_view("state"@)),
            v.len() == 0,
        ensures
            self.flag_view("title"@) is None && self.flag_view("body"@) is None && self.flag_view("state"@) is None,
    {
        assert(fields(v).len() == 0);
    }

    fn issue_show(&self, id: &str, valid: bool) -> (r: Result<Plan, String>)
        ensures
            fits(r, self.planned(DeedModel::Show(id@), valid)),
    {
        let (o, n, i) = aim(id, &self.line.repo)?;
        let mut u = self.at(o.as_str(), n.as_str());
        u.append("/issues/");
        u.append(i.as_str());
        send("GET", u, None)
    }

    fn issue_list(&self, valid: bool) -> (r: Result<Plan, String>)
        ensures
            fits(r, self.planned(DeedModel::List, valid)),
    {
        let (o, n) = home(&self.line.repo)?;
        let mut u = self.at(o.as_str(), n.as_str());
        u.append("/issues?state=all&limit=50");
        Ok(Plan::Pages(u))
    }

    fn issue_create(&self, valid: bool) -> (r: Result<Plan, String>)
        ensures
            fits(r, self.planned(DeedModel::Create, valid)),
    {
        let title = match self.given("title") {
            Some(t) => t,
            None => {
                return Err(owned("@forgejo issue create requires --title"));
            },
        };
        let (o, n) = home(&self.line.repo)?;
        let mut u = self.at(o.as_str(), n.as_str());
        u.append("/issues");
        let mut v: Vec<(String, Field)> = Vec::new();
        put(&mut v, "title", text(title));
        if let Some(t) = self.flag("body") {
            put(&mut v, "body", text(t));
        }
        assert(fields(v@) =~= seq![tf("title"@, title@)] + maybe("body"@, self.flag_view("body"@)));
        send("POST", u, object(v))
    }

    fn issue_edit(&self, id: &str, valid: bool) -> (r: Result<Plan, String>)
        ensures
            fits(r, self.planned(DeedModel::Edit(id@), valid)),
    {
        if let Some(s) = self.flag("state") {
            if !same(s, "open") && !same(s, "closed") {
                return Err(owned("@forgejo issue edit --state must be open or closed"));
            }
        }
        let v = self.edits();
        if v.len() == 0 {
            proof {
                self.lemma_no_edits(v@);
            }
            return Err(owned("@forgejo issue edit requires --title, --body, or --state"));
        }
        let (o, n, i) = aim(id, &self.line.repo)?;
        let mut u = self.at(o.as_str(), n.as_str());
        u.append("/issues/");
        u.append(i.as_str());
        send("PATCH", u, object(v))
    }

    fn issue_notes(&self, id: &str, valid: bool) -> (r: Result<Plan, String>)
        ensures
            fits(r, self.planned(DeedModel::Notes(id@), valid)),
    {
        let (o, n, i) = aim(id, &self.line.repo)?;
        let mut u = self.at(o.as_str(), n.as_str());
        u.append("/issues/");
        u.append(i.as_str());
        u.append("/comments?limit=50");
        Ok(Plan::Pages(u))
    }

    fn issue_comment(&self, id: &str, valid: bool) -> (r: Result<Plan, String>)
        ensures
            fits(r, self.planned(DeedModel::Comment(id@), valid)),
    {
        let body = match self.given("body") {
            Some(t) => t,
            None => {
                return Err(owned("@forgejo issue comment create requires --body"));
            },
        };
        let (o, n, i) = aim(id, &self.line.repo)?;
        let mut u = self.at(o.as_str(), n.as_str());
        u.append("/issues/");
        u.append(i.as_str());
        u.append("/comments");
        let mut v: Vec<(String, Field)> = Vec::new();
        put(&mut v, "body", text(body));
        assert(fields(v@) =~= seq![tf("body"@, body@)]);
        send("POST", u, object(v))
    }
}


impl Seat {
    fn pull_show(&self, id: &str, valid: bool) -> (r: Result<Plan, String>)
        ensures
            fits(r, self.planned(DeedModel::Pull(KindModel::Show(id@)), valid)),
    {
        let (o, n, i) = aim(id, &self.line.repo)?;
        let mut u = self.at(o.as_str(), n.as_str());
        u.append("/pulls/");
        u.append(i.as_str());
        send("GET", u, None)
    }

    fn pull_list(&self, valid: bool) -> (r: Result<Plan, String>)
        ensures
            fits(r, self.planned(DeedModel::Pull(KindModel::List), valid)),
    {
        let (o, n) = home(&self.line.repo)?;
        let mut u = self.at(o.as_str(), n.as_str());
        u.append("/pulls?state=all&limit=50");
        Ok(Plan::Pages(u))
    }

    fn pull_create(&self, valid: bool) -> (r: Result<Plan, String>)
        ensures
            fits(r, self.planned(DeedModel::Pull(KindModel::Create), valid)),
    {
        let title = match self.given("title") {
            Some(t) => t,
            None => {
                return Err(owned("@forgejo pull create requires --title"));
            },
        };
        let head = match self.given("head") {
            Some(t) => t,
            None => {
                return Err(owned("@forgejo pull create requires --head"));
            },
        };
        let onto = match self.flag("base") {
            Some(t) => t,
            None => "main",
        };
        let (o, n) = home(&self.line.repo)?;
        let mut u = self.at(o.as_str(), n.as_str());
        u.append("/pulls");
        let mut v: Vec<(String, Field)> = Vec::new();
        put(&mut v, "title", text(title));
        put(&mut v, "head", text(head));
        put(&mut v, "base", text(onto));
        if let Some(t) = self.flag("body") {
            put(&mut v, "body", text(t));
        }
        assert(fields(v@) =~= seq![tf("title"@, title@), tf("head"@, head@),
            tf("base"@, or_else(self.flag_view("base"@), "main"@))] + maybe("body"@, self.flag_view("body"@)));
        send("POST", u, object(v))
    }

    fn pull_edit(&self, id: &str, valid: bool) -> (r: Result<Plan, String>)
        ensures
            fits(r, self.planned(DeedModel::Pull(KindModel::Edit(id@)), valid)),
    {
        let v = self.edits();
        if v.len() == 0 {
            proof {
                self.lemma_no_edits(v@);
            }
            return Err(owned("@forgejo pull edit requires --title, --body, or --state"));
        }
        let (o, n, i) = aim(id, &self.line.repo)?;
        let mut u = self.at(o.as_str(), n.as_str());
        u.append("/pulls/");
        u.append(i.as_str());
        send("PATCH", u, object(v))
    }

    fn pull_merge(&self, id: &str, valid: bool) -> (r: Result<Plan, String>)
        ensures
            fits(r, self.planned(DeedModel::Pull(KindModel::Merge(id@)), valid)),
    {
        let head = match self.given("head") {
            Some(t) => t,
            None => {
                return Err(owned("@forgejo pull merge requires --head"));
            },
        };
        let way = match self.flag("do") {
            Some(t) => t,
            None => "fast-forward-only",
        };
        let (o, n, i) = aim(id, &self.line.repo)?;
        let mut u = self.at(o.as_str(), n.as_str());
        u.append("/pulls/");
        u.append(i.as_str());
        u.append("/merge");
        let mut v: Vec<(String, Field)> = Vec::new();
        put(&mut v, "Do", text(way));
        put(&mut v, "delete_branch_after_merge", Field::Flag(false));
        put(&mut v, "head_commit_id", text(head));
        assert(fields(v@) =~= seq![tf("Do"@, or_else(self.flag_view("do"@), "fast-forward-only"@)),
            ("delete_branch_after_merge"@, FieldModel::Flag(false)), tf("head_commit_id"@, head@)]);
        send("POST", u, object(v))
    }

    fn review_list(&self, id: &str, valid: bool) -> (r: Result<Plan, String>)
        ensures
            fits(r, self.planned(DeedModel::Review(KindModel::Show(id@)), valid)),
    {
        let (o, n, i) = aim(id, &self.line.repo)?;
        let mut u = self.at(o.as_str(), n.as_str());
        u.append("/pulls/");
        u.append(i.as_str());
        u.append("/reviews?limit=50");
        Ok(Plan::Pages(u))
    }

    fn review_create(&self, id: &str, valid: bool) -> (r: Result<Plan, String>)
        ensures
            fits(r, self.planned(DeedModel::Review(KindModel::Put(id@)), valid)),
    {
        let body = match self.given("body") {
            Some(t) => t,
            None => {
                return Err(owned("@forgejo review create requires --body"));
            },
        };
        let event = match self.flag("event") {
            Some(t) => t,
            None => "COMMENT",
        };
        let (o, n, i) = aim(id, &self.line.repo)?;
        let mut u = self.at(o.as_str(), n.as_str());
        u.append("/pulls/");
        u.append(i.as_str());
        u.append("/reviews");
        let mut v: Vec<(String, Field)> = Vec::new();
        put(&mut v, "body", text(body));
        put(&mut v, "event", text(event));
        assert(fields(v@) =~= seq![tf("body"@, body@), tf("event"@, or_else(self.flag_view("event"@), "COMMENT"@))]);
        send("POST", u, object(v))
    }
}


impl Seat {
    /// `base/repos/owner/name` of the call's repository, then `tail` and the
    /// percent-encoded `id`.
    fn under(&self, tail: &str, id: &str) -> (r: Result<String, String>)
        ensures
            r matches Ok(u) ==> repo_pair(self.repo_view()) matches Ok((o, n)) && u@ == repo_url(self.base@, o, n) + tail@ + quoted(id@),
            r matches Err(e) ==> repo_pair(self.repo_view()) == Err::<(Seq<char>, Seq<char>), Seq<char>>(e@),
    {
        let (o, n) = home(&self.line.repo)?;
        let mut u = self.at(o.as_str(), n.as_str());
        u.append(tail);
        let q = percent_encode(id);
        u.append(q.as_str());
        Ok(u)
    }

    /// The URL of the call's repository.
    fn here(&self) -> (r: Result<String, String>)
        ensures
            r matches Ok(u) ==> repo_pair(self.repo_view()) matches Ok((o, n)) && u@ == repo_url(self.base@, o, n),
            r matches Err(e) ==> repo_pair(self.repo_view()) == Err::<(Seq<char>, Seq<char>), Seq<char>>(e@),
    {
        let (o, n) = home(&self.line.repo)?;
        Ok(self.at(o.as_str(), n.as_str()))
    }

    fn status_show(&self, id: &str, valid: bool) -> (r: Result<Plan, String>)
        ensures
            fits(r, self.planned(DeedModel::Status(id@), valid)),
    {
        let mut u = self.under("/commits/", id)?;
        u.append("/status");
        send("GET", u, None)
    }

    fn branch_show(&self, id: &str, valid: bool) -> (r: Result<Plan, String>)
        ensures
            fits(r, self.planned(DeedModel::Branch(KindModel::Show(id@)), valid)),
    {
        let u = self.under("/branches/", id)?;
        send("GET", u, None)
    }

    fn branch_create(&self, id: &str, valid: bool) -> (r: Result<Plan, String>)
        ensures
            fits(r, self.planned(DeedModel::Branch(KindModel::Put(id@)), valid)),
    {
        let from = match self.given("from") {
            Some(t) => t,
            None => {
                return Err(owned("@forgejo branch create requires --from"));
            },
        };
        let mut u = self.here()?;
        u.append("/branches");
        let mut v: Vec<(String, Field)> = Vec::new();
        put(&mut v, "new_branch_name", text(id));
        put(&mut v, "old_branch_name", text(from));
        assert(fields(v@) =~= seq![tf("new_branch_name"@, id@), tf("old_branch_name"@, from@)]);
        send("POST", u, object(v))
    }

    fn guard_show(&self, id: &str, valid: bool) -> (r: Result<Plan, String>)
        ensures
            fits(r, self.planned(DeedModel::Guard(KindModel::Show(id@)), valid)),
    {
        let u = self.under("/branch_protections/", id)?;
        send("GET", u, None)
    }

    /// The caller's JSON body of a protection verb.
    fn protection(&self, valid: bool) -> (r: Result<String, String>)
        ensures
            r matches Ok(t) ==> self.flag_view("body"@) == Some(t@) && t@.len() > 0 && valid,
            r matches Err(e) ==> (if !given(self.flag_view("body"@)) {
                e@ == "@forgejo protection requires --body"@
            } else {
                !valid && e@ == "invalid --body"@
            }),
    {
        let body = match self.given("body") {
            Some(t) => t,
            None => {
                return Err(owned("@forgejo protection requires --body"));
            },
        };
        if !valid {
            return Err(owned("invalid --body"));
        }
        Ok(owned(body))
    }

    fn guard_create(&self, valid: bool) -> (r: Result<Plan, String>)
        ensures
            fits(r, self.planned(DeedModel::Guard(KindModel::Create), valid)),
    {
        let body = self.protection(valid)?;
        let mut u = self.here()?;
        u.append("/branch_protections");
        send("POST", u, Some(Body::Raw(body)))
    }

    fn guard_edit(&self, id: &str, valid: bool) -> (r: Result<Plan, String>)
        ensures
            fits(r, self.planned(DeedModel::Guard(KindModel::Edit(id@)), valid)),
    {
        let body = self.protection(valid)?;
        let u = self.under("/branch_protections/", id)?;
        send("PATCH", u, Some(Body::Raw(body)))
    }

    fn repo_show(&self, valid: bool) -> (r: Result<Plan, String>)
        ensures
            forall|x: Seq<char>| fits(r, #[trigger] self.planned(DeedModel::Repo(KindModel::Show(x)), valid)),
    {
        let u = self.here()?;
        send("GET", u, None)
    }

    fn repo_edit(&self, valid: bool) -> (r: Result<Plan, String>)
        ensures
            forall|x: Seq<char>| fits(r, #[trigger] self.planned(DeedModel::Repo(KindModel::Edit(x)), valid)),
    {
        let body = match self.given("body") {
            Some(t) => t,
            None => {
                return Err(owned("@forgejo repo edit requires --body"));
            },
        };
        if !valid {
            return Err(owned("invalid --body"));
        }
        let u = self.here()?;
        send("PATCH", u, Some(Body::Raw(owned(body))))
    }

    fn repo_delete(&self, valid: bool) -> (r: Result<Plan, String>)
        ensures
            forall|x: Seq<char>| fits(r, #[trigger] self.planned(DeedModel::Repo(KindModel::Drop(x)), valid)),
    {
        let u = self.here()?;
        send("DELETE", u, None)
    }

    fn secret_list(&self, valid: bool) -> (r: Result<Plan, String>)
        ensures
            fits(r, self.planned(DeedModel::Secret(KindModel::List), valid)),
    {
        let mut u = self.here()?;
        u.append("/actions/secrets");
        Ok(Plan::Unwrap(Request { method: owned("GET"), url: u, body: None }, owned("secrets")))
    }

    fn secret_set(&self, id: &str, valid: bool) -> (r: Result<Plan, String>)
        ensures
            fits(r, self.planned(DeedModel::Secret(KindModel::Put(id@)), valid)),
    {
        let data = match self.given("body") {
            Some(t) => t,
            None => {
                return Err(owned("@forgejo secret set requires --body"));
            },
        };
        let u = self.under("/actions/secrets/", id)?;
        let mut v: Vec<(String, Field)> = Vec::new();
        put(&mut v, "data", text(data));
        assert(fields(v@) =~= seq![tf("data"@, data@)]);
        send("PUT", u, object(v))
    }

    fn secret_delete(&self, id: &str, valid: bool) -> (r: Result<Plan, String>)
        ensures
            fits(r, self.planned(DeedModel::Secret(KindModel::Drop(id@)), valid)),
    {
        let u = self.under("/actions/secrets/", id)?;
        send("DELETE", u, None)
    }

    fn label_list(&self, valid: bool) -> (r: Result<Plan, String>)
        ensures
            fits(r, self.planned(DeedModel::Label, valid)),
    {
        let mut u = self.here()?;
        u.append("/labels?limit=50");
        Ok(Plan::Pages(u))
    }

    fn dispatch(&self, id: &str, valid: bool) -> (r: Result<Plan, String>)
        ensures
            fits(r, self.planned(DeedModel::Flow(id@), valid)),
    {
        let git = match self.given("ref") {
            Some(t) => t,
            None => {
                return Err(owned("@forgejo workflow dispatch requires --ref"));
            },
        };
        let inputs = match self.flag("inputs") {
            Some(raw) => {
                if !valid {
                    return Err(owned("invalid --inputs"));
                }
                raw
            },
            None => "{}",
        };
        let mut u = self.under("/actions/workflows/", id)?;
        u.append("/dispatches");
        let mut v: Vec<(String, Field)> = Vec::new();
        put(&mut v, "ref", text(git));
        put(&mut v, "inputs", Field::Raw(owned(inputs)));
        put(&mut v, "return_run_info", Field::Flag(true));
        assert(fields(v@) =~= seq![tf("ref"@, git@), ("inputs"@, FieldModel::Raw(or_else(self.flag_view("inputs"@), "{}"@))),
            ("return_run_info"@, FieldModel::Flag(true))]);
        send("POST", u, object(v))
    }

    fn run_show(&self, id: &str, valid: bool) -> (r: Result<Plan, String>)
        ensures
            fits(r, self.planned(DeedModel::Run(id@), valid)),
    {
        let mut u = self.here()?;
        u.append("/actions/runs/");
        u.append(id);
        send("GET", u, None)
    }

    /// `origin/owner/name/actions/runs/RUN/jobs/`, the web origin being the
    /// API base without `/api/v1`.
    fn jobs_url(&self, run: &str) -> (r: Result<String, String>)
        ensures
            r matches Ok(u) ==> repo_pair(self.repo_view()) matches Ok((o, n)) && u@ == trim_end_all(self.base@, "/api/v1"@)
                + "/"@ + o + "/"@ + n + "/actions/runs/"@ + run@ + "/jobs/"@,
            r matches Err(e) ==> repo_pair(self.repo_view()) == Err::<(Seq<char>, Seq<char>), Seq<char>>(e@),
    {
        let (o, n) = home(&self.line.repo)?;
        let mut u = trim_end_matches(self.base.as_str(), "/api/v1");
        u.append("/");
        u.append(o.as_str());
        u.append("/");
        u.append(n.as_str());
        u.append("/actions/runs/");
        u.append(run);
        u.append("/jobs/");
        Ok(u)
    }

    fn job_log(&self, run: &str, job: &str, valid: bool) -> (r: Result<Plan, String>)
        ensures
            fits(r, self.planned(DeedModel::Job(run@, job@), valid)),
    {
        let attempt = match self.flag("attempt") {
            Some(t) => t,
            None => "1",
        };
        let mut u = self.jobs_url(run)?;
        u.append(job);
        u.append("/attempt/");
        u.append(attempt);
        u.append("/logs");
        send("GET", u, None)
    }

    fn task_list(&self, run: &str, valid: bool) -> (r: Result<Plan, String>)
        ensures
            fits(r, self.planned(DeedModel::Task(run@), valid)),
    {
        let attempt = match self.flag("attempt") {
            Some(t) => t,
            None => "1",
        };
        let mut u = self.jobs_url(run)?;
        u.append("0");
        u.append("/attempt/");
        u.append(attempt);
        let mut v: Vec<(String, Field)> = Vec::new();
        let none: Vec<String> = Vec::new();
        assert(views(none@) =~= seq![]);
        put(&mut v, "logCursors", Field::Texts(none));
        assert(fields(v@) =~= seq![("logCursors"@, FieldModel::Texts(seq![]))]);
        Ok(Plan::Jobs(Request { method: owned("POST"), url: u, body: object(v) }))
    }
}


/// The `Authorization` header of a token.
pub fn header(secret: &str) -> (r: String)
    ensures
        r@ == "token "@ + secret@,
{
    join2("token ", secret)
}

/// Whether the caller's JSON text of a verb parses, `true` when there is none.
pub open spec fn valid_of(raw: Option<Seq<char>>) -> bool {
    match raw {
        Some(t) => json_parses(t),
        None => true,
    }
}

impl Seat {
    /// The plan of a verb, given whether the caller's JSON text parses.
    pub fn arrange(&self, deed: &Deed, valid: bool) -> (r: Result<Plan, String>)
        ensures
            fits(r, self.planned(deed.model(), valid)),
    {
        match deed {
            Deed::User => {
                let u = join2(self.base.as_str(), "/user");
                send("GET", u, None)
            },
            Deed::Show(id) => self.issue_show(id.as_str(), valid),
            Deed::List => self.issue_list(valid),
            Deed::Create => self.issue_create(valid),
            Deed::Edit(id) => self.issue_edit(id.as_str(), valid),
            Deed::Notes(id) => self.issue_notes(id.as_str(), valid),
            Deed::Comment(id) => self.issue_comment(id.as_str(), valid),
            Deed::Pull(Kind::Show(id)) => self.pull_show(id.as_str(), valid),
            Deed::Pull(Kind::List) => self.pull_list(valid),
            Deed::Pull(Kind::Create) => self.pull_create(valid),
            Deed::Pull(Kind::Edit(id)) => self.pull_edit(id.as_str(), valid),
            Deed::Pull(Kind::Merge(id)) => self.pull_merge(id.as_str(), valid),
            Deed::Status(id) => self.status_show(id.as_str(), valid),
            Deed::Branch(Kind::Show(id)) => self.branch_show(id.as_str(), valid),
            Deed::Branch(Kind::Put(id)) => self.branch_create(id.as_str(), valid),
            Deed::Guard(Kind::Show(id)) => self.guard_show(id.as_str(), valid),
            Deed::Guard(Kind::Create) => self.guard_create(valid),
            Deed::Guard(Kind::Edit(id)) => self.guard_edit(id.as_str(), valid),
            Deed::Repo(Kind::Show(_)) => self.repo_show(valid),
            Deed::Repo(Kind::Edit(_)) => self.repo_edit(valid),
            Deed::Repo(Kind::Drop(_)) => self.repo_delete(valid),
            Deed::Secret(Kind::List) => self.secret_list(valid),
            Deed::Secret(Kind::Put(id)) => self.secret_set(id.as_str(), valid),
            Deed::Secret(Kind::Drop(id)) => self.secret_delete(id.as_str(), valid),
            Deed::Flow(id) => self.dispatch(id.as_str(), valid),
            Deed::Run(id) => self.run_show(id.as_str(), valid),
            Deed::Job(run, job) => self.job_log(run.as_str(), job.as_str(), valid),
            Deed::Task(run) => self.task_list(run.as_str(), valid),
            Deed::Review(Kind::Show(id)) => self.review_list(id.as_str(), valid),
            Deed::Review(Kind::Put(id)) => self.review_create(id.as_str(), valid),
            Deed::Label => self.label_list(valid),
            Deed::Fetch(url) => Ok(Plan::Fetch(url.clone())),
            _ => Err(owned("@forgejo expected a known resource verb")),
        }
    }

    /// The caller's JSON text of a verb, which must parse.
    fn raw(&self, deed: &Deed) -> (r: Option<&str>)
        ensures
            match r {
                Some(t) => self.raw_of(deed.model()) == Some(t@),
                None => self.raw_of(deed.model()) is None,
            },
    {
        match deed {
            Deed::Guard(Kind::Create) | Deed::Guard(Kind::Edit(_)) | Deed::Repo(Kind::Edit(_)) => self.given("body"),
            Deed::Flow(_) => self.flag("inputs"),
            _ => None,
        }
    }

    /// The HTTP plan of a verb, checking the caller's JSON text with
    /// `serde_json`.
    pub fn plan(&self, deed: &Deed) -> (r: Result<Plan, String>)
        ensures
            fits(r, self.planned(deed.model(), valid_of(self.raw_of(deed.model())))),
    {
        let valid = match self.raw(deed) {
            Some(t) => parses(t),
            None => true,
        };
        self.arrange(deed, valid)
    }

    /// Whether the verb reaches for the repository while `--repo` named none:
    /// then the repository of the git remote `origin` is needed.
    pub fn needs_origin(&self, deed: &Deed) -> (r: bool)
        ensures
            r == (self.line.repo is None && self.planned(deed.model(), valid_of(self.raw_of(deed.model())))
                == Err::<PlanModel, Seq<char>>(crate::model::forgejo::no_origin())),
    {
        if self.line.repo.is_some() {
            return false;
        }
        match self.plan(deed) {
            Ok(_) => false,
            Err(e) => same(e.as_str(), "git remote origin is unavailable; pass --repo owner/name"),
        }
    }

    /// The verb of the call and its HTTP plan; a call that watches a job log
    /// is refused here.
    pub fn act(&self) -> (r: Result<(Deed, Plan), String>)
        ensures
            self.line.watch ==> (r matches Err(e) && e@ == "structured @forgejo calls cannot watch a job log"@),
            !self.line.watch ==> match super::deed::deed_of(self.line.model().rest) {
                None => r matches Err(e) && e@ == unknown(),
                Some(d) => match r {
                    Ok((x, p)) => x.model() == d && self.planned(d, valid_of(self.raw_of(d))) == Ok::<PlanModel, Seq<char>>(p.model()),
                    Err(e) => self.planned(d, valid_of(self.raw_of(d))) == Err::<PlanModel, Seq<char>>(e@),
                },
            },
    {
        if self.line.watch {
            return Err(owned("structured @forgejo calls cannot watch a job log"));
        }
        let deed = super::deed::deed(self.line.rest.as_slice())?;
        let plan = self.plan(&deed)?;
        Ok((deed, plan))
    }
}


impl Seat {
    /// The status request of a watched job: a POST of the job's page with no
    /// log cursors, and the job's index in the run.
    pub fn poll(&self, run: &str, job: &str) -> (r: Result<(Request, usize), String>)
        ensures
            match crate::text::number(job@) {
                Some(i) if i <= usize::MAX => match repo_pair(self.repo_view()) {
                    Ok((o, n)) => r matches Ok((q, k)) && k == i && q.model() == ask("POST"@,
                        trim_end_all(self.base@, "/api/v1"@) + "/"@ + o + "/"@ + n + "/actions/runs/"@ + run@
                        + "/jobs/"@ + job@ + "/attempt/"@ + or_else(self.flag_view("attempt"@), "1"@),
                        Some(BodyModel::Object(seq![("logCursors"@, FieldModel::Texts(seq![]))]))),
                    Err(e) => r matches Err(m) && m@ == e,
                },
                _ => r matches Err(m) && m@ == "invalid job index"@,
            },
    {
        let attempt = match self.flag("attempt") {
            Some(t) => t,
            None => "1",
        };
        let index = match crate::text::parse_usize(job) {
            Some(k) => k,
            None => {
                return Err(owned("invalid job index"));
            },
        };
        let mut u = self.jobs_url(run)?;
        u.append(job);
        u.append("/attempt/");
        u.append(attempt);
        let mut v: Vec<(String, Field)> = Vec::new();
        let none: Vec<String> = Vec::new();
        assert(views(none@) =~= seq![]);
        put(&mut v, "logCursors", Field::Texts(none));
        assert(fields(v@) =~= seq![("logCursors"@, FieldModel::Texts(seq![]))]);
        Ok((Request { method: owned("POST"), url: u, body: Some(Body::Object(v)) }, index))
    }
}

/// `issue create` sends the issue it was given: a `POST` whose body's
/// `title` is the `--title` flag and whose `body` is the `--body` flag
/// whenever that flag is given.
pub proof fn lemma_issue_create_keeps_text(s: Seat, valid: bool)
    requires
        s.planned(DeedModel::Create, valid) is Ok,
    ensures
        s.planned(DeedModel::Create, valid) matches Ok(PlanModel::Send(q)) && q.method == "POST"@ && (q.body matches Some(
            BodyModel::Object(f),
        ) && {
            let flags = s.line.model().flags;
            &&& flags.contains_key("title"@) && lookup(f, "title"@) == Some(FieldModel::Text(flags["title"@]))
            &&& flags.contains_key("body"@) ==> lookup(f, "body"@) == Some(FieldModel::Text(flags["body"@]))
        }),
{
    reveal_strlit("title");
    reveal_strlit("body");
    assert("title"@[0] == 't' && "body"@[0] == 'b');
    assert("title"@ != "body"@);
    let title = s.flag_view("title"@);
    let body = s.flag_view("body"@);
    match s.planned(DeedModel::Create, valid) {
        Ok(PlanModel::Send(q)) => {
            let front = seq![tf("title"@, title->0)];
            let extra = maybe("body"@, body);
            assert(q.body == Some(BodyModel::Object(front + extra)));
            lemma_lookup_concat(front, extra, "title"@);
            lemma_lookup_concat(front, extra, "body"@);
            lemma_lookup_one("title"@, FieldModel::Text(title->0), "title"@);
            lemma_lookup_one("title"@, FieldModel::Text(title->0), "body"@);
            if let Some(b) = body {
                lemma_lookup_one("body"@, FieldModel::Text(b), "body"@);
            }
        },
        _ => {},
    }
}

} // verus!

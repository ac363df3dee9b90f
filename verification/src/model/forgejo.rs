//! The native `@forgejo` call: its option line, its resource verbs and the
//! HTTP request each one makes.
use vstd::prelude::*;

use crate::parse::needs_value;
use crate::table::Table;
use crate::text::{
    decimal, decimal_of, is_prefix, number, occurs, owned, parse_usize, rsplit_once, rsplit_once_at,
    same, split, split_by, split_once, split_once_at, strip_prefix, strip_prefix_of, trim,
    trim_end_all, trim_end_matches, trimmed, views,
};

verus! {

/// `FORGEJO_URL` (or `--url`) with the API path appended.
pub open spec fn host_of(url: Seq<char>) -> Seq<char> {
    trim_end_all(url, "/"@) + "/api/v1"@
}

/// The API base for a Forgejo URL.
pub fn host(url: &str) -> (r: String)
    ensures
        r@ == host_of(url@),
{
    let mut out = trim_end_matches(url, "/");
    out.append("/api/v1");
    out
}

/// `owner/name` split at its first `/`, both parts non-empty.
pub open spec fn pair_of(repo: Seq<char>) -> Result<(Seq<char>, Seq<char>), Seq<char>> {
    match split_once(repo, "/"@) {
        Some((owner, name)) => if owner.len() > 0 && name.len() > 0 {
            Ok((owner, name))
        } else {
            Err("repository must be owner/name: "@ + repo)
        },
        None => Err("repository must be owner/name: "@ + repo),
    }
}

/// Splits `owner/name`.
pub fn pair(repo: &str) -> (r: Result<(String, String), String>)
    ensures
        r matches Ok((o, n)) ==> pair_of(repo@) == Ok::<(Seq<char>, Seq<char>), Seq<char>>((o@, n@)),
        r matches Err(e) ==> pair_of(repo@) == Err::<(Seq<char>, Seq<char>), Seq<char>>(e@),
{
    match split_once_at(repo, "/") {
        Some((owner, name)) => {
            if owner.as_str().unicode_len() > 0 && name.as_str().unicode_len() > 0 {
                Ok((owner, name))
            } else {
                let mut e = owned("repository must be owner/name: ");
                e.append(repo);
                Err(e)
            }
        },
        None => {
            let mut e = owned("repository must be owner/name: ");
            e.append(repo);
            Err(e)
        },
    }
}

/// `owner/name` rebuilt from a pair.
pub open spec fn slash(p: (Seq<char>, Seq<char>)) -> Seq<char> {
    p.0 + "/"@ + p.1
}

/// The part of a split at `i`, or empty.
pub open spec fn part_or_empty(parts: Seq<Seq<char>>, i: int) -> Seq<char> {
    if 0 <= i < parts.len() {
        parts[i]
    } else {
        Seq::empty()
    }
}

/// The repository that a git remote URL names.
pub open spec fn peel_of(raw: Seq<char>) -> Result<Seq<char>, Seq<char>> {
    let held = trim_end_all(trim(raw), ".git"@);
    match strip_prefix(held, "git@"@) {
        Some(path) => match split_once(path, ":"@) {
            Some((_, rest)) => match pair_of(rest) {
                Ok(p) => Ok(slash(p)),
                Err(e) => Err(e),
            },
            None => Err("unable to parse git remote: "@ + raw),
        },
        None => match split_once(held, "://"@) {
            Some((_, rest)) => {
                let parts = split(rest, "/"@);
                match pair_of(part_or_empty(parts, 1) + "/"@ + part_or_empty(parts, 2)) {
                    Ok(p) => Ok(slash(p)),
                    Err(e) => Err(e),
                }
            },
            None => Err("unable to parse git remote: "@ + raw),
        },
    }
}

fn slashed(p: (String, String)) -> (r: String)
    ensures
        r@ == slash((p.0@, p.1@)),
{
    let mut out = p.0;
    out.append("/");
    out.append(p.1.as_str());
    out
}

/// Reads `owner/name` from the URL of a git remote.
pub fn peel(raw: &str) -> (r: Result<String, String>)
    ensures
        r matches Ok(v) ==> peel_of(raw@) == Ok::<Seq<char>, Seq<char>>(v@),
        r matches Err(e) ==> peel_of(raw@) == Err::<Seq<char>, Seq<char>>(e@),
{
    let t = trimmed(raw);
    let held = trim_end_matches(t.as_str(), ".git");
    if let Some(path) = strip_prefix_of(held.as_str(), "git@") {
        return match split_once_at(path.as_str(), ":") {
            Some((_, rest)) => {
                let p = pair(rest.as_str())?;
                Ok(slashed(p))
            },
            None => {
                let mut e = owned("unable to parse git remote: ");
                e.append(raw);
                Err(e)
            },
        };
    }
    match split_once_at(held.as_str(), "://") {
        Some((_, rest)) => {
            proof {
                reveal_strlit("/");
            }
            let parts = split_by(rest.as_str(), "/");
            let owner = if parts.len() > 1 {
                assert(views(parts@)[1] == parts@[1]@);
                parts[1].clone()
            } else {
                String::new()
            };
            let name = if parts.len() > 2 {
                assert(views(parts@)[2] == parts@[2]@);
                parts[2].clone()
            } else {
                String::new()
            };
            let mut both = owner;
            both.append("/");
            both.append(name.as_str());
            let p = pair(both.as_str())?;
            Ok(slashed(p))
        },
        None => {
            let mut e = owned("unable to parse git remote: ");
            e.append(raw);
            Err(e)
        },
    }
}

/// The text of a token file as a token: trimmed, and refused when empty.
pub open spec fn token_of(text: Seq<char>, path: Seq<char>) -> Result<Seq<char>, Seq<char>> {
    if trim(text).len() == 0 {
        Err("token file is empty: "@ + path)
    } else {
        Ok(trim(text))
    }
}

/// The token held by the text of a token file.
pub fn load(text: &str, path: &str) -> (r: Result<String, String>)
    ensures
        r matches Ok(v) ==> token_of(text@, path@) == Ok::<Seq<char>, Seq<char>>(v@),
        r matches Err(e) ==> token_of(text@, path@) == Err::<Seq<char>, Seq<char>>(e@),
{
    let token = trimmed(text);
    if token.as_str().unicode_len() == 0 {
        let mut e = owned("token file is empty: ");
        e.append(path);
        return Err(e);
    }
    Ok(token)
}

/// Where the API token comes from.
pub enum Auth {
    File(String),
    Token(String),
}

/// A non-empty value of a table.
pub open spec fn filled(vars: Map<Seq<char>, String>, key: Seq<char>) -> bool {
    vars.contains_key(key) && vars[key]@.len() > 0
}

/// The token source: `--token-file`, else `FORGEJO_TOKEN`, else
/// `FORGEJO_TOKEN_FILE`, each only when non-empty.
pub open spec fn auth_of(file: Option<Seq<char>>, vars: Map<Seq<char>, String>) -> Option<(bool, Seq<char>)> {
    if file matches Some(f) && f.len() > 0 {
        Some((true, file->0))
    } else if filled(vars, "FORGEJO_TOKEN"@) {
        Some((false, vars["FORGEJO_TOKEN"@]@))
    } else if filled(vars, "FORGEJO_TOKEN_FILE"@) {
        Some((true, vars["FORGEJO_TOKEN_FILE"@]@))
    } else {
        None
    }
}

impl Auth {
    /// Whether the token is read from a file, and the file or token.
    pub open spec fn view_of(self) -> (bool, Seq<char>) {
        match self {
            Auth::File(f) => (true, f@),
            Auth::Token(t) => (false, t@),
        }
    }
}

/// A non-empty value of the profile's variables.
pub fn filled_var(vars: &Table<String>, key: &str) -> (r: Option<String>)
    ensures
        r matches Some(v) ==> filled(vars@, key@) && v@ == vars@[key@]@,
        r is None ==> !filled(vars@, key@),
{
    match vars.get(key) {
        Some(v) => {
            if v.as_str().unicode_len() > 0 {
                Some(v.clone())
            } else {
                None
            }
        },
        None => None,
    }
}

/// Chooses the token source.
pub fn auth(file: &Option<String>, vars: &Table<String>) -> (r: Result<Auth, String>)
    ensures
        r matches Ok(a) ==> auth_of(crate::parse::opt(*file), vars@) == Some(a.view_of()),
        r matches Err(e) ==> auth_of(crate::parse::opt(*file), vars@) is None && e@
            == "@forgejo requires FORGEJO_TOKEN_FILE, FORGEJO_TOKEN, or --token-file"@,
{
    if let Some(f) = file {
        if f.as_str().unicode_len() > 0 {
            return Ok(Auth::File(f.clone()));
        }
    }
    if let Some(t) = filled_var(vars, "FORGEJO_TOKEN") {
        return Ok(Auth::Token(t));
    }
    if let Some(f) = filled_var(vars, "FORGEJO_TOKEN_FILE") {
        return Ok(Auth::File(f));
    }
    Err(owned("@forgejo requires FORGEJO_TOKEN_FILE, FORGEJO_TOKEN, or --token-file"))
}

/// A resource verb of the call.
pub enum Deed {
    User,
    Show(String),
    List,
    Create,
    Edit(String),
    Notes(String),
    Comment(String),
}

/// The meaning of a resource verb.
pub enum DeedModel {
    User,
    Show(Seq<char>),
    List,
    Create,
    Edit(Seq<char>),
    Notes(Seq<char>),
    Comment(Seq<char>),
}

impl Deed {
    /// The meaning of this verb.
    pub open spec fn model(&self) -> DeedModel {
        match self {
            Deed::User => DeedModel::User,
            Deed::Show(i) => DeedModel::Show(i@),
            Deed::List => DeedModel::List,
            Deed::Create => DeedModel::Create,
            Deed::Edit(i) => DeedModel::Edit(i@),
            Deed::Notes(i) => DeedModel::Notes(i@),
            Deed::Comment(i) => DeedModel::Comment(i@),
        }
    }
}

/// The resource verb that the remaining arguments name.
pub open spec fn deed_of(rest: Seq<Seq<char>>) -> Option<DeedModel> {
    if rest.len() == 2 && rest[0] == "user"@ && rest[1] == "show"@ {
        Some(DeedModel::User)
    } else if rest.len() == 2 && rest[0] == "issue"@ && rest[1] == "list"@ {
        Some(DeedModel::List)
    } else if rest.len() == 2 && rest[0] == "issue"@ && rest[1] == "create"@ {
        Some(DeedModel::Create)
    } else if rest.len() == 3 && rest[0] == "issue"@ && rest[1] == "show"@ {
        Some(DeedModel::Show(rest[2]))
    } else if rest.len() == 3 && rest[0] == "issue"@ && rest[1] == "edit"@ {
        Some(DeedModel::Edit(rest[2]))
    } else if rest.len() == 4 && rest[0] == "issue"@ && rest[1] == "comment"@ && rest[2] == "list"@ {
        Some(DeedModel::Notes(rest[3]))
    } else if rest.len() == 4 && rest[0] == "issue"@ && rest[1] == "comment"@ && rest[2]
        == "create"@ {
        Some(DeedModel::Comment(rest[3]))
    } else {
        None
    }
}

/// The refusal of an unknown resource verb.
pub open spec fn deed_usage() -> Seq<char> {
    "@forgejo expected user show, issue show <id>, issue list, issue create, issue edit <id>, issue comment list <id>, or issue comment create <id>"@
}

/// Reads the resource verb.
pub fn deed(rest: &[String]) -> (r: Result<Deed, String>)
    ensures
        r matches Ok(d) ==> deed_of(views(rest@)) == Some(d.model()),
        r matches Err(e) ==> deed_of(views(rest@)) is None && e@ == deed_usage(),
{
    let ghost v = views(rest@);
    let n = rest.len();
    if n >= 2 {
        assert(v[0] == rest@[0]@ && v[1] == rest@[1]@);
    }
    if n >= 3 {
        assert(v[2] == rest@[2]@);
    }
    if n >= 4 {
        assert(v[3] == rest@[3]@);
    }
    if n == 2 && same(rest[0].as_str(), "user") && same(rest[1].as_str(), "show") {
        return Ok(Deed::User);
    }
    if n == 2 && same(rest[0].as_str(), "issue") && same(rest[1].as_str(), "list") {
        return Ok(Deed::List);
    }
    if n == 2 && same(rest[0].as_str(), "issue") && same(rest[1].as_str(), "create") {
        return Ok(Deed::Create);
    }
    if n == 3 && same(rest[0].as_str(), "issue") && same(rest[1].as_str(), "show") {
        return Ok(Deed::Show(rest[2].clone()));
    }
    if n == 3 && same(rest[0].as_str(), "issue") && same(rest[1].as_str(), "edit") {
        return Ok(Deed::Edit(rest[2].clone()));
    }
    if n == 4 && same(rest[0].as_str(), "issue") && same(rest[1].as_str(), "comment") && same(
        rest[2].as_str(),
        "list",
    ) {
        return Ok(Deed::Notes(rest[3].clone()));
    }
    if n == 4 && same(rest[0].as_str(), "issue") && same(rest[1].as_str(), "comment") && same(
        rest[2].as_str(),
        "create",
    ) {
        return Ok(Deed::Comment(rest[3].clone()));
    }
    Err(owned(
        "@forgejo expected user show, issue show <id>, issue list, issue create, issue edit <id>, issue comment list <id>, or issue comment create <id>",
    ))
}

/// The options of a `@forgejo` call.
pub struct Flags {
    pub json: bool,
    pub base: Option<String>,
    pub file: Option<String>,
    pub repo: Option<String>,
    pub limit: Option<usize>,
    pub title: Option<String>,
    pub body: Option<String>,
    pub state: Option<String>,
    pub rest: Vec<String>,
}

/// The meaning of the options of a `@forgejo` call.
pub struct FlagsModel {
    pub json: bool,
    pub base: Option<Seq<char>>,
    pub file: Option<Seq<char>>,
    pub repo: Option<Seq<char>>,
    pub limit: Option<nat>,
    pub title: Option<Seq<char>>,
    pub body: Option<Seq<char>>,
    pub state: Option<Seq<char>>,
    pub rest: Seq<Seq<char>>,
}

/// An option that takes a value.
pub open spec fn valued(arg: Seq<char>) -> bool {
    arg == "--url"@ || arg == "--token-file"@ || arg == "--repo"@ || arg == "--title"@ || arg
        == "--body"@ || arg == "--state"@ || arg == "--limit"@
}

/// Reads the arguments from index `i` onward into `acc`.
pub open spec fn flags_scan(argv: Seq<Seq<char>>, i: int, acc: FlagsModel) -> Result<FlagsModel, Seq<char>>
    decreases argv.len() - i,
{
    if i < 0 || i >= argv.len() {
        Ok(acc)
    } else {
        let arg = argv[i];
        let next = argv[i + 1];
        if arg == "--json"@ {
            flags_scan(argv, i + 1, FlagsModel { json: true, ..acc })
        } else if valued(arg) {
            if i + 1 >= argv.len() {
                Err(needs_value(arg))
            } else if arg == "--url"@ {
                flags_scan(argv, i + 2, FlagsModel { base: Some(next), ..acc })
            } else if arg == "--token-file"@ {
                flags_scan(argv, i + 2, FlagsModel { file: Some(next), ..acc })
            } else if arg == "--repo"@ {
                flags_scan(argv, i + 2, FlagsModel { repo: Some(next), ..acc })
            } else if arg == "--title"@ {
                flags_scan(argv, i + 2, FlagsModel { title: Some(next), ..acc })
            } else if arg == "--body"@ {
                flags_scan(argv, i + 2, FlagsModel { body: Some(next), ..acc })
            } else if arg == "--state"@ {
                flags_scan(argv, i + 2, FlagsModel { state: Some(next), ..acc })
            } else {
                match number(next) {
                    Some(n) => if n <= usize::MAX {
                        flags_scan(argv, i + 2, FlagsModel { limit: Some(n), ..acc })
                    } else {
                        Err("invalid --limit"@)
                    },
                    None => Err("invalid --limit"@),
                }
            }
        } else {
            flags_scan(argv, i + 1, FlagsModel { rest: acc.rest.push(arg), ..acc })
        }
    }
}

/// The meaning of `argv` as the options of a call.
pub open spec fn flags_of(argv: Seq<Seq<char>>) -> Result<FlagsModel, Seq<char>> {
    flags_scan(
        argv,
        0,
        FlagsModel {
            json: false,
            base: None,
            file: None,
            repo: None,
            limit: None,
            title: None,
            body: None,
            state: None,
            rest: Seq::empty(),
        },
    )
}

use crate::parse::opt;

impl Flags {
    /// The meaning of these options.
    pub open spec fn model(&self) -> FlagsModel {
        FlagsModel {
            json: self.json,
            base: opt(self.base),
            file: opt(self.file),
            repo: opt(self.repo),
            limit: match self.limit {
                Some(n) => Some(n as nat),
                None => None,
            },
            title: opt(self.title),
            body: opt(self.body),
            state: opt(self.state),
            rest: views(self.rest@),
        }
    }

    /// Parses the options of a call; unknown arguments are kept in order.
    pub fn parse(argv: &[String]) -> (r: Result<Self, String>)
        ensures
            r matches Ok(f) ==> flags_of(views(argv@)) == Ok::<FlagsModel, Seq<char>>(f.model()),
            r matches Err(e) ==> flags_of(views(argv@)) == Err::<FlagsModel, Seq<char>>(e@),
    {
        let mut held = Flags {
            json: false,
            base: None,
            file: None,
            repo: None,
            limit: None,
            title: None,
            body: None,
            state: None,
            rest: Vec::new(),
        };
        let ghost args = views(argv@);
        assert(views(held.rest@) =~= Seq::empty());
        let mut i: usize = 0;
        while i < argv.len()
            invariant
                i <= argv@.len(),
                args == views(argv@),
                flags_of(args) == flags_scan(args, i as int, held.model()),
            decreases argv@.len() - i,
        {
            i = held.step(argv, i)?;
        }
        Ok(held)
    }

    /// Reads the argument at `at`; returns where the next one starts.
    pub fn step(&mut self, argv: &[String], at: usize) -> (r: Result<usize, String>)
        requires
            at < argv@.len(),
        ensures
            ({
                let args = views(argv@);
                match r {
                    Ok(n) => at < n <= argv@.len() && flags_scan(args, at as int, old(self).model())
                        == flags_scan(args, n as int, final(self).model()),
                    Err(e) => flags_scan(args, at as int, old(self).model()) == Err::<FlagsModel, Seq<char>>(e@),
                }
            }),
    {
        let ghost args = views(argv@);
        let arg = argv[at].as_str();
        assert(args[at as int] == arg@);
        if at + 1 < argv.len() {
            assert(args[at + 1] == argv@[at + 1]@);
        }
        if same(arg, "--json") {
            self.json = true;
            assert(self.model() == FlagsModel { json: true, ..old(self).model() });
            return Ok(at + 1);
        }
        let is_valued = same(arg, "--url") || same(arg, "--token-file") || same(arg, "--repo")
            || same(arg, "--title") || same(arg, "--body") || same(arg, "--state") || same(
            arg,
            "--limit",
        );
        if !is_valued {
            let ghost before = views(self.rest@);
            self.rest.push(owned(arg));
            assert(views(self.rest@) =~= before.push(arg@));
            assert(self.model() == FlagsModel { rest: old(self).model().rest.push(arg@), ..old(self).model() });
            return Ok(at + 1);
        }
        if at + 1 >= argv.len() {
            let mut e = owned(arg);
            e.append(" requires a value");
            return Err(e);
        }
        let next = owned(argv[at + 1].as_str());
        if same(arg, "--url") {
            self.base = Some(next);
            assert(self.model() == FlagsModel { base: Some(argv@[at + 1]@), ..old(self).model() });
        } else if same(arg, "--token-file") {
            self.file = Some(next);
            assert(self.model() == FlagsModel { file: Some(argv@[at + 1]@), ..old(self).model() });
        } else if same(arg, "--repo") {
            self.repo = Some(next);
            assert(self.model() == FlagsModel { repo: Some(argv@[at + 1]@), ..old(self).model() });
        } else if same(arg, "--title") {
            self.title = Some(next);
            assert(self.model() == FlagsModel { title: Some(argv@[at + 1]@), ..old(self).model() });
        } else if same(arg, "--body") {
            self.body = Some(next);
            assert(self.model() == FlagsModel { body: Some(argv@[at + 1]@), ..old(self).model() });
        } else if same(arg, "--state") {
            self.state = Some(next);
            assert(self.model() == FlagsModel { state: Some(argv@[at + 1]@), ..old(self).model() });
        } else {
            match parse_usize(next.as_str()) {
                Some(n) => {
                    self.limit = Some(n);
                    assert(self.model() == FlagsModel { limit: Some(n as nat), ..old(self).model() });
                },
                None => {
                    return Err(owned("invalid --limit"));
                },
            }
        }
        Ok(at + 2)
    }
}

/// A parsed `@forgejo` call.
pub struct Call {
    pub json: bool,
    pub base: String,
    pub auth: Auth,
    pub repo: Option<String>,
    pub limit: Option<usize>,
    pub title: Option<String>,
    pub body: Option<String>,
    pub state: Option<String>,
    pub deed: Deed,
}

/// The Forgejo URL of a call: `--url` when given (even empty), else
/// `FORGEJO_URL`; refused when empty or missing.
pub open spec fn base_of(given: Option<Seq<char>>, vars: Map<Seq<char>, String>) -> Option<Seq<char>> {
    let held = match given {
        Some(b) => Some(b),
        None => if vars.contains_key("FORGEJO_URL"@) {
            Some(vars["FORGEJO_URL"@]@)
        } else {
            None
        },
    };
    match held {
        Some(b) => if b.len() > 0 {
            Some(b)
        } else {
            None
        },
        None => None,
    }
}

/// The error when the Forgejo remote `origin` cannot name the repository.
pub open spec fn no_origin() -> Seq<char> {
    "git remote origin is unavailable; pass --repo owner/name"@
}

/// The owner, name and number that an issue reference names: `owner/name#N`,
/// or `N` in the call's repository.
pub open spec fn target_of(id: Seq<char>, repo: Option<Seq<char>>) -> Result<(Seq<char>, Seq<char>, Seq<char>), Seq<char>> {
    match rsplit_once(id, "#"@) {
        Some((r, index)) => match pair_of(r) {
            Ok((o, n)) => Ok((o, n, index)),
            Err(e) => Err(e),
        },
        None => match repo {
            Some(r) => match pair_of(r) {
                Ok((o, n)) => Ok((o, n, id)),
                Err(e) => Err(e),
            },
            None => Err(no_origin()),
        },
    }
}

/// The repository of a call as a pair.
pub open spec fn repo_pair(repo: Option<Seq<char>>) -> Result<(Seq<char>, Seq<char>), Seq<char>> {
    match repo {
        Some(r) => pair_of(r),
        None => Err(no_origin()),
    }
}

/// An HTTP request that a call makes.
pub struct Request {
    pub method: String,
    pub url: String,
    /// The string fields of the JSON body, when there is one.
    pub body: Option<Vec<(String, String)>>,
    /// The kind of the reply in the JSON envelope.
    pub kind: String,
    /// Whether the URL is a list stem to be fetched page by page.
    pub paged: bool,
}

/// What a request is, in text.
pub struct RequestModel {
    pub method: Seq<char>,
    pub url: Seq<char>,
    pub body: Option<Seq<(Seq<char>, Seq<char>)>>,
    pub kind: Seq<char>,
    pub paged: bool,
}

/// A request model from its parts.
pub open spec fn plan(method: Seq<char>, url: Seq<char>, body: Option<Seq<(Seq<char>, Seq<char>)>>, kind: Seq<char>, paged: bool) -> RequestModel {
    RequestModel { method, url, body, kind, paged }
}

impl Request {
    /// The request in text.
    pub open spec fn model(&self) -> RequestModel {
        RequestModel {
            method: self.method@,
            url: self.url@,
            body: match self.body {
                Some(b) => Some(fields(b@)),
                None => None,
            },
            kind: self.kind@,
            paged: self.paged,
        }
    }
}

/// The path of a repository under the API base.
pub open spec fn repo_url(base: Seq<char>, owner: Seq<char>, name: Seq<char>) -> Seq<char> {
    base + "/repos/"@ + owner + "/"@ + name
}

/// The text views of the fields of a JSON body.
pub open spec fn fields(v: Seq<(String, String)>) -> Seq<(Seq<char>, Seq<char>)> {
    v.map_values(|p: (String, String)| (p.0@, p.1@))
}

/// The body of an issue edit.
pub open spec fn edit_fields(title: Option<Seq<char>>, body: Option<Seq<char>>, state: Option<Seq<char>>) -> Seq<(Seq<char>, Seq<char>)> {
    (match title {
        Some(t) => seq![("title"@, t)],
        None => seq![],
    }) + (match body {
        Some(b) => seq![("body"@, b)],
        None => seq![],
    }) + (match state {
        Some(s) => seq![("state"@, s)],
        None => seq![],
    })
}

/// Appends a field to a JSON body.
fn field(v: &mut Vec<(String, String)>, key: &str, value: &str)
    ensures
        fields(final(v)@) == fields(old(v)@).push((key@, value@)),
{
    v.push((owned(key), owned(value)));
    assert(fields(v@) =~= fields(old(v)@).push((key@, value@)));
}

/// Builds a URL from its parts.
fn url3(a: &str, b: &str, c: &str) -> (r: String)
    ensures
        r@ == a@ + b@ + c@,
{
    let mut out = owned(a);
    out.append(b);
    out.append(c);
    out
}

/// What parsing a `@forgejo` call against the profile's variables gives.
pub open spec fn parse_spec(a: Seq<Seq<char>>, vars: Map<Seq<char>, String>, r: Result<Call, String>) -> bool {
            ({
                match flags_of(a) {
                    Err(e) => r matches Err(m) && m@ == e,
                    Ok(f) => match base_of(f.base, vars) {
                        None => r matches Err(m) && m@ == "@forgejo requires FORGEJO_URL or --url"@,
                        Some(b) => match auth_of(f.file, vars) {
                            None => r matches Err(m) && m@
                                == "@forgejo requires FORGEJO_TOKEN_FILE, FORGEJO_TOKEN, or --token-file"@,
                            Some(a) => match deed_of(f.rest) {
                                None => r matches Err(m) && m@ == deed_usage(),
                                Some(d) => r matches Ok(c) && c.json == f.json && c.base@ == host_of(b)
                                    && c.auth.view_of() == a && opt(c.repo) == f.repo && (c.limit
                                    matches Some(l) ==> f.limit == Some(l as nat)) && (c.limit is None
                                    ==> f.limit is None) && opt(c.title) == f.title && opt(c.body)
                                    == f.body && opt(c.state) == f.state && c.deed.model() == d,
                            },
                        },
                    },
                }
            })
}

impl Call {
    /// Parses a `@forgejo` call against the profile's variables.
    pub fn parse(argv: &[String], vars: &Table<String>) -> (r: Result<Self, String>)
        ensures
            parse_spec(views(argv@), vars@, r),
    {
        let held = Flags::parse(argv)?;
        let given = match &held.base {
            Some(b) => Some(b.clone()),
            None => match vars.get("FORGEJO_URL") {
                Some(v) => Some(v.clone()),
                None => None,
            },
        };
        let base = match given {
            Some(b) => {
                if b.as_str().unicode_len() > 0 {
                    b
                } else {
                    return Err(owned("@forgejo requires FORGEJO_URL or --url"));
                }
            },
            None => {
                return Err(owned("@forgejo requires FORGEJO_URL or --url"));
            },
        };
        let auth = auth(&held.file, vars)?;
        let deed = deed(held.rest.as_slice())?;
        Ok(Call {
            json: held.json,
            base: host(base.as_str()),
            auth,
            repo: held.repo,
            limit: held.limit,
            title: held.title,
            body: held.body,
            state: held.state,
            deed,
        })
    }

    /// The repository of the call.
    pub fn repo(&self) -> (r: Result<String, String>)
        ensures
            r matches Ok(v) ==> opt(self.repo) == Some(v@),
            r matches Err(e) ==> self.repo is None && e@ == no_origin(),
    {
        match &self.repo {
            Some(held) => Ok(held.clone()),
            None => Err(owned("git remote origin is unavailable; pass --repo owner/name")),
        }
    }

    /// The owner, name and number of an issue reference.
    pub fn target(&self, id: &str) -> (r: Result<(String, String, String), String>)
        ensures
            r matches Ok((o, n, i)) ==> target_of(id@, opt(self.repo)) == Ok::<(Seq<char>, Seq<char>, Seq<char>), Seq<char>>((o@, n@, i@)),
            r matches Err(e) ==> target_of(id@, opt(self.repo)) == Err::<(Seq<char>, Seq<char>, Seq<char>), Seq<char>>(e@),
    {
        if let Some((repo, index)) = rsplit_once_at(id, "#") {
            let (owner, name) = pair(repo.as_str())?;
            return Ok((owner, name, index));
        }
        let repo = self.repo()?;
        let (owner, name) = pair(repo.as_str())?;
        Ok((owner, name, owned(id)))
    }

    /// The repository as a pair.
    fn repo_pair(&self) -> (r: Result<(String, String), String>)
        ensures
            r matches Ok((o, n)) ==> repo_pair(opt(self.repo)) == Ok::<(Seq<char>, Seq<char>), Seq<char>>((o@, n@)),
            r matches Err(e) ==> repo_pair(opt(self.repo)) == Err::<(Seq<char>, Seq<char>), Seq<char>>(e@),
    {
        let repo = self.repo()?;
        pair(repo.as_str())
    }

    /// The URL of one issue.
    fn issue_url(&self, id: &str) -> (r: Result<String, String>)
        ensures
            r matches Ok(u) ==> target_of(id@, opt(self.repo)) matches Ok((o, n, i)) && u@ == repo_url(self.base@, o, n) + "/issues/"@ + i,
            r matches Err(e) ==> target_of(id@, opt(self.repo)) == Err::<(Seq<char>, Seq<char>, Seq<char>), Seq<char>>(e@),
    {
        let (owner, name, index) = self.target(id)?;
        let mut u = url3(self.base.as_str(), "/repos/", owner.as_str());
        u.append("/");
        u.append(name.as_str());
        u.append("/issues/");
        u.append(index.as_str());
        Ok(u)
    }

    /// The repository URL of the call.
    fn home_url(&self) -> (r: Result<String, String>)
        ensures
            r matches Ok(u) ==> repo_pair(opt(self.repo)) matches Ok((o, n)) && u@ == repo_url(self.base@, o, n),
            r matches Err(e) ==> repo_pair(opt(self.repo)) == Err::<(Seq<char>, Seq<char>), Seq<char>>(e@),
    {
        let (owner, name) = self.repo_pair()?;
        let mut u = url3(self.base.as_str(), "/repos/", owner.as_str());
        u.append("/");
        u.append(name.as_str());
        Ok(u)
    }

    /// The request that the call's verb makes, as a model.
    pub open spec fn planned(&self) -> Result<RequestModel, Seq<char>> {
        match self.deed.model() {
            DeedModel::User => Ok(plan("GET"@, self.base@ + "/user"@, None, "user"@, false)),
            DeedModel::Show(id) => match target_of(id, opt(self.repo)) {
                Ok((o, n, i)) => Ok(plan("GET"@, repo_url(self.base@, o, n) + "/issues/"@ + i, None, "issue"@, false)),
                Err(e) => Err(e),
            },
            DeedModel::List => match repo_pair(opt(self.repo)) {
                Ok((o, n)) => Ok(plan("GET"@, repo_url(self.base@, o, n) + "/issues?state=all&limit=50"@, None, "issues"@, true)),
                Err(e) => Err(e),
            },
            DeedModel::Create => match opt(self.title) {
                Some(t) if t.len() > 0 => match repo_pair(opt(self.repo)) {
                    Ok((o, n)) => Ok(plan("POST"@, repo_url(self.base@, o, n) + "/issues"@,
                        Some(seq![("title"@, t)] + match opt(self.body) {
                            Some(b) => seq![("body"@, b)],
                            None => seq![],
                        }), "issue"@, false)),
                    Err(e) => Err(e),
                },
                _ => Err("@forgejo issue create requires --title"@),
            },
            DeedModel::Edit(id) => if opt(self.state) matches Some(s) && s != "open"@ && s != "closed"@ {
                Err("@forgejo issue edit --state must be open or closed"@)
            } else if self.title is None && self.body is None && self.state is None {
                Err("@forgejo issue edit requires --title, --body, or --state"@)
            } else {
                match target_of(id, opt(self.repo)) {
                    Ok((o, n, i)) => Ok(plan("PATCH"@, repo_url(self.base@, o, n) + "/issues/"@ + i,
                        Some(edit_fields(opt(self.title), opt(self.body), opt(self.state))), "issue"@, false)),
                    Err(e) => Err(e),
                }
            },
            DeedModel::Notes(id) => match target_of(id, opt(self.repo)) {
                Ok((o, n, i)) => Ok(plan("GET"@, repo_url(self.base@, o, n) + "/issues/"@ + i + "/comments?limit=50"@, None, "comments"@, true)),
                Err(e) => Err(e),
            },
            DeedModel::Comment(id) => match opt(self.body) {
                Some(t) if t.len() > 0 => match target_of(id, opt(self.repo)) {
                    Ok((o, n, i)) => Ok(plan("POST"@, repo_url(self.base@, o, n) + "/issues/"@ + i + "/comments"@,
                        Some(seq![("body"@, t)]), "comment"@, false)),
                    Err(e) => Err(e),
                },
                _ => Err("@forgejo issue comment create requires --body"@),
            },
        }
    }

    /// The HTTP request that the call's verb makes.
    pub fn request(&self) -> (r: Result<Request, String>)
        ensures
            match r {
                Ok(q) => self.planned() == Ok::<RequestModel, Seq<char>>(q.model()),
                Err(e) => self.planned() == Err::<RequestModel, Seq<char>>(e@),
            },
    {
        match &self.deed {
            Deed::User => {
                let mut u = owned(self.base.as_str());
                u.append("/user");
                Ok(Request { method: owned("GET"), url: u, body: None, kind: owned("user"), paged: false })
            },
            Deed::Show(id) => {
                let u = self.issue_url(id.as_str())?;
                Ok(Request { method: owned("GET"), url: u, body: None, kind: owned("issue"), paged: false })
            },
            Deed::List => {
                let mut u = self.home_url()?;
                u.append("/issues?state=all&limit=50");
                Ok(Request { method: owned("GET"), url: u, body: None, kind: owned("issues"), paged: true })
            },
            Deed::Create => {
                let title = match &self.title {
                    Some(t) => {
                        if t.as_str().unicode_len() == 0 {
                            return Err(owned("@forgejo issue create requires --title"));
                        }
                        t
                    },
                    None => {
                        return Err(owned("@forgejo issue create requires --title"));
                    },
                };
                let mut u = self.home_url()?;
                u.append("/issues");
                let mut b: Vec<(String, String)> = Vec::new();
                field(&mut b, "title", title.as_str());
                if let Some(text) = &self.body {
                    field(&mut b, "body", text.as_str());
                }
                assert(fields(b@) =~= seq![("title"@, title@)] + match opt(self.body) {
                    Some(t) => seq![("body"@, t)],
                    None => seq![],
                });
                Ok(Request { method: owned("POST"), url: u, body: Some(b), kind: owned("issue"), paged: false })
            },
            Deed::Edit(id) => {
                let mut b: Vec<(String, String)> = Vec::new();
                if let Some(t) = &self.title {
                    field(&mut b, "title", t.as_str());
                }
                if let Some(t) = &self.body {
                    field(&mut b, "body", t.as_str());
                }
                if let Some(s) = &self.state {
                    if !same(s.as_str(), "open") && !same(s.as_str(), "closed") {
                        return Err(owned("@forgejo issue edit --state must be open or closed"));
                    }
                    field(&mut b, "state", s.as_str());
                }
                assert(fields(b@) =~= edit_fields(opt(self.title), opt(self.body), opt(self.state)));
                if b.len() == 0 {
                    return Err(owned("@forgejo issue edit requires --title, --body, or --state"));
                }
                let u = self.issue_url(id.as_str())?;
                Ok(Request { method: owned("PATCH"), url: u, body: Some(b), kind: owned("issue"), paged: false })
            },
            Deed::Notes(id) => {
                let mut u = self.issue_url(id.as_str())?;
                u.append("/comments?limit=50");
                Ok(Request { method: owned("GET"), url: u, body: None, kind: owned("comments"), paged: true })
            },
            Deed::Comment(id) => {
                let text = match &self.body {
                    Some(t) => {
                        if t.as_str().unicode_len() == 0 {
                            return Err(owned("@forgejo issue comment create requires --body"));
                        }
                        t
                    },
                    None => {
                        return Err(owned("@forgejo issue comment create requires --body"));
                    },
                };
                let mut u = self.issue_url(id.as_str())?;
                u.append("/comments");
                let mut b: Vec<(String, String)> = Vec::new();
                field(&mut b, "body", text.as_str());
                assert(fields(b@) =~= seq![("body"@, text@)]);
                Ok(Request { method: owned("POST"), url: u, body: Some(b), kind: owned("comment"), paged: false })
            },
        }
    }

    /// Whether another page is fetched: the last page was full (50 rows)
    /// and the limit, if any, is not reached.
    pub fn more(&self, total: usize, count: usize) -> (r: bool)
        ensures
            r == (count >= 50 && match self.limit {
                Some(l) => total < l,
                None => true,
            }),
    {
        count >= 50 && match self.limit {
            Some(l) => total < l,
            None => true,
        }
    }
}

/// The URL of page `turn` of a list stem.
pub open spec fn page_url_of(stem: Seq<char>, turn: nat) -> Seq<char> {
    stem + "&page="@ + decimal(turn)
}

/// The URL of page `turn` of a list stem.
pub fn page_url(stem: &str, turn: u64) -> (r: String)
    ensures
        r@ == page_url_of(stem@, turn as nat),
{
    let mut u = owned(stem);
    u.append("&page=");
    let d = decimal_of(turn);
    u.append(d.as_str());
    u
}

} // verus!

verus! {

impl Call {
    /// Whether the call reaches for the repository while `--repo` named
    /// none: then the repository of the git remote `origin` is needed.
    pub fn needs_origin(&self) -> (r: bool)
        ensures
            r == (self.repo is None && self.planned() == Err::<RequestModel, Seq<char>>(no_origin())),
    {
        if self.repo.is_some() {
            return false;
        }
        match self.request() {
            Ok(_) => false,
            Err(e) => same(e.as_str(), "git remote origin is unavailable; pass --repo owner/name"),
        }
    }
}

/// What the caller does next for a `@forgejo` call.
pub enum Need {
    /// Read the token file at this path.
    TokenFile(String),
    /// Read the URL of the git remote `origin`.
    Origin,
    /// Send this request, signed with the token.
    Send(Request),
    /// Print the last reply: as the JSON envelope of `kind` with `--json`,
    /// else as lines; an array keeps at most `limit` rows.
    Emit { kind: String, json: bool, limit: Option<usize> },
}

/// What the caller reports back.
pub enum Event {
    /// The token file was read (`Some` text) or could not be (`None`).
    Token(Option<String>),
    /// `git remote get-url origin` could not run (`None`), failed
    /// (`Some(None)`) or printed this (`Some(Some(out))`).
    Origin(Option<Option<String>>),
    /// The reply to the last request; for a paged list, the number of rows
    /// when it is an array.
    Reply(Option<usize>),
}

/// Where a `@forgejo` call stands.
pub enum Phase {
    Token,
    Origin,
    Single,
    /// Fetching page `turn` of a list, with `total` rows so far.
    Paging { turn: u64, total: usize },
    Done,
}

/// A `@forgejo` call on its way.
pub struct Session {
    pub call: Call,
    pub token: Option<String>,
    pub phase: Phase,
}

/// The refusal when a token file cannot be read.
pub open spec fn unreadable(path: Seq<char>) -> Seq<char> {
    "unable to read token file "@ + path
}

impl Session {
    /// Once the token is known: fetch the remote when the verb needs it,
    /// else send the first request.
    fn proceed(call: Call, token: String) -> (r: Result<(Session, Need), String>)
        ensures
            Session::goes_on(call, token, r),
    {
        if call.needs_origin() {
            return Ok((Session { call, token: Some(token), phase: Phase::Origin }, Need::Origin));
        }
        Session::send_first(call, token)
    }

    /// How a call goes on once its token is known: to the remote when the
    /// verb reaches for a repository that `--repo` did not name, else to the
    /// first request.
    pub open spec fn goes_on(call: Call, token: String, r: Result<(Session, Need), String>) -> bool {
        if call.repo is None && call.planned() == Err::<RequestModel, Seq<char>>(no_origin()) {
            r matches Ok((s, n)) && n is Origin && s.phase is Origin && s.call == call && s.token == Some(token)
        } else {
            Session::sends(call, token, r)
        }
    }

    /// The first request of a call whose plan is known.
    pub open spec fn sends(call: Call, token: String, r: Result<(Session, Need), String>) -> bool {
        match call.planned() {
            Err(e) => r matches Err(m) && m@ == e,
            Ok(q) => {
                &&& r matches Ok((s, n))
                &&& s.call == call && s.token == Some(token)
                &&& n matches Need::Send(x)
                &&& if q.paged {
                    s.phase == (Phase::Paging { turn: 1, total: 0 }) && x.model() == RequestModel {
                        url: page_url_of(q.url, 1),
                        ..q
                    }
                } else {
                    s.phase is Single && x.model() == q
                }
            },
        }
    }

    /// Sends the first request.
    fn send_first(call: Call, token: String) -> (r: Result<(Session, Need), String>)
        ensures
            Session::sends(call, token, r),
    {
        let q = call.request()?;
        if q.paged {
            let url = page_url(q.url.as_str(), 1);
            let x = Request { url, ..q };
            Ok((Session { call, token: Some(token), phase: Phase::Paging { turn: 1, total: 0 } }, Need::Send(x)))
        } else {
            Ok((Session { call, token: Some(token), phase: Phase::Single }, Need::Send(q)))
        }
    }

    /// What the last reply leads to for a call whose requests are known.
    fn emit(call: Call, token: Option<String>) -> (r: (Session, Need))
        ensures
            Session::emits(call, Ok::<(Session, Need), String>(r)),
    {
        let kind = match call.request() {
            Ok(q) => q.kind,
            Err(_) => String::new(),
        };
        let json = call.json;
        let limit = call.limit;
        (Session { call, token, phase: Phase::Done }, Need::Emit { kind, json, limit })
    }
}

/// How a parsed call starts: with a token file, by reading it; with a token
/// at hand, as [`Session::proceed`] goes on.
pub open spec fn started(call: Call, r: Result<(Session, Need), String>) -> bool {
    match call.auth {
        Auth::File(p) => r matches Ok((s, n)) && n matches Need::TokenFile(x) && x@ == p@ && s.phase is Token
            && s.token is None && s.call == call,
        Auth::Token(t) => Session::goes_on(call, t, r),
    }
}

/// Starts a `@forgejo` call: parses it; then the token file is read, or
/// with a token at hand the call goes on.
pub fn run(argv: &[String], vars: &Table<String>) -> (r: Result<(Session, Need), String>)
    ensures
        r matches Ok((s, n)) ==> parse_spec(views(argv@), vars@, Ok::<Call, String>(s.call)) && started(s.call, r),
        r matches Err(e) ==> parse_spec(views(argv@), vars@, Err::<Call, String>(e)) || exists|c: Call|
            parse_spec(views(argv@), vars@, Ok::<Call, String>(c)) && #[trigger] started(c, r),
{
    let call = Call::parse(argv, vars)?;
    match &call.auth {
        Auth::File(p) => {
            let path = p.clone();
            Ok((Session { call, token: None, phase: Phase::Token }, Need::TokenFile(path)))
        },
        Auth::Token(t) => {
            let token = t.clone();
            let ghost c = call;
            let r = Session::proceed(call, token);
            assert(started(c, r));
            r
        },
    }
}


impl Session {
    /// Whether an event answers what the session asked for.
    pub open spec fn expects(&self, e: Event) -> bool {
        match self.phase {
            Phase::Token => e is Token && self.call.auth is File,
            Phase::Origin => e is Origin && self.token is Some,
            Phase::Single => e is Reply,
            Phase::Paging { .. } => e is Reply && self.token is Some && (self.call.planned() matches Ok(q) && q.paged),
            Phase::Done => false,
        }
    }

    /// The printing step of a call.
    pub open spec fn emits(call: Call, r: Result<(Session, Need), String>) -> bool {
        &&& r matches Ok((s, n))
        &&& s.phase is Done && s.call == call
        &&& n matches Need::Emit { kind, json, limit }
        &&& (call.planned() matches Ok(q) ==> kind@ == q.kind)
        &&& json == call.json && limit == call.limit
    }

    /// The request of page `turn` of a call's list.
    pub open spec fn page_need(call: Call, turn: nat, n: Need) -> bool {
        &&& n matches Need::Send(x)
        &&& call.planned() matches Ok(q)
        &&& x.model() == RequestModel { url: page_url_of(q.url, turn), ..q }
    }

    /// The next step once the caller reports `e`.
    pub open spec fn stepped(self, e: Event, r: Result<(Session, Need), String>) -> bool {
        match self.phase {
            Phase::Token => match (e, self.call.auth) {
                (Event::Token(None), Auth::File(p)) => r matches Err(m) && m@ == unreadable(p@),
                (Event::Token(Some(t)), Auth::File(p)) => match token_of(t@, p@) {
                    Err(x) => r matches Err(m) && m@ == x,
                    Ok(k) => exists|tk: String| tk@ == k && #[trigger] Session::goes_on(self.call, tk, r),
                },
                _ => true,
            },
            Phase::Origin => match e {
                Event::Origin(None) => r matches Err(m) && m@ == "failed to read git remote origin"@,
                Event::Origin(Some(None)) => r matches Err(m) && m@ == no_origin(),
                Event::Origin(Some(Some(out))) => match peel_of(out@) {
                    Err(x) => r matches Err(m) && m@ == x,
                    Ok(repo) => exists|c: Call| c == (Call { repo: Some(c.repo->0), ..self.call }) && c.repo->0@ == repo
                        && #[trigger] Session::sends(c, self.token->0, r),
                },
                _ => true,
            },
            Phase::Single => Session::emits(self.call, r),
            Phase::Paging { turn, total } => match e {
                Event::Reply(None) => r matches Err(m) && m@ == "forgejo list did not return an array"@,
                Event::Reply(Some(count)) => {
                    let sum = if total + count <= usize::MAX { total + count } else { usize::MAX as int };
                    let more = count >= 50 && match self.call.limit {
                        Some(l) => sum < l,
                        None => true,
                    };
                    if more {
                        let next = if turn < u64::MAX { turn + 1 } else { turn as int };
                        {
                            &&& r matches Ok((s, n))
                            &&& s.call == self.call && s.token == self.token
                            &&& s.phase == (Phase::Paging { turn: next as u64, total: sum as usize })
                            &&& Session::page_need(self.call, next as nat, n)
                        }
                    } else {
                        Session::emits(self.call, r)
                    }
                },
                _ => true,
            },
            Phase::Done => true,
        }
    }

    /// The next step once the caller reports `e`.
    pub fn next(self, e: Event) -> (r: Result<(Session, Need), String>)
        requires
            self.expects(e),
        ensures
            self.stepped(e, r),
    {
        let ghost old = self;
        let Session { call, token, phase } = self;
        match phase {
            Phase::Token => {
                let path = match &call.auth {
                    Auth::File(p) => p.clone(),
                    Auth::Token(t) => t.clone(),
                };
                match e {
                    Event::Token(None) => {
                        let mut m = owned("unable to read token file ");
                        m.append(path.as_str());
                        Err(m)
                    },
                    Event::Token(Some(t)) => {
                        let k = load(t.as_str(), path.as_str())?;
                        let ghost kk = k;
                        let r = Session::proceed(call, k);
                        assert(Session::goes_on(old.call, kk, r));
                        r
                    },
                    _ => Err(String::new()),
                }
            },
            Phase::Origin => {
                let tk = match token {
                    Some(t) => t,
                    None => String::new(),
                };
                match e {
                    Event::Origin(None) => Err(owned("failed to read git remote origin")),
                    Event::Origin(Some(None)) => Err(owned("git remote origin is unavailable; pass --repo owner/name")),
                    Event::Origin(Some(Some(out))) => {
                        let repo = peel(out.as_str())?;
                        let c = Call { repo: Some(repo), ..call };
                        let ghost cc = c;
                        let r = Session::send_first(c, tk);
                        assert(Session::sends(cc, old.token->0, r));
                        r
                    },
                    _ => Err(String::new()),
                }
            },
            Phase::Single => Ok(Session::emit(call, token)),
            Phase::Paging { turn, total } => match e {
                Event::Reply(None) => Err(owned("forgejo list did not return an array")),
                Event::Reply(Some(count)) => {
                    let sum = if total <= usize::MAX - count { total + count } else { usize::MAX };
                    if call.more(sum, count) {
                        let next = if turn < u64::MAX { turn + 1 } else { turn };
                        let q = call.request()?;
                        let url = page_url(q.url.as_str(), next);
                        let x = Request { url, ..q };
                        Ok((Session { call, token, phase: Phase::Paging { turn: next, total: sum } }, Need::Send(x)))
                    } else {
                        Ok(Session::emit(call, token))
                    }
                },
                _ => Err(String::new()),
            },
            Phase::Done => Err(String::new()),
        }
    }
}

} // verus!

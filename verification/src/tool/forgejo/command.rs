//! The `@tool forgejo` commands: repositories, pull requests and their
//! guard, Actions secrets and variables, workflow dispatch and runs.
use vstd::prelude::*;

use crate::reply::json_parses;
use super::seat::{fields, parses, Body, BodyModel, Field, FieldModel};
use crate::json::{first_line, member, Json, Kind};
use crate::table::Table;
use crate::text::{
    decimal, decimal_of, lemma_lookup_concat, lemma_lookup_one, lookup, number, owned, parse_u64, parse_usize, rest_from, same, split, split_by, split_once,
    split_once_at, strip_prefix, strip_prefix_of, views, alnum, is_alnum,
};
use crate::tool::cloudflare::command::{option_of, optional_option, required_of, required_option, texts};

verus! {

/// A character allowed in a Forgejo path atom: ASCII letters and digits,
/// `-`, `_` and `.`.
pub open spec fn atom_char(c: char) -> bool {
    alnum(c) || c == '-' || c == '_' || c == '.'
}

/// A Forgejo path atom.
pub open spec fn atom_of(v: Seq<char>) -> bool {
    forall|i: int| 0 <= i < v.len() ==> atom_char(#[trigger] v[i])
}

/// Refuses a value that is not a path atom.
pub fn atom(value: &str) -> (r: Result<(), String>)
    ensures
        r is Ok <==> atom_of(value@),
        r matches Err(e) ==> e@ == "invalid Forgejo path atom: "@ + value@,
{
    let n = value.unicode_len();
    let mut i: usize = 0;
    while i < n
        invariant
            n == value@.len(),
            i <= n,
            forall|j: int| 0 <= j < i ==> atom_char(#[trigger] value@[j]),
        decreases n - i,
    {
        let c = value.get_char(i);
        if !(is_alnum(c) || c == '-' || c == '_' || c == '.') {
            let mut e = owned("invalid Forgejo path atom: ");
            e.append(value);
            return Err(e);
        }
        i += 1;
    }
    Ok(())
}

/// A repository named by `--repo`.
pub struct Repo {
    pub owner: String,
    pub name: String,
}

/// `owner/name`, exactly two non-empty atoms.
pub open spec fn repo_of(value: Seq<char>) -> Result<(Seq<char>, Seq<char>), Seq<char>> {
    let parts = split(value, "/"@);
    if parts.len() != 2 || parts[0].len() == 0 || parts[1].len() == 0 {
        Err("--repo expects owner/name"@)
    } else if !atom_of(parts[0]) {
        Err("invalid Forgejo path atom: "@ + parts[0])
    } else if !atom_of(parts[1]) {
        Err("invalid Forgejo path atom: "@ + parts[1])
    } else {
        Ok((parts[0], parts[1]))
    }
}

/// The API path under a repository.
pub open spec fn repo_path(owner: Seq<char>, name: Seq<char>, suffix: Seq<char>) -> Seq<char> {
    if suffix.len() == 0 {
        "/repos/"@ + owner + "/"@ + name
    } else {
        "/repos/"@ + owner + "/"@ + name + "/"@ + suffix
    }
}

impl Repo {
    /// Reads `owner/name`.
    pub fn parse(value: &str) -> (r: Result<Self, String>)
        ensures
            match repo_of(value@) {
                Ok((o, n)) => r matches Ok(x) && x.owner@ == o && x.name@ == n,
                Err(e) => r matches Err(m) && m@ == e,
            },
    {
        proof {
            reveal_strlit("/");
        }
        let parts = split_by(value, "/");
        let ghost v = views(parts@);
        if parts.len() >= 1 {
            assert(v[0] == parts@[0]@);
        }
        if parts.len() >= 2 {
            assert(v[1] == parts@[1]@);
        }
        if parts.len() != 2 || parts[0].as_str().unicode_len() == 0 || parts[1].as_str().unicode_len() == 0 {
            return Err(owned("--repo expects owner/name"));
        }
        atom(parts[0].as_str())?;
        atom(parts[1].as_str())?;
        Ok(Repo { owner: parts[0].clone(), name: parts[1].clone() })
    }

    /// The API path under the repository.
    pub fn path(&self, suffix: &str) -> (r: String)
        ensures
            r@ == repo_path(self.owner@, self.name@, suffix@),
    {
        let mut out = owned("/repos/");
        out.append(self.owner.as_str());
        out.append("/");
        out.append(self.name.as_str());
        if suffix.unicode_len() > 0 {
            out.append("/");
            out.append(suffix);
        }
        out
    }
}

/// Every value of option `name` from index `i` on: the argument after each
/// exact `name` (the pair is skipped), and the rest of each `name=value`.
pub open spec fn values_from(a: Seq<Seq<char>>, name: Seq<char>, i: int) -> Seq<Seq<char>>
    decreases a.len() - i,
{
    if i < 0 || i >= a.len() {
        seq![]
    } else if a[i] == name {
        if i + 1 < a.len() {
            seq![a[i + 1]] + values_from(a, name, i + 2)
        } else {
            seq![]
        }
    } else {
        match strip_prefix(a[i], name + "="@) {
            Some(v) => seq![v] + values_from(a, name, i + 1),
            None => values_from(a, name, i + 1),
        }
    }
}

/// Every value of option `name`.
pub fn values(args: &[String], name: &str) -> (r: Vec<String>)
    ensures
        views(r@) == values_from(views(args@), name@, 0),
{
    let ghost a = views(args@);
    let mut prefix = owned(name);
    prefix.append("=");
    let mut out: Vec<String> = Vec::new();
    let mut index: usize = 0;
    while index < args.len()
        invariant
            a == views(args@),
            prefix@ == name@ + "="@,
            values_from(a, name@, 0) == views(out@) + values_from(a, name@, index as int),
        decreases args.len() - index,
    {
        assert(a[index as int] == args@[index as int]@);
        let ghost before = views(out@);
        if same(args[index].as_str(), name) {
            if index + 1 < args.len() {
                assert(a[index + 1] == args@[index + 1]@);
                out.push(args[index + 1].clone());
                assert(views(out@) =~= before.push(a[index + 1]));
                assert(before + (seq![a[index + 1]] + values_from(a, name@, index + 2)) =~= before.push(a[index + 1])
                    + values_from(a, name@, index + 2));
            } else {
                assert(values_from(a, name@, args.len() as int) == Seq::<Seq<char>>::empty());
                assert(before + seq![] =~= before + values_from(a, name@, args.len() as int));
            }
            index = if index + 1 < args.len() { index + 2 } else { args.len() };
            continue;
        }
        if let Some(v) = strip_prefix_of(args[index].as_str(), prefix.as_str()) {
            let ghost t = v@;
            out.push(v);
            assert(views(out@) =~= before.push(t));
            assert(before + (seq![t] + values_from(a, name@, index + 1)) =~= before.push(t) + values_from(a, name@, index + 1));
        }
        index += 1;
    }
    assert(views(out@) + seq![] =~= views(out@));
    out
}

/// A flag read as `true` or `false` from its value.
pub open spec fn flag_of(a: Seq<Seq<char>>, name: Seq<char>) -> Result<Option<bool>, Seq<char>> {
    match option_of(a, name) {
        None => Ok(None),
        Some(v) => if v == "true"@ {
            Ok(Some(true))
        } else if v == "false"@ {
            Ok(Some(false))
        } else {
            Err(name + " expects true or false"@)
        },
    }
}

/// A flag read as `true` or `false` from its value.
pub fn flag(args: &[String], name: &str) -> (r: Result<Option<bool>, String>)
    ensures
        match flag_of(views(args@), name@) {
            Ok(b) => r == Ok::<Option<bool>, String>(b),
            Err(e) => r matches Err(m) && m@ == e,
        },
{
    match optional_option(args, name) {
        None => Ok(None),
        Some(v) => {
            if same(v.as_str(), "true") {
                Ok(Some(true))
            } else if same(v.as_str(), "false") {
                Ok(Some(false))
            } else {
                let mut e = owned(name);
                e.append(" expects true or false");
                Err(e)
            }
        },
    }
}

/// A required option read as an unsigned integer.
pub open spec fn integer_of(a: Seq<Seq<char>>, name: Seq<char>) -> Result<nat, Seq<char>> {
    match required_of(a, name) {
        Err(e) => Err(e),
        Ok(v) => match number(v) {
            Some(n) => if n <= u64::MAX {
                Ok(n)
            } else {
                Err(name + " expects an integer"@)
            },
            None => Err(name + " expects an integer"@),
        },
    }
}

/// A required option read as an unsigned integer.
pub fn integer(args: &[String], name: &str) -> (r: Result<u64, String>)
    ensures
        match integer_of(views(args@), name@) {
            Ok(n) => r == Ok::<u64, String>(n as u64),
            Err(e) => r matches Err(m) && m@ == e,
        },
{
    let v = required_option(args, name)?;
    match parse_u64(v.as_str()) {
        Some(n) => Ok(n),
        None => {
            let mut e = owned(name);
            e.append(" expects an integer");
            Err(e)
        },
    }
}

/// An optional number of seconds, else the default.
pub open spec fn seconds_of(a: Seq<Seq<char>>, name: Seq<char>, default: nat) -> Result<nat, Seq<char>> {
    match option_of(a, name) {
        None => Ok(default),
        Some(v) => match number(v) {
            Some(n) => if n <= u64::MAX {
                Ok(n)
            } else {
                Err(name + " expects seconds"@)
            },
            None => Err(name + " expects seconds"@),
        },
    }
}

/// An optional number of seconds, else the default.
pub fn seconds(args: &[String], name: &str, default: u64) -> (r: Result<u64, String>)
    ensures
        match seconds_of(views(args@), name@, default as nat) {
            Ok(n) => r == Ok::<u64, String>(n as u64),
            Err(e) => r matches Err(m) && m@ == e,
        },
{
    match optional_option(args, name) {
        None => Ok(default),
        Some(v) => match parse_u64(v.as_str()) {
            Some(n) => Ok(n),
            None => {
                let mut e = owned(name);
                e.append(" expects seconds");
                Err(e)
            },
        },
    }
}

/// Where a secret or variable value comes from.
pub enum Content {
    Given(String),
    Env(String),
    File(String),
}

/// Where the value comes from: exactly one of `--value`, `--value-env`
/// and `--value-file` (tagged 0, 1, 2 with its text).
pub open spec fn content_of(a: Seq<Seq<char>>) -> Result<(u8, Seq<char>), Seq<char>> {
    match (option_of(a, "--value"@), option_of(a, "--value-env"@), option_of(a, "--value-file"@)) {
        (Some(v), None, None) => Ok((0, v)),
        (None, Some(n), None) => Ok((1, n)),
        (None, None, Some(p)) => Ok((2, p)),
        _ => Err("pass exactly one of --value, --value-env, or --value-file"@),
    }
}

impl Content {
    /// The source as a tag and its text.
    pub open spec fn view_of(&self) -> (u8, Seq<char>) {
        match self {
            Content::Given(v) => (0, v@),
            Content::Env(n) => (1, n@),
            Content::File(p) => (2, p@),
        }
    }
}

/// Where the value comes from.
pub fn content(args: &[String]) -> (r: Result<Content, String>)
    ensures
        match content_of(views(args@)) {
            Ok(c) => r matches Ok(x) && x.view_of() == c,
            Err(e) => r matches Err(m) && m@ == e,
        },
{
    let value = optional_option(args, "--value");
    let env = optional_option(args, "--value-env");
    let file = optional_option(args, "--value-file");
    match (value, env, file) {
        (Some(v), None, None) => Ok(Content::Given(v)),
        (None, Some(n), None) => Ok(Content::Env(n)),
        (None, None, Some(p)) => Ok(Content::File(p)),
        _ => Err(owned("pass exactly one of --value, --value-env, or --value-file")),
    }
}

/// The workflow inputs of `--input key=value` (each split at its first
/// `=`; a later key wins).
pub open spec fn inputs_from(v: Seq<Seq<char>>, acc: Map<Seq<char>, Seq<char>>) -> Result<Map<Seq<char>, Seq<char>>, Seq<char>>
    decreases v.len(),
{
    if v.len() == 0 {
        Ok(acc)
    } else {
        match split_once(v[0], "="@) {
            Some((k, x)) => inputs_from(v.drop_first(), acc.insert(k, x)),
            None => Err("--input expects key=value"@),
        }
    }
}

/// The workflow inputs.
pub fn inputs(args: &[String]) -> (r: Result<Table<String>, String>)
    ensures
        match inputs_from(values_from(views(args@), "--input"@, 0), Map::empty()) {
            Ok(m) => r matches Ok(t) && texts(t@) == m,
            Err(e) => r matches Err(x) && x@ == e,
        },
{
    let given = values(args, "--input");
    let mut held: Table<String> = Table::new();
    assert(texts(held@) =~= Map::empty());
    assert(views(given@).skip(0) =~= views(given@));
    let mut i: usize = 0;
    while i < given.len()
        invariant
            i <= given@.len(),
            inputs_from(values_from(views(args@), "--input"@, 0), Map::empty()) == inputs_from(views(given@).skip(i as int),
                texts(held@)),
            views(given@) == values_from(views(args@), "--input"@, 0),
        decreases given@.len() - i,
    {
        let ghost rest = views(given@).skip(i as int);
        assert(rest[0] == given@[i as int]@);
        assert(rest.drop_first() =~= views(given@).skip(i + 1));
        match split_once_at(given[i].as_str(), "=") {
            Some((k, x)) => {
                let ghost before = texts(held@);
                let ghost kv = k@;
                let ghost xv = x@;
                held.insert(k, x);
                assert(texts(held@) =~= before.insert(kv, xv));
            },
            None => {
                return Err(owned("--input expects key=value"));
            },
        }
        i += 1;
    }
    assert(views(given@).skip(given@.len() as int) =~= seq![]);
    Ok(held)
}


/// One request of the Forgejo API.
pub struct Ask {
    pub method: String,
    pub path: String,
    pub query: Vec<(String, String)>,
    pub body: Option<Body>,
}

/// One request, in text.
pub struct AskModel {
    pub method: Seq<char>,
    pub path: Seq<char>,
    pub query: Seq<(Seq<char>, Seq<char>)>,
    pub body: Option<BodyModel>,
}

/// The text of query pairs.
pub open spec fn pairs_view(v: Seq<(String, String)>) -> Seq<(Seq<char>, Seq<char>)> {
    v.map_values(|p: (String, String)| (p.0@, p.1@))
}

impl Ask {
    /// The request in text.
    pub open spec fn model(&self) -> AskModel {
        AskModel {
            method: self.method@,
            path: self.path@,
            query: pairs_view(self.query@),
            body: match self.body {
                Some(b) => Some(b.model()),
                None => None,
            },
        }
    }
}

/// A request model from its parts.
pub open spec fn ask_of(method: Seq<char>, path: Seq<char>, query: Seq<(Seq<char>, Seq<char>)>, body: Option<BodyModel>) -> AskModel {
    AskModel { method, path, query, body }
}

/// What a `@tool forgejo` command does.
pub enum Order {
    /// One request; its reply is printed.
    Send(Ask),
    /// List the open pull requests, and print the one with this head and
    /// base branch (`null` when none): see [`find_pull`].
    Find { list: Ask, head: String, base: String },
    /// Wait for the guard workflow run of a pull request's head.
    Guard { repo: Repo, number: u64, workflow: String, interval: u64, timeout: u64 },
    /// Put a secret or variable: `{key: value}` at `path`. A secret is put
    /// (`PUT`) with its value source known now; a variable is put when the
    /// path already exists (`PUT`), else created (`POST`), and its value
    /// source is read after that probe.
    Upsert { path: String, key: String, early: Option<Content> },
    /// Dispatch a workflow on `git` with these inputs.
    Dispatch { path: String, git: String, inputs: Table<String> },
    /// List runs, keeping at most `limit` of the reply's `workflow_runs`.
    List { ask: Ask, limit: usize },
    /// Poll a run until it ends.
    Watch { path: String, id: u64, interval: u64, timeout: u64 },
}

/// What a command does, in text.
pub enum OrderModel {
    Send(AskModel),
    Find { list: AskModel, head: Seq<char>, base: Seq<char> },
    Guard { owner: Seq<char>, name: Seq<char>, number: nat, workflow: Seq<char>, interval: nat, timeout: nat },
    Upsert { path: Seq<char>, key: Seq<char>, early: Option<(u8, Seq<char>)> },
    Dispatch { path: Seq<char>, git: Seq<char>, inputs: Map<Seq<char>, Seq<char>> },
    List { ask: AskModel, limit: nat },
    Watch { path: Seq<char>, id: nat, interval: nat, timeout: nat },
}

impl Order {
    /// The command in text.
    pub open spec fn model(&self) -> OrderModel {
        match self {
            Order::Send(a) => OrderModel::Send(a.model()),
            Order::Find { list, head, base } => OrderModel::Find { list: list.model(), head: head@, base: base@ },
            Order::Guard { repo, number, workflow, interval, timeout } => OrderModel::Guard {
                owner: repo.owner@,
                name: repo.name@,
                number: *number as nat,
                workflow: workflow@,
                interval: *interval as nat,
                timeout: *timeout as nat,
            },
            Order::Upsert { path, key, early } => OrderModel::Upsert {
                path: path@,
                key: key@,
                early: match early {
                    Some(c) => Some(c.view_of()),
                    None => None,
                },
            },
            Order::Dispatch { path, git, inputs } => OrderModel::Dispatch { path: path@, git: git@, inputs: texts(inputs@) },
            Order::List { ask, limit } => OrderModel::List { ask: ask.model(), limit: *limit as nat },
            Order::Watch { path, id, interval, timeout } => OrderModel::Watch {
                path: path@,
                id: *id as nat,
                interval: *interval as nat,
                timeout: *timeout as nat,
            },
        }
    }
}

/// Whether a result is the decided one.
pub open spec fn meets(r: Result<Order, String>, m: Result<OrderModel, Seq<char>>) -> bool {
    match r {
        Ok(o) => m == Ok::<OrderModel, Seq<char>>(o.model()),
        Err(e) => m == Err::<OrderModel, Seq<char>>(e@),
    }
}

/// A GET of a path.
pub open spec fn get_of(path: Seq<char>) -> OrderModel {
    OrderModel::Send(ask_of("GET"@, path, seq![], None))
}

/// `repo create`.
pub open spec fn create_of(a: Seq<Seq<char>>) -> Result<OrderModel, Seq<char>> {
    match required_of(a, "--owner"@) {
        Err(e) => Err(e),
        Ok(owner) => match required_of(a, "--name"@) {
            Err(e) => Err(e),
            Ok(name) => if owner != "@me"@ && !atom_of(owner) {
                Err("invalid Forgejo path atom: "@ + owner)
            } else if !atom_of(name) {
                Err("invalid Forgejo path atom: "@ + name)
            } else {
                match flag_of(a, "--private"@) {
                    Err(e) => Err(e),
                    Ok(private) => Ok(OrderModel::Send(ask_of("POST"@, if owner == "@me"@ {
                        "/user/repos"@
                    } else {
                        "/orgs/"@ + owner + "/repos"@
                    }, seq![], Some(BodyModel::Object(seq![("name"@, FieldModel::Text(name)),
                        ("private"@, FieldModel::Flag(private == Some(true))), ("auto_init"@, FieldModel::Flag(false))]
                        + match option_of(a, "--description"@) {
                        Some(d) => seq![("description"@, FieldModel::Text(d))],
                        None => seq![],
                    }))))),
                }
            },
        },
    }
}

/// `repo get|create`.
pub open spec fn repo_cmd_of(a: Seq<Seq<char>>) -> Result<OrderModel, Seq<char>> {
    if a.len() >= 1 && a[0] == "get"@ {
        match required_of(a.skip(1), "--repo"@) {
            Err(e) => Err(e),
            Ok(t) => match repo_of(t) {
                Err(e) => Err(e),
                Ok((o, n)) => Ok(get_of(repo_path(o, n, seq![]))),
            },
        }
    } else if a.len() >= 1 && a[0] == "create"@ {
        create_of(a.skip(1))
    } else {
        Err("usage: runseal @tool forgejo repo get|create ..."@)
    }
}

/// The repository of `--repo`.
pub open spec fn target_of(a: Seq<Seq<char>>) -> Result<(Seq<char>, Seq<char>), Seq<char>> {
    match required_of(a, "--repo"@) {
        Err(e) => Err(e),
        Ok(t) => repo_of(t),
    }
}

/// `pr find|create|get|merge|guard` after the verb.
pub open spec fn pr_verb_of(verb: Seq<char>, a: Seq<Seq<char>>) -> Result<OrderModel, Seq<char>> {
    match target_of(a) {
        Err(e) => if verb == "find"@ || verb == "create"@ || verb == "get"@ || verb == "merge"@ || verb == "guard"@ {
            Err(e)
        } else {
            Err("usage: runseal @tool forgejo pr find|create|get|merge|guard ..."@)
        },
        Ok((o, n)) => if verb == "find"@ {
            match required_of(a, "--head"@) {
                Err(e) => Err(e),
                Ok(head) => match required_of(a, "--base"@) {
                    Err(e) => Err(e),
                    Ok(base) => Ok(OrderModel::Find {
                        list: ask_of("GET"@, repo_path(o, n, "pulls"@), seq![("state"@, "open"@), ("limit"@, "50"@)], None),
                        head,
                        base,
                    }),
                },
            }
        } else if verb == "create"@ {
            match required_of(a, "--head"@) {
                Err(e) => Err(e),
                Ok(head) => match required_of(a, "--base"@) {
                    Err(e) => Err(e),
                    Ok(base) => match required_of(a, "--title"@) {
                        Err(e) => Err(e),
                        Ok(title) => Ok(OrderModel::Send(ask_of("POST"@, repo_path(o, n, "pulls"@), seq![],
                            Some(BodyModel::Object(seq![("head"@, FieldModel::Text(head)), ("base"@, FieldModel::Text(base)),
                                ("title"@, FieldModel::Text(title))] + match option_of(a, "--body"@) {
                                Some(b) => seq![("body"@, FieldModel::Text(b))],
                                None => seq![],
                            }))))),
                    },
                },
            }
        } else if verb == "get"@ {
            match integer_of(a, "--number"@) {
                Err(e) => Err(e),
                Ok(k) => Ok(get_of(repo_path(o, n, "pulls/"@ + decimal(k)))),
            }
        } else if verb == "merge"@ {
            match integer_of(a, "--number"@) {
                Err(e) => Err(e),
                Ok(k) => match flag_of(a, "--delete-branch"@) {
                    Err(e) => Err(e),
                    Ok(drop) => match required_of(a, "--head"@) {
                        Err(e) => Err(e),
                        Ok(head) => Ok(OrderModel::Send(ask_of("POST"@, repo_path(o, n, "pulls/"@ + decimal(k) + "/merge"@),
                            seq![], Some(BodyModel::Object(seq![("Do"@, FieldModel::Text("squash"@)),
                                ("delete_branch_after_merge"@, FieldModel::Flag(drop != Some(false))),
                                ("head_commit_id"@, FieldModel::Text(head))]))))),
                    },
                },
            }
        } else if verb == "guard"@ {
            match integer_of(a, "--number"@) {
                Err(e) => Err(e),
                Ok(k) => match seconds_of(a, "--interval"@, 5) {
                    Err(e) => Err(e),
                    Ok(i) => match seconds_of(a, "--timeout"@, 1800) {
                        Err(e) => Err(e),
                        Ok(t) => Ok(OrderModel::Guard {
                            owner: o,
                            name: n,
                            number: k,
                            workflow: match option_of(a, "--workflow"@) {
                                Some(w) => w,
                                None => "guard.yml"@,
                            },
                            interval: i,
                            timeout: t,
                        }),
                    },
                },
            }
        } else {
            Err("usage: runseal @tool forgejo pr find|create|get|merge|guard ..."@)
        },
    }
}

/// `pr find|create|get|merge|guard`.
pub open spec fn pr_cmd_of(a: Seq<Seq<char>>) -> Result<OrderModel, Seq<char>> {
    if a.len() == 0 || !(a[0] == "find"@ || a[0] == "create"@ || a[0] == "get"@ || a[0] == "merge"@ || a[0] == "guard"@) {
        Err("usage: runseal @tool forgejo pr find|create|get|merge|guard ..."@)
    } else {
        pr_verb_of(a[0], a.skip(1))
    }
}

/// `secret upsert` and `variable upsert`.
pub open spec fn upsert_of(group: Seq<char>, a: Seq<Seq<char>>) -> Result<OrderModel, Seq<char>> {
    if a.len() == 0 || a[0] != "upsert"@ {
        Err("usage: runseal @tool forgejo "@ + group + " upsert ..."@)
    } else {
        let r = a.skip(1);
        match target_of(r) {
            Err(e) => Err(e),
            Ok((o, n)) => match required_of(r, "--name"@) {
                Err(e) => Err(e),
                Ok(name) => if !atom_of(name) {
                    Err("invalid Forgejo path atom: "@ + name)
                } else if group == "secret"@ {
                    match content_of(r) {
                        Err(e) => Err(e),
                        Ok(c) => Ok(OrderModel::Upsert {
                            path: repo_path(o, n, "actions/secrets/"@ + name),
                            key: "data"@,
                            early: Some(c),
                        }),
                    }
                } else {
                    Ok(OrderModel::Upsert { path: repo_path(o, n, "actions/variables/"@ + name), key: "value"@, early: None })
                },
            },
        }
    }
}

/// `workflow dispatch`.
pub open spec fn workflow_cmd_of(a: Seq<Seq<char>>) -> Result<OrderModel, Seq<char>> {
    if a.len() == 0 || a[0] != "dispatch"@ {
        Err("usage: runseal @tool forgejo workflow dispatch ..."@)
    } else {
        let r = a.skip(1);
        match target_of(r) {
            Err(e) => Err(e),
            Ok((o, n)) => match required_of(r, "--workflow"@) {
                Err(e) => Err(e),
                Ok(w) => if !atom_of(w) {
                    Err("invalid Forgejo path atom: "@ + w)
                } else {
                    match required_of(r, "--ref"@) {
                        Err(e) => Err(e),
                        Ok(git) => match inputs_from(values_from(r, "--input"@, 0), Map::empty()) {
                            Err(e) => Err(e),
                            Ok(m) => Ok(OrderModel::Dispatch {
                                path: repo_path(o, n, "actions/workflows/"@ + w + "/dispatches"@),
                                git,
                                inputs: m,
                            }),
                        },
                    }
                },
            },
        }
    }
}

/// The filters of `run list` from index `i` of the flag table on.
pub open spec fn run_filters(a: Seq<Seq<char>>) -> Seq<(Seq<char>, Seq<char>)> {
    let opt = |flag: Seq<char>, key: Seq<char>| match option_of(a, flag) {
        Some(v) => seq![(key, v)],
        None => seq![],
    };
    opt("--event"@, "event"@) + opt("--status"@, "status"@) + opt("--sha"@, "head_sha"@) + opt("--ref"@, "ref"@) + opt(
        "--workflow"@,
        "workflow_id"@,
    ) + opt("--number"@, "run_number"@)
}

/// `run list`.
pub open spec fn runs_of(a: Seq<Seq<char>>) -> Result<OrderModel, Seq<char>> {
    match target_of(a) {
        Err(e) => Err(e),
        Ok((o, n)) => {
            let limit: Result<nat, Seq<char>> = match option_of(a, "--limit"@) {
                None => Ok(20),
                Some(v) => match number(v) {
                    Some(k) => if k <= usize::MAX {
                        Ok(k)
                    } else {
                        Err("--limit expects an integer"@)
                    },
                    None => Err("--limit expects an integer"@),
                },
            };
            match limit {
                Err(e) => Err(e),
                Ok(l) => if l == 0 {
                    Err("--limit expects a positive integer"@)
                } else {
                    Ok(OrderModel::List {
                        ask: ask_of("GET"@, repo_path(o, n, "actions/runs"@), run_filters(a) + seq![("limit"@, decimal(l))], None),
                        limit: l,
                    })
                },
            }
        },
    }
}

/// `run list|get|watch|cancel`.
pub open spec fn run_cmd_of(a: Seq<Seq<char>>) -> Result<OrderModel, Seq<char>> {
    if a.len() >= 1 && a[0] == "list"@ {
        runs_of(a.skip(1))
    } else if a.len() >= 1 && (a[0] == "get"@ || a[0] == "watch"@) {
        let r = a.skip(1);
        match target_of(r) {
            Err(e) => Err(e),
            Ok((o, n)) => match integer_of(r, "--id"@) {
                Err(e) => Err(e),
                Ok(id) => if a[0] == "get"@ {
                    Ok(get_of(repo_path(o, n, "actions/runs/"@ + decimal(id))))
                } else {
                    match seconds_of(r, "--interval"@, 10) {
                        Err(e) => Err(e),
                        Ok(i) => match seconds_of(r, "--timeout"@, 3600) {
                            Err(e) => Err(e),
                            Ok(t) => Ok(OrderModel::Watch {
                                path: repo_path(o, n, "actions/runs/"@ + decimal(id)),
                                id,
                                interval: i,
                                timeout: t,
                            }),
                        },
                    }
                },
            },
        }
    } else if a.len() >= 1 && a[0] == "cancel"@ {
        Err("Forgejo v15 has no supported workflow cancel API"@)
    } else {
        Err("usage: runseal @tool forgejo run list|get|watch|cancel ..."@)
    }
}

/// What `@tool forgejo COMMAND ARGS...` does.
pub open spec fn eval_of(command: Seq<char>, a: Seq<Seq<char>>) -> Result<OrderModel, Seq<char>> {
    if command == "repo"@ {
        repo_cmd_of(a)
    } else if command == "pr"@ {
        pr_cmd_of(a)
    } else if command == "secret"@ {
        upsert_of("secret"@, a)
    } else if command == "variable"@ {
        upsert_of("variable"@, a)
    } else if command == "workflow"@ {
        workflow_cmd_of(a)
    } else if command == "run"@ {
        run_cmd_of(a)
    } else {
        Err("unknown tool command: forgejo "@ + command)
    }
}

/// The repository of `--repo`.
fn target(a: &[String]) -> (r: Result<Repo, String>)
    ensures
        match target_of(views(a@)) {
            Ok((o, n)) => r matches Ok(x) && x.owner@ == o && x.name@ == n,
            Err(e) => r matches Err(m) && m@ == e,
        },
{
    let t = required_option(a, "--repo")?;
    Repo::parse(t.as_str())
}

/// A GET of a path.
fn get(path: String) -> (r: Result<Order, String>)
    ensures
        meets(r, Ok(get_of(path@))),
{
    let q: Vec<(String, String)> = Vec::new();
    assert(pairs_view(q@) =~= seq![]);
    Ok(Order::Send(Ask { method: owned("GET"), path, query: q, body: None }))
}

/// A request with a body and no query.
fn with_body(method: &str, path: String, v: Vec<(String, Field)>) -> (r: Result<Order, String>)
    ensures
        meets(r, Ok(OrderModel::Send(ask_of(method@, path@, seq![], Some(BodyModel::Object(fields(v@))))))),
{
    let q: Vec<(String, String)> = Vec::new();
    assert(pairs_view(q@) =~= seq![]);
    Ok(Order::Send(Ask { method: owned(method), path, query: q, body: Some(Body::Object(v)) }))
}

fn create(a: &[String]) -> (r: Result<Order, String>)
    ensures
        meets(r, create_of(views(a@))),
{
    let owner = required_option(a, "--owner")?;
    let name = required_option(a, "--name")?;
    if !same(owner.as_str(), "@me") {
        atom(owner.as_str())?;
    }
    atom(name.as_str())?;
    let private = match flag(a, "--private")? {
        Some(b) => b,
        None => false,
    };
    let path = if same(owner.as_str(), "@me") {
        owned("/user/repos")
    } else {
        let mut p = owned("/orgs/");
        p.append(owner.as_str());
        p.append("/repos");
        p
    };
    let mut v: Vec<(String, Field)> = Vec::new();
    let ghost n = name@;
    v.push((owned("name"), Field::Text(name)));
    v.push((owned("private"), Field::Flag(private)));
    v.push((owned("auto_init"), Field::Flag(false)));
    let ghost head = fields(v@);
    assert(head =~= seq![("name"@, FieldModel::Text(n)), ("private"@, FieldModel::Flag(private)), ("auto_init"@, FieldModel::Flag(false))]);
    match optional_option(a, "--description") {
        Some(d) => {
            let ghost dv = d@;
            v.push((owned("description"), Field::Text(d)));
            assert(fields(v@) =~= head + seq![("description"@, FieldModel::Text(dv))]);
        },
        None => {
            assert(fields(v@) =~= head + seq![]);
        },
    }
    with_body("POST", path, v)
}

fn repo_cmd(a: &[String]) -> (r: Result<Order, String>)
    ensures
        meets(r, repo_cmd_of(views(a@))),
{
    let ghost v = views(a@);
    if a.len() >= 1 {
        assert(v[0] == a@[0]@);
    }
    if a.len() >= 1 && same(a[0].as_str(), "get") {
        let rest = rest_from(a, 1);
        let repo = target(rest.as_slice())?;
        proof {
            reveal_strlit("");
            assert(""@ =~= Seq::<char>::empty());
        }
        get(repo.path(""))
    } else if a.len() >= 1 && same(a[0].as_str(), "create") {
        let rest = rest_from(a, 1);
        create(rest.as_slice())
    } else {
        Err(owned("usage: runseal @tool forgejo repo get|create ..."))
    }
}

/// `pulls/N` and a tail.
fn numbered(head: &str, k: u64, tail: &str) -> (r: String)
    ensures
        r@ == head@ + decimal(k as nat) + tail@,
{
    let mut out = owned(head);
    let d = decimal_of(k);
    out.append(d.as_str());
    out.append(tail);
    out
}

fn pr_verb(verb: &str, a: &[String]) -> (r: Result<Order, String>)
    requires
        verb@ == "find"@ || verb@ == "create"@ || verb@ == "get"@ || verb@ == "merge"@ || verb@ == "guard"@,
    ensures
        meets(r, pr_verb_of(verb@, views(a@))),
{
    let repo = target(a)?;
    if same(verb, "find") {
        let head = required_option(a, "--head")?;
        let base = required_option(a, "--base")?;
        let mut q: Vec<(String, String)> = Vec::new();
        q.push((owned("state"), owned("open")));
        q.push((owned("limit"), owned("50")));
        assert(pairs_view(q@) =~= seq![("state"@, "open"@), ("limit"@, "50"@)]);
        Ok(Order::Find { list: Ask { method: owned("GET"), path: repo.path("pulls"), query: q, body: None }, head, base })
    } else if same(verb, "create") {
        let head = required_option(a, "--head")?;
        let base = required_option(a, "--base")?;
        let title = required_option(a, "--title")?;
        let mut v: Vec<(String, Field)> = Vec::new();
        let ghost (hv, bv, tv) = (head@, base@, title@);
        v.push((owned("head"), Field::Text(head)));
        v.push((owned("base"), Field::Text(base)));
        v.push((owned("title"), Field::Text(title)));
        let ghost front = fields(v@);
        assert(front =~= seq![("head"@, FieldModel::Text(hv)), ("base"@, FieldModel::Text(bv)), ("title"@, FieldModel::Text(tv))]);
        match optional_option(a, "--body") {
            Some(b) => {
                let ghost x = b@;
                v.push((owned("body"), Field::Text(b)));
                assert(fields(v@) =~= front + seq![("body"@, FieldModel::Text(x))]);
            },
            None => {
                assert(fields(v@) =~= front + seq![]);
            },
        }
        with_body("POST", repo.path("pulls"), v)
    } else if same(verb, "get") {
        let k = integer(a, "--number")?;
        let tail = numbered("pulls/", k, "");
        proof {
            reveal_strlit("");
        }
        get(repo.path(tail.as_str()))
    } else if same(verb, "merge") {
        let k = integer(a, "--number")?;
        let drop = match flag(a, "--delete-branch")? {
            Some(b) => b,
            None => true,
        };
        let head = required_option(a, "--head")?;
        let ghost hv = head@;
        let mut v: Vec<(String, Field)> = Vec::new();
        v.push((owned("Do"), Field::Text(owned("squash"))));
        v.push((owned("delete_branch_after_merge"), Field::Flag(drop)));
        v.push((owned("head_commit_id"), Field::Text(head)));
        assert(fields(v@) =~= seq![("Do"@, FieldModel::Text("squash"@)), ("delete_branch_after_merge"@, FieldModel::Flag(drop)),
            ("head_commit_id"@, FieldModel::Text(hv))]);
        let tail = numbered("pulls/", k, "/merge");
        with_body("POST", repo.path(tail.as_str()), v)
    } else {
        let k = integer(a, "--number")?;
        let workflow = match optional_option(a, "--workflow") {
            Some(w) => w,
            None => owned("guard.yml"),
        };
        let interval = seconds(a, "--interval", 5)?;
        let timeout = seconds(a, "--timeout", 1800)?;
        Ok(Order::Guard { repo, number: k, workflow, interval, timeout })
    }
}

fn pr_cmd(a: &[String]) -> (r: Result<Order, String>)
    ensures
        meets(r, pr_cmd_of(views(a@))),
{
    let ghost v = views(a@);
    if a.len() >= 1 {
        assert(v[0] == a@[0]@);
    }
    if a.len() == 0 || !(same(a[0].as_str(), "find") || same(a[0].as_str(), "create") || same(a[0].as_str(), "get")
        || same(a[0].as_str(), "merge") || same(a[0].as_str(), "guard")) {
        return Err(owned("usage: runseal @tool forgejo pr find|create|get|merge|guard ..."));
    }
    let rest = rest_from(a, 1);
    pr_verb(a[0].as_str(), rest.as_slice())
}

fn upsert(group: &str, a: &[String]) -> (r: Result<Order, String>)
    ensures
        meets(r, upsert_of(group@, views(a@))),
{
    let ghost v = views(a@);
    if a.len() >= 1 {
        assert(v[0] == a@[0]@);
    }
    if a.len() == 0 || !same(a[0].as_str(), "upsert") {
        let mut e = owned("usage: runseal @tool forgejo ");
        e.append(group);
        e.append(" upsert ...");
        return Err(e);
    }
    let r = rest_from(a, 1);
    let repo = target(r.as_slice())?;
    let name = required_option(r.as_slice(), "--name")?;
    atom(name.as_str())?;
    if same(group, "secret") {
        let c = content(r.as_slice())?;
        let mut tail = owned("actions/secrets/");
        tail.append(name.as_str());
        Ok(Order::Upsert { path: repo.path(tail.as_str()), key: owned("data"), early: Some(c) })
    } else {
        let mut tail = owned("actions/variables/");
        tail.append(name.as_str());
        Ok(Order::Upsert { path: repo.path(tail.as_str()), key: owned("value"), early: None })
    }
}

fn workflow_cmd(a: &[String]) -> (r: Result<Order, String>)
    ensures
        meets(r, workflow_cmd_of(views(a@))),
{
    let ghost v = views(a@);
    if a.len() >= 1 {
        assert(v[0] == a@[0]@);
    }
    if a.len() == 0 || !same(a[0].as_str(), "dispatch") {
        return Err(owned("usage: runseal @tool forgejo workflow dispatch ..."));
    }
    let r = rest_from(a, 1);
    let repo = target(r.as_slice())?;
    let w = required_option(r.as_slice(), "--workflow")?;
    atom(w.as_str())?;
    let git = required_option(r.as_slice(), "--ref")?;
    let held = inputs(r.as_slice())?;
    let mut tail = owned("actions/workflows/");
    tail.append(w.as_str());
    tail.append("/dispatches");
    Ok(Order::Dispatch { path: repo.path(tail.as_str()), git, inputs: held })
}

/// Adds `key=value` for a filter flag that is given.
fn filter(q: &mut Vec<(String, String)>, a: &[String], name: &str, key: &str)
    ensures
        pairs_view(final(q)@) == pairs_view(old(q)@) + match option_of(views(a@), name@) {
            Some(v) => seq![(key@, v)],
            None => seq![],
        },
{
    match optional_option(a, name) {
        Some(v) => {
            let ghost x = v@;
            q.push((owned(key), v));
            assert(pairs_view(q@) =~= pairs_view(old(q)@) + seq![(key@, x)]);
        },
        None => {
            assert(pairs_view(q@) =~= pairs_view(old(q)@) + seq![]);
        },
    }
}

fn runs(a: &[String]) -> (r: Result<Order, String>)
    ensures
        meets(r, runs_of(views(a@))),
{
    let repo = target(a)?;
    let limit = match optional_option(a, "--limit") {
        None => 20,
        Some(v) => match parse_usize(v.as_str()) {
            Some(k) => k,
            None => {
                return Err(owned("--limit expects an integer"));
            },
        },
    };
    if limit == 0 {
        return Err(owned("--limit expects a positive integer"));
    }
    let mut q: Vec<(String, String)> = Vec::new();
    assert(pairs_view(q@) =~= seq![]);
    filter(&mut q, a, "--event", "event");
    filter(&mut q, a, "--status", "status");
    filter(&mut q, a, "--sha", "head_sha");
    filter(&mut q, a, "--ref", "ref");
    filter(&mut q, a, "--workflow", "workflow_id");
    filter(&mut q, a, "--number", "run_number");
    assert(pairs_view(q@) =~= run_filters(views(a@)));
    let ghost before = pairs_view(q@);
    let d = decimal_of(limit as u64);
    let ghost dv = d@;
    q.push((owned("limit"), d));
    assert(pairs_view(q@) =~= before + seq![("limit"@, dv)]);
    Ok(Order::List { ask: Ask { method: owned("GET"), path: repo.path("actions/runs"), query: q, body: None }, limit })
}

fn run_cmd(a: &[String]) -> (r: Result<Order, String>)
    ensures
        meets(r, run_cmd_of(views(a@))),
{
    let ghost v = views(a@);
    if a.len() >= 1 {
        assert(v[0] == a@[0]@);
    }
    if a.len() >= 1 && same(a[0].as_str(), "list") {
        let rest = rest_from(a, 1);
        runs(rest.as_slice())
    } else if a.len() >= 1 && (same(a[0].as_str(), "get") || same(a[0].as_str(), "watch")) {
        let rest = rest_from(a, 1);
        let repo = target(rest.as_slice())?;
        let id = integer(rest.as_slice(), "--id")?;
        let tail = numbered("actions/runs/", id, "");
        proof {
            reveal_strlit("");
        }
        if same(a[0].as_str(), "get") {
            get(repo.path(tail.as_str()))
        } else {
            let interval = seconds(rest.as_slice(), "--interval", 10)?;
            let timeout = seconds(rest.as_slice(), "--timeout", 3600)?;
            Ok(Order::Watch { path: repo.path(tail.as_str()), id, interval, timeout })
        }
    } else if a.len() >= 1 && same(a[0].as_str(), "cancel") {
        Err(owned("Forgejo v15 has no supported workflow cancel API"))
    } else {
        Err(owned("usage: runseal @tool forgejo run list|get|watch|cancel ..."))
    }
}

/// What a `@tool forgejo` command does.
pub fn eval(command: &str, args: &[String]) -> (r: Result<Order, String>)
    ensures
        meets(r, eval_of(command@, views(args@))),
{
    if same(command, "repo") {
        repo_cmd(args)
    } else if same(command, "pr") {
        pr_cmd(args)
    } else if same(command, "secret") {
        upsert("secret", args)
    } else if same(command, "variable") {
        upsert("variable", args)
    } else if same(command, "workflow") {
        workflow_cmd(args)
    } else if same(command, "run") {
        run_cmd(args)
    } else {
        let mut e = owned("unknown tool command: forgejo ");
        e.append(command);
        Err(e)
    }
}

/// The text at member `key` of member `outer`.
pub open spec fn nested_text(v: Json, outer: Seq<char>, key: Seq<char>) -> Option<Seq<char>> {
    match v.member(outer) {
        Some(m) => crate::json::text_at(m, key),
        None => None,
    }
}

/// The index of the first pull request whose head and base branches are
/// the given ones.
pub open spec fn pull_match(rows: Seq<Json>, head: Seq<char>, base: Seq<char>, i: int) -> bool {
    nested_text(rows[i], "head"@, "ref"@) == Some(head) && nested_text(rows[i], "base"@, "ref"@) == Some(base)
}

/// The text at `outer.key`.
fn nested<'a>(v: &'a Json, outer: &str, key: &str) -> (r: Option<&'a str>)
    ensures
        match nested_text(*v, outer@, key@) {
            Some(t) => r matches Some(x) && x@ == t,
            None => r is None,
        },
{
    match member(v, outer) {
        Some(m) => match member(m, key) {
            Some(x) => match &x.kind {
                Kind::Text(t) => Some(t.as_str()),
                _ => None,
            },
            None => None,
        },
        None => None,
    }
}

/// The pull request with this head and base branch among the listed ones:
/// the first that matches, if any.
pub fn find_pull(rows: &Vec<Json>, head: &str, base: &str) -> (r: Option<usize>)
    ensures
        match r {
            Some(i) => i < rows@.len() && pull_match(rows@, head@, base@, i as int) && forall|j: int|
                0 <= j < i ==> !pull_match(rows@, head@, base@, j),
            None => forall|j: int| 0 <= j < rows@.len() ==> !pull_match(rows@, head@, base@, j),
        },
{
    let mut i: usize = 0;
    while i < rows.len()
        invariant
            i <= rows@.len(),
            forall|j: int| 0 <= j < i ==> !pull_match(rows@, head@, base@, j),
        decreases rows@.len() - i,
    {
        let h = nested(&rows[i], "head", "ref");
        let b = nested(&rows[i], "base", "ref");
        let hit = match (h, b) {
            (Some(x), Some(y)) => same(x, head) && same(y, base),
            _ => false,
        };
        if hit {
            return Some(i);
        }
        i += 1;
    }
    None
}

/// The guard run among the runs of a reply: the first one of this commit and
/// workflow that a pull request triggered.
pub open spec fn run_match(rows: Seq<Json>, sha: Seq<char>, workflow: Seq<char>, i: int) -> bool {
    crate::json::text_at(rows[i], "commit_sha"@) == Some(sha) && crate::json::text_at(rows[i], "workflow_id"@) == Some(workflow)
        && crate::json::text_at(rows[i], "trigger_event"@) == Some("pull_request"@)
}

/// The guard run among the `workflow_runs` rows of a reply.
pub fn select(rows: &Vec<Json>, sha: &str, workflow: &str) -> (r: Option<usize>)
    ensures
        match r {
            Some(i) => i < rows@.len() && run_match(rows@, sha@, workflow@, i as int) && forall|j: int|
                0 <= j < i ==> !run_match(rows@, sha@, workflow@, j),
            None => forall|j: int| 0 <= j < rows@.len() ==> !run_match(rows@, sha@, workflow@, j),
        },
{
    let mut i: usize = 0;
    while i < rows.len()
        invariant
            i <= rows@.len(),
            forall|j: int| 0 <= j < i ==> !run_match(rows@, sha@, workflow@, j),
        decreases rows@.len() - i,
    {
        let row = &rows[i];
        let c = crate::json::text_of(row, "commit_sha");
        let w = crate::json::text_of(row, "workflow_id");
        let t = crate::json::text_of(row, "trigger_event");
        let hit = match (c, w, t) {
            (Some(x), Some(y), Some(z)) => same(x, sha) && same(y, workflow) && same(z, "pull_request"),
            _ => false,
        };
        if hit {
            return Some(i);
        }
        i += 1;
    }
    None
}

/// What the status of a run decides: done when it succeeded, refused when it
/// failed, was cancelled or skipped, else still waiting.
pub open spec fn outcome_of(status: Seq<char>, label: Seq<char>, text: Seq<char>) -> Result<bool, Seq<char>> {
    if status == "success"@ {
        Ok(true)
    } else if status == "failure"@ || status == "cancelled"@ || status == "skipped"@ {
        Err("Forgejo workflow "@ + label + " failed: "@ + text)
    } else {
        Ok(false)
    }
}

/// What a run's status decides; `true` when it is done.
pub fn outcome(run: &Json, label: &str) -> (r: Result<bool, String>)
    ensures
        match outcome_of(match crate::json::text_at(*run, "status"@) {
            Some(s) => s,
            None => seq![],
        }, label@, run.text@) {
            Ok(b) => r == Ok::<bool, String>(b),
            Err(e) => r matches Err(m) && m@ == e,
        },
{
    proof {
        reveal_strlit("");
        assert(""@ =~= Seq::<char>::empty());
    }
    let status = match crate::json::text_of(run, "status") {
        Some(s) => s,
        None => "",
    };
    assert(status@ == match crate::json::text_at(*run, "status"@) {
        Some(s) => s,
        None => seq![],
    });
    if same(status, "success") {
        Ok(true)
    } else if same(status, "failure") || same(status, "cancelled") || same(status, "skipped") {
        let mut e = owned("Forgejo workflow ");
        e.append(label);
        e.append(" failed: ");
        e.append(run.text.as_str());
        Err(e)
    } else {
        Ok(false)
    }
}

/// The head commit of a pull request reply (`head.sha`).
pub fn head_sha(pull: &Json) -> (r: Result<String, String>)
    ensures
        match nested_text(*pull, "head"@, "sha"@) {
            Some(t) => r matches Ok(x) && x@ == t,
            None => r matches Err(e) && e@ == "Forgejo pull request payload missing head.sha"@,
        },
{
    match nested(pull, "head", "sha") {
        Some(t) => Ok(owned(t)),
        None => Err(owned("Forgejo pull request payload missing head.sha")),
    }
}

/// The status of a run, or nothing.
pub open spec fn status_of(run: Json) -> Seq<char> {
    match crate::json::text_at(run, "status"@) {
        Some(s) => s,
        None => seq![],
    }
}

/// `i` is the first guard run among the rows.
pub open spec fn first_run(rows: Seq<Json>, sha: Seq<char>, workflow: Seq<char>, i: int) -> bool {
    0 <= i < rows.len() && run_match(rows, sha, workflow, i) && forall|j: int| 0 <= j < i ==> !run_match(rows, sha, workflow, j)
}

/// No guard run has finished yet in these rows: none is there, or the first
/// one is still going.
pub open spec fn guard_pending(rows: Seq<Json>, sha: Seq<char>, workflow: Seq<char>) -> bool {
    ||| forall|j: int| 0 <= j < rows.len() ==> !run_match(rows, sha, workflow, j)
    ||| exists|i: int| first_run(rows, sha, workflow, i) && outcome_of(status_of(rows[i]), workflow, rows[i].text@) == Ok::<bool, Seq<char>>(false)
}

/// One poll of a pull request's guard, given the `workflow_runs` rows of the
/// reply and whether the deadline has passed: the first guard run that
/// succeeded ends the wait (`Some` of its row); one that failed ends it with
/// its failure; otherwise the wait goes on (`None`), unless the deadline has
/// passed.
pub fn guard_poll(rows: &Vec<Json>, sha: &str, workflow: &str, overdue: bool) -> (r: Result<Option<usize>, String>)
    ensures
        match r {
            Ok(Some(i)) => first_run(rows@, sha@, workflow@, i as int) && outcome_of(
                status_of(rows@[i as int]),
                workflow@,
                rows@[i as int].text@,
            ) == Ok::<bool, Seq<char>>(true),
            Ok(None) => !overdue && guard_pending(rows@, sha@, workflow@),
            Err(e) => (exists|i: int| first_run(rows@, sha@, workflow@, i) && outcome_of(status_of(rows@[i]), workflow@, rows@[i].text@)
                == Err::<bool, Seq<char>>(e@)) || (overdue && guard_pending(rows@, sha@, workflow@) && e@
                == "timed out waiting for Forgejo workflow "@ + workflow@),
        },
{
    if let Some(i) = select(rows, sha, workflow) {
        assert(first_run(rows@, sha@, workflow@, i as int));
        let done = match outcome(&rows[i], workflow) {
            Ok(d) => d,
            Err(e) => {
                assert(outcome_of(status_of(rows@[i as int]), workflow@, rows@[i as int].text@) == Err::<bool, Seq<char>>(e@));
                return Err(e);
            },
        };
        if done {
            return Ok(Some(i));
        }
    }
    if overdue {
        let mut e = owned("timed out waiting for Forgejo workflow ");
        e.append(workflow);
        return Err(e);
    }
    Ok(None)
}

/// One poll of a dispatched run, given the run and whether the deadline has
/// passed: `true` when it succeeded, its failure when it failed, `false`
/// while it goes on, unless the deadline has passed.
pub fn watch_poll(run: &Json, id: &str, overdue: bool) -> (r: Result<bool, String>)
    ensures
        match outcome_of(status_of(*run), "run"@, run.text@) {
            Ok(true) => r == Ok::<bool, String>(true),
            Err(e) => r matches Err(m) && m@ == e,
            Ok(false) => if overdue {
                r matches Err(m) && m@ == "timed out waiting for Forgejo workflow run "@ + id@
            } else {
                r == Ok::<bool, String>(false)
            },
        },
{
    if outcome(run, "run")? {
        return Ok(true);
    }
    if overdue {
        let mut e = owned("timed out waiting for Forgejo workflow run ");
        e.append(id);
        return Err(e);
    }
    Ok(false)
}

/// The method of an upsert: `PUT` to replace what exists, `POST` to create.
pub fn upsert_method(exists: bool) -> (r: &'static str)
    ensures
        r@ == (if exists { "PUT"@ } else { "POST"@ }),
{
    if exists {
        "PUT"
    } else {
        "POST"
    }
}

/// The body of an upsert: `{KEY: CONTENT}`.
pub fn upsert_body(key: &str, content: String) -> (r: Body)
    ensures
        r.model() == BodyModel::Object(seq![(key@, FieldModel::Text(content@))]),
{
    let mut f: Vec<(String, Field)> = Vec::new();
    f.push((owned(key), Field::Text(content)));
    let ghost v = f@;
    assert(fields(v) =~= seq![(key@, FieldModel::Text(v[0].1->Text_0@))]);
    Body::Object(f)
}

/// The JSON text of one string member.
pub open spec fn pair_text(p: (String, String)) -> Seq<char> {
    crate::reply::json_text(p.0@) + ":"@ + crate::reply::json_text(p.1@)
}

/// The members' texts, separated by `,`.
pub open spec fn pairs_text(pairs: Seq<(String, String)>) -> Seq<char>
    decreases pairs.len(),
{
    if pairs.len() == 0 {
        seq![]
    } else if pairs.len() == 1 {
        pair_text(pairs[0])
    } else {
        pairs_text(pairs.drop_last()) + ","@ + pair_text(pairs.last())
    }
}

/// The compact JSON text of an object of string members, in their order.
pub open spec fn strings_text(pairs: Seq<(String, String)>) -> Seq<char> {
    "{"@ + pairs_text(pairs) + "}"@
}

/// The compact JSON text of an object of string members.
pub fn strings_object(pairs: &Vec<(String, String)>) -> (r: String)
    ensures
        r@ == strings_text(pairs@),
{
    let mut body = String::new();
    let mut i: usize = 0;
    while i < pairs.len()
        invariant
            i <= pairs@.len(),
            body@ == pairs_text(pairs@.take(i as int)),
        decreases pairs@.len() - i,
    {
        assert(pairs@.take(i + 1).drop_last() =~= pairs@.take(i as int));
        assert(pairs@.take(i + 1).last() == pairs@[i as int]);
        if i > 0 {
            body.append(",");
        } else {
            assert(pairs@.take(1)[0] == pairs@[0]);
        }
        let k = crate::reply::string_json(pairs[i].0.as_str());
        let v = crate::reply::string_json(pairs[i].1.as_str());
        body.append(k.as_str());
        body.append(":");
        body.append(v.as_str());
        i += 1;
    }
    assert(pairs@.take(pairs@.len() as int) =~= pairs@);
    let mut text = owned("{");
    text.append(body.as_str());
    text.append("}");
    text
}

/// The body of a workflow dispatch: the ref, the inputs as an object of
/// strings (in key order) and `return_run_info: true`.
pub fn dispatch_body(git: &str, inputs: &Table<String>) -> (r: Body)
    ensures
        exists|ps: Seq<(String, String)>| #![trigger strings_text(ps)]
            crate::table::sorted(ps) && crate::table::as_map(ps) == inputs@ && r.model() == BodyModel::Object(
                seq![("ref"@, FieldModel::Text(git@)), ("inputs"@, FieldModel::Raw(strings_text(ps))), (
                "return_run_info"@,
                FieldModel::Flag(true),
            )],
            ),
{
    let pairs = inputs.pairs();
    let text = strings_object(&pairs);
    let mut f: Vec<(String, Field)> = Vec::new();
    f.push((owned("ref"), Field::Text(owned(git))));
    f.push((owned("inputs"), Field::Raw(text)));
    f.push((owned("return_run_info"), Field::Flag(true)));
    let ghost v = f@;
    assert(fields(v) =~= seq![("ref"@, FieldModel::Text(git@)), ("inputs"@, FieldModel::Raw(strings_text(pairs@))), (
        "return_run_info"@,
        FieldModel::Flag(true),
    )]);
    Body::Object(f)
}

/// One filter entry when its option is given.
pub open spec fn entry_if(k: Seq<char>, o: Option<Seq<char>>) -> Seq<(Seq<char>, Seq<char>)> {
    match o {
        Some(v) => seq![(k, v)],
        None => seq![],
    }
}

proof fn lemma_lookup_entry(k: Seq<char>, o: Option<Seq<char>>, key: Seq<char>)
    ensures
        lookup(entry_if(k, o), key) == if k == key { o } else { None },
{
    match o {
        Some(v) => lemma_lookup_one(k, v, key),
        None => {},
    }
}

/// The first of two lookups that finds something.
pub open spec fn either<V>(x: Option<V>, y: Option<V>) -> Option<V> {
    match x {
        Some(v) => Some(v),
        None => y,
    }
}

/// Where a key is found among filter entries followed by more entries.
proof fn lemma_lookup_entries(k: Seq<(Seq<char>, Option<Seq<char>>)>, tail: Seq<(Seq<char>, Seq<char>)>, key: Seq<char>)
    ensures
        lookup(entries(k) + tail, key) == either(found_in(k, key), lookup(tail, key)),
    decreases k.len(),
{
    if k.len() == 0 {
        assert(entries(k) + tail =~= tail);
    } else {
        let rest = k.drop_first();
        assert(entries(k) =~= entry_if(k[0].0, k[0].1) + entries(rest));
        assert(entries(k) + tail =~= entry_if(k[0].0, k[0].1) + (entries(rest) + tail));
        lemma_lookup_concat(entry_if(k[0].0, k[0].1), entries(rest) + tail, key);
        lemma_lookup_entry(k[0].0, k[0].1, key);
        lemma_lookup_entries(rest, tail, key);
    }
}

/// The entries of filters that are given, in order.
pub open spec fn entries(k: Seq<(Seq<char>, Option<Seq<char>>)>) -> Seq<(Seq<char>, Seq<char>)>
    decreases k.len(),
{
    if k.len() == 0 {
        seq![]
    } else {
        entry_if(k[0].0, k[0].1) + entries(k.drop_first())
    }
}

/// The value of the first given filter named `key`.
pub open spec fn found_in(k: Seq<(Seq<char>, Option<Seq<char>>)>, key: Seq<char>) -> Option<Seq<char>>
    decreases k.len(),
{
    if k.len() == 0 {
        None
    } else {
        either(if k[0].0 == key { k[0].1 } else { None }, found_in(k.drop_first(), key))
    }
}

/// The `run` command's `list` verb reads the options after it.
proof fn lemma_run_list_is_runs(a: Seq<Seq<char>>)
    requires
        a.len() > 0,
        a[0] == "list"@,
    ensures
        eval_of("run"@, a) == runs_of(a.skip(1)),
{
    reveal_strlit("run");
    reveal_strlit("repo");
    reveal_strlit("pr");
    reveal_strlit("secret");
    reveal_strlit("variable");
    reveal_strlit("workflow");
    assert("run"@[1] == 'u' && "repo"@[1] == 'e' && "run"@.len() == 3 && "pr"@.len() == 2 && "secret"@.len() == 6
        && "variable"@.len() == 8 && "workflow"@.len() == 8);
    assert("run"@ != "repo"@);
}

/// The filters of `run list` as named entries.
pub open spec fn run_filter_entries(r: Seq<Seq<char>>) -> Seq<(Seq<char>, Option<Seq<char>>)> {
    seq![
        ("event"@, option_of(r, "--event"@)),
        ("status"@, option_of(r, "--status"@)),
        ("head_sha"@, option_of(r, "--sha"@)),
        ("ref"@, option_of(r, "--ref"@)),
        ("workflow_id"@, option_of(r, "--workflow"@)),
        ("run_number"@, option_of(r, "--number"@)),
    ]
}

/// Each filter key is found at its own entry.
proof fn lemma_filter_found(r: Seq<Seq<char>>, j: int)
    requires
        0 <= j < 6,
    ensures
        found_in(run_filter_entries(r), run_filter_entries(r)[j].0) == run_filter_entries(r)[j].1,
        run_filter_entries(r)[j].0 != "limit"@,
{
    reveal_strlit("event");
    reveal_strlit("status");
    reveal_strlit("head_sha");
    reveal_strlit("ref");
    reveal_strlit("workflow_id");
    reveal_strlit("run_number");
    reveal_strlit("limit");
    let k = run_filter_entries(r);
    assert("event"@.len() == 5 && "status"@.len() == 6 && "head_sha"@.len() == 8 && "ref"@.len() == 3
        && "workflow_id"@.len() == 11 && "run_number"@.len() == 10 && "limit"@.len() == 5);
    assert("event"@[0] == 'e' && "limit"@[0] == 'l');
    assert("event"@ != "limit"@);
    reveal_with_fuel(found_in, 7);
    assert(k.drop_first().drop_first().drop_first().drop_first().drop_first().drop_first().len() == 0);
}

/// The filters of `run list` are the entries of the filters given.
proof fn lemma_run_filters_entries(r: Seq<Seq<char>>)
    ensures
        run_filters(r) == entries(run_filter_entries(r)),
{
    reveal_with_fuel(entries, 7);
    assert(run_filters(r) =~= entries(run_filter_entries(r)));
}

/// `run list` passes on exactly the filters it was given: for each of
/// `--event`, `--status`, `--sha`, `--ref`, `--workflow` and `--number`, the
/// query's entry under `event`, `status`, `head_sha`, `ref`, `workflow_id`
/// and `run_number` is that option's value, and is absent when the option
/// is.
#[verifier::spinoff_prover]
#[verifier::rlimit(50)]
pub proof fn lemma_run_list_filters(a: Seq<Seq<char>>)
    requires
        a.len() > 0,
        a[0] == "list"@,
        eval_of("run"@, a) is Ok,
    ensures
        eval_of("run"@, a) matches Ok(OrderModel::List { ask, .. }) && {
            let r = a.skip(1);
            &&& ask.method == "GET"@
            &&& lookup(ask.query, "event"@) == option_of(r, "--event"@)
            &&& lookup(ask.query, "status"@) == option_of(r, "--status"@)
            &&& lookup(ask.query, "head_sha"@) == option_of(r, "--sha"@)
            &&& lookup(ask.query, "ref"@) == option_of(r, "--ref"@)
            &&& lookup(ask.query, "workflow_id"@) == option_of(r, "--workflow"@)
            &&& lookup(ask.query, "run_number"@) == option_of(r, "--number"@)
        },
{
    let r = a.skip(1);
    lemma_run_list_is_runs(a);
    let k = run_filter_entries(r);
    lemma_run_filters_entries(r);
    match runs_of(r) {
        Ok(OrderModel::List { ask, limit }) => {
            let tail = seq![("limit"@, decimal(limit))];
            assert(ask.query == entries(k) + tail);
            assert forall|j: int| 0 <= j < 6 implies lookup(ask.query, #[trigger] k[j].0) == k[j].1 by {
                lemma_lookup_entries(k, tail, k[j].0);
                lemma_lookup_one("limit"@, decimal(limit), k[j].0);
                lemma_filter_found(r, j);
            }
            assert(lookup(ask.query, k[0].0) == k[0].1);
            assert(lookup(ask.query, k[1].0) == k[1].1);
            assert(lookup(ask.query, k[2].0) == k[2].1);
            assert(lookup(ask.query, k[3].0) == k[3].1);
            assert(lookup(ask.query, k[4].0) == k[4].1);
            assert(lookup(ask.query, k[5].0) == k[5].1);
        },
        _ => {},
    }
}

/// The `pr` command's `create` verb reads the options after it.
proof fn lemma_pr_create_is_verb(a: Seq<Seq<char>>)
    requires
        a.len() > 0,
        a[0] == "create"@,
    ensures
        eval_of("pr"@, a) == pr_verb_of("create"@, a.skip(1)),
{
    reveal_strlit("pr");
    reveal_strlit("repo");
    assert("pr"@.len() == 2 && "repo"@.len() == 4);
}

/// `pr create` opens the pull request in the direction asked: its body's
/// `head` is `--head`, its `base` is `--base`, its `title` is `--title`,
/// and its `body` is `--body` when that is given; it is a `POST`.
#[verifier::spinoff_prover]
pub proof fn lemma_pr_create_direction(a: Seq<Seq<char>>)
    requires
        a.len() > 0,
        a[0] == "create"@,
        eval_of("pr"@, a) is Ok,
    ensures
        eval_of("pr"@, a) matches Ok(OrderModel::Send(ask)) && ask.method == "POST"@ && (ask.body matches Some(
            BodyModel::Object(f),
        ) && {
            let r = a.skip(1);
            &&& option_of(r, "--head"@) matches Some(h) && lookup(f, "head"@) == Some(FieldModel::Text(h))
            &&& option_of(r, "--base"@) matches Some(b) && lookup(f, "base"@) == Some(FieldModel::Text(b))
            &&& option_of(r, "--title"@) matches Some(t) && lookup(f, "title"@) == Some(FieldModel::Text(t))
            &&& option_of(r, "--body"@) matches Some(x) ==> lookup(f, "body"@) == Some(FieldModel::Text(x))
        }),
{
    let r = a.skip(1);
    lemma_pr_create_is_verb(a);
    reveal_strlit("create");
    reveal_strlit("find");
    assert("create"@.len() == 6 && "find"@.len() == 4);
    reveal_strlit("head");
    reveal_strlit("base");
    reveal_strlit("title");
    reveal_strlit("body");
    assert("head"@[0] == 'h' && "base"@[0] == 'b' && "title"@[0] == 't' && "body"@[0] == 'b' && "base"@[1] == 'a'
        && "body"@[1] == 'o');
    assert("head"@ != "base"@ && "head"@ != "title"@ && "head"@ != "body"@ && "base"@ != "title"@ && "base"@ != "body"@
        && "title"@ != "body"@);
    match pr_verb_of("create"@, r) {
        Ok(OrderModel::Send(ask)) => {
            let h = option_of(r, "--head"@)->0;
            let b = option_of(r, "--base"@)->0;
            let t = option_of(r, "--title"@)->0;
            let front = seq![("head"@, FieldModel::Text(h)), ("base"@, FieldModel::Text(b)), ("title"@, FieldModel::Text(t))];
            let extra = match option_of(r, "--body"@) {
                Some(x) => seq![("body"@, FieldModel::Text(x))],
                None => seq![],
            };
            assert(ask.body == Some(BodyModel::Object(front + extra)));
            reveal_with_fuel(lookup, 4);
            assert(front.drop_first().drop_first().drop_first().len() == 0);
            let keys = seq!["head"@, "base"@, "title"@, "body"@];
            assert forall|j: int| 0 <= j < 4 implies lookup(front + extra, #[trigger] keys[j]) == either(
                lookup(front, keys[j]),
                lookup(extra, keys[j]),
            ) by {
                lemma_lookup_concat(front, extra, keys[j]);
            }
            assert(lookup(front + extra, keys[0]) == either(lookup(front, keys[0]), lookup(extra, keys[0])));
            assert(lookup(front + extra, keys[1]) == either(lookup(front, keys[1]), lookup(extra, keys[1])));
            assert(lookup(front + extra, keys[2]) == either(lookup(front, keys[2]), lookup(extra, keys[2])));
            assert(lookup(front + extra, keys[3]) == either(lookup(front, keys[3]), lookup(extra, keys[3])));
            if let Some(x) = option_of(r, "--body"@) {
                lemma_lookup_one("body"@, FieldModel::Text(x), "body"@);
            }
        },
        _ => {},
    }
}

} // verus!

//! The `@tool github` commands: which one runs, their options, where the
//! token and the body come from, how a body is checked and prefixed, and the
//! repository of the git remote.
use vstd::prelude::*;

use crate::json::{member, text_at, text_of, Json, Kind};
use crate::table::Table;
use crate::text::{
    decimal, decimal_of, eq_ignore_case, number, owned, parse_usize, same, same_ignoring_case, split,
    split_by, starts_with, strip_prefix, strip_prefix_of, trim, trim_end_all, trim_end_matches, trimmed,
    views, is_prefix, occurs, contains, rest_from,
};
use crate::tool::cloudflare::command::{option_from, option_of, optional_option, required_of, required_option, texts};

verus! {

/// A `@tool github` command.
pub enum Verb {
    /// `issue create`, with its options.
    IssueCreate(Vec<String>),
    /// `issue comment create`, with its options.
    CommentCreate(Vec<String>),
    /// `issue body update`, with its options.
    BodyUpdate(Vec<String>),
    /// `pr checks probe NUMBER`.
    Probe(String),
}

/// A `@tool github` command, in text.
pub enum VerbModel {
    IssueCreate(Seq<Seq<char>>),
    CommentCreate(Seq<Seq<char>>),
    BodyUpdate(Seq<Seq<char>>),
    Probe(Seq<char>),
}

impl Verb {
    /// The command in text.
    pub open spec fn model(&self) -> VerbModel {
        match self {
            Verb::IssueCreate(v) => VerbModel::IssueCreate(views(v@)),
            Verb::CommentCreate(v) => VerbModel::CommentCreate(views(v@)),
            Verb::BodyUpdate(v) => VerbModel::BodyUpdate(views(v@)),
            Verb::Probe(n) => VerbModel::Probe(n@),
        }
    }
}

/// The usage line of the `issue` commands.
pub open spec fn issue_usage() -> Seq<char> {
    "usage: runseal @tool github issue create|comment|body ..."@
}

/// The usage line of the `pr` commands.
pub open spec fn pr_usage() -> Seq<char> {
    "usage: runseal @tool github pr checks probe <number>"@
}

/// The command that `github COMMAND ARGS...` names.
pub open spec fn eval_of(command: Seq<char>, a: Seq<Seq<char>>) -> Result<VerbModel, Seq<char>> {
    if command == "issue"@ {
        if a.len() == 0 {
            Err(issue_usage())
        } else if a[0] == "create"@ {
            Ok(VerbModel::IssueCreate(a.skip(1)))
        } else if a[0] == "comment"@ {
            if a.len() >= 2 && a[1] == "create"@ {
                Ok(VerbModel::CommentCreate(a.skip(2)))
            } else {
                Err("usage: runseal @tool github issue comment create ..."@)
            }
        } else if a[0] == "body"@ {
            if a.len() >= 2 && a[1] == "update"@ {
                Ok(VerbModel::BodyUpdate(a.skip(2)))
            } else {
                Err("usage: runseal @tool github issue body update ..."@)
            }
        } else {
            Err(issue_usage())
        }
    } else if command == "pr"@ {
        if a.len() == 3 && a[0] == "checks"@ && a[1] == "probe"@ {
            Ok(VerbModel::Probe(a[2]))
        } else {
            Err(pr_usage())
        }
    } else {
        Err("unknown tool command: github "@ + command)
    }
}


/// Chooses the `@tool github` command.
pub fn eval(command: &str, args: &[String]) -> (r: Result<Verb, String>)
    ensures
        match eval_of(command@, views(args@)) {
            Ok(v) => r matches Ok(x) && x.model() == v,
            Err(e) => r matches Err(m) && m@ == e,
        },
{
    let ghost a = views(args@);
    if args.len() >= 1 {
        assert(a[0] == args@[0]@);
    }
    if args.len() >= 2 {
        assert(a[1] == args@[1]@);
    }
    if args.len() >= 3 {
        assert(a[2] == args@[2]@);
    }
    if same(command, "issue") {
        if args.len() == 0 {
            return Err(owned("usage: runseal @tool github issue create|comment|body ..."));
        }
        if same(args[0].as_str(), "create") {
            Ok(Verb::IssueCreate(rest_from(args, 1)))
        } else if same(args[0].as_str(), "comment") {
            if args.len() >= 2 && same(args[1].as_str(), "create") {
                Ok(Verb::CommentCreate(rest_from(args, 2)))
            } else {
                Err(owned("usage: runseal @tool github issue comment create ..."))
            }
        } else if same(args[0].as_str(), "body") {
            if args.len() >= 2 && same(args[1].as_str(), "update") {
                Ok(Verb::BodyUpdate(rest_from(args, 2)))
            } else {
                Err(owned("usage: runseal @tool github issue body update ..."))
            }
        } else {
            Err(owned("usage: runseal @tool github issue create|comment|body ..."))
        }
    } else if same(command, "pr") {
        if args.len() == 3 && same(args[0].as_str(), "checks") && same(args[1].as_str(), "probe") {
            Ok(Verb::Probe(args[2].clone()))
        } else {
            Err(owned("usage: runseal @tool github pr checks probe <number>"))
        }
    } else {
        let mut e = owned("unknown tool command: github ");
        e.append(command);
        Err(e)
    }
}

/// A flag that is `true` when given bare and reads `true` or `false` after
/// `=`, from index `i` on.
pub open spec fn boolean_from(a: Seq<Seq<char>>, name: Seq<char>, i: int) -> Result<Option<bool>, Seq<char>>
    decreases a.len() - i,
{
    if i < 0 || i >= a.len() {
        Ok(None)
    } else if a[i] == name {
        Ok(Some(true))
    } else {
        match strip_prefix(a[i], name + "="@) {
            Some(v) => if v == "true"@ {
                Ok(Some(true))
            } else if v == "false"@ {
                Ok(Some(false))
            } else {
                Err(name + " expects true or false"@)
            },
            None => boolean_from(a, name, i + 1),
        }
    }
}

/// A boolean flag.
pub fn boolean(args: &[String], name: &str) -> (r: Result<Option<bool>, String>)
    ensures
        match boolean_from(views(args@), name@, 0) {
            Ok(b) => r == Ok::<Option<bool>, String>(b),
            Err(e) => r matches Err(m) && m@ == e,
        },
{
    let ghost a = views(args@);
    let mut prefix = owned(name);
    prefix.append("=");
    let mut index: usize = 0;
    while index < args.len()
        invariant
            a == views(args@),
            prefix@ == name@ + "="@,
            index <= args.len(),
            boolean_from(a, name@, 0) == boolean_from(a, name@, index as int),
        decreases args.len() - index,
    {
        assert(a[index as int] == args@[index as int]@);
        if same(args[index].as_str(), name) {
            return Ok(Some(true));
        }
        if let Some(v) = strip_prefix_of(args[index].as_str(), prefix.as_str()) {
            if same(v.as_str(), "true") {
                return Ok(Some(true));
            } else if same(v.as_str(), "false") {
                return Ok(Some(false));
            } else {
                let mut e = owned(name);
                e.append(" expects true or false");
                return Err(e);
            }
        }
        index += 1;
    }
    Ok(None)
}

/// Where a body comes from.
pub enum Source {
    Inline(String),
    File(String),
}

/// Where the body comes from: exactly one of `--body` and `--body-file`;
/// `true` with the text for `--body`, `false` with the path for the file.
pub open spec fn source_of(a: Seq<Seq<char>>) -> Result<(bool, Seq<char>), Seq<char>> {
    match (option_of(a, "--body"@), option_of(a, "--body-file"@)) {
        (Some(b), None) => Ok((true, b)),
        (None, Some(p)) => Ok((false, p)),
        _ => Err("pass exactly one of --body or --body-file"@),
    }
}

/// Where the body comes from.
pub fn source(args: &[String]) -> (r: Result<Source, String>)
    ensures
        match source_of(views(args@)) {
            Ok((inline, t)) => r matches Ok(s) && match s {
                Source::Inline(b) => inline && b@ == t,
                Source::File(p) => !inline && p@ == t,
            },
            Err(e) => r matches Err(m) && m@ == e,
        },
{
    let inline = optional_option(args, "--body");
    let file = optional_option(args, "--body-file");
    match (inline, file) {
        (Some(b), None) => Ok(Source::Inline(b)),
        (None, Some(p)) => Ok(Source::File(p)),
        _ => Err(owned("pass exactly one of --body or --body-file")),
    }
}

/// An argument that names a body option.
pub open spec fn body_word(t: Seq<char>) -> bool {
    t == "--body"@ || is_prefix("--body="@, t) || t == "--body-file"@ || is_prefix("--body-file="@, t)
}

/// Whether the body options are given at all (`--body`, `--body-file`, or
/// their `=` forms).
pub open spec fn mentions(a: Seq<Seq<char>>) -> bool {
    exists|i: int| 0 <= i < a.len() && body_word(#[trigger] a[i])
}

/// Whether the body options are given at all.
pub fn has_body(args: &[String]) -> (r: bool)
    ensures
        r == mentions(views(args@)),
{
    let ghost a = views(args@);
    let mut i: usize = 0;
    while i < args.len()
        invariant
            a == views(args@),
            i <= args.len(),
            forall|j: int| 0 <= j < i ==> !body_word(#[trigger] a[j]),
        decreases args.len() - i,
    {
        assert(a[i as int] == args@[i as int]@);
        let t = args[i].as_str();
        if same(t, "--body") || starts_with(t, "--body=") || same(t, "--body-file") || starts_with(t, "--body-file=") {
            assert(body_word(a[i as int]));
            return true;
        }
        i += 1;
    }
    false
}

/// The body limit: `--body-max`, else the command's default; 0 is none.
pub open spec fn max_of(a: Seq<Seq<char>>, default: nat) -> Result<nat, Seq<char>> {
    match option_of(a, "--body-max"@) {
        None => Ok(default),
        Some(v) => match number(v) {
            Some(n) => if n <= usize::MAX {
                Ok(n)
            } else {
                Err("invalid --body-max: "@ + v)
            },
            None => Err("invalid --body-max: "@ + v),
        },
    }
}

/// Checks a body against the limit, counted in characters.
pub open spec fn checked_of(a: Seq<Seq<char>>, body: Seq<char>, default: nat) -> Result<(), Seq<char>> {
    match max_of(a, default) {
        Err(e) => Err(e),
        Ok(m) => if m == 0 || body.len() <= m {
            Ok(())
        } else {
            Err("body length "@ + decimal(body.len()) + " exceeds --body-max="@ + decimal(m))
        },
    }
}

/// Checks a body against `--body-max` (or the command's default).
pub fn validate(args: &[String], body: &str, default: usize) -> (r: Result<(), String>)
    ensures
        match checked_of(views(args@), body@, default as nat) {
            Ok(()) => r is Ok,
            Err(e) => r matches Err(m) && m@ == e,
        },
{
    let max = match optional_option(args, "--body-max") {
        None => default,
        Some(v) => match parse_usize(v.as_str()) {
            Some(n) => n,
            None => {
                let mut e = owned("invalid --body-max: ");
                e.append(v.as_str());
                return Err(e);
            },
        },
    };
    if max == 0 {
        return Ok(());
    }
    let count = body.unicode_len();
    if count > max {
        let mut e = owned("body length ");
        let c = decimal_of(count as u64);
        e.append(c.as_str());
        e.append(" exceeds --body-max=");
        let m = decimal_of(max as u64);
        e.append(m.as_str());
        return Err(e);
    }
    Ok(())
}

/// Whether `--prefix-enable` asks for the requester prefix.
pub fn prefix_enabled(args: &[String]) -> (r: Result<bool, String>)
    ensures
        match boolean_from(views(args@), "--prefix-enable"@, 0) {
            Ok(b) => r == Ok::<bool, String>(b == Some(true)),
            Err(e) => r matches Err(m) && m@ == e,
        },
{
    match boolean(args, "--prefix-enable")? {
        Some(b) => Ok(b),
        None => Ok(false),
    }
}

/// The repositories whose bodies get the requester prefix.
pub open spec fn core_of(repo: Seq<char>) -> bool {
    same_ignoring_case("PerishCode/runseal"@, repo) || same_ignoring_case("PerishCode/sidecar"@, repo)
}

/// Whether writes to a repository get the requester prefix.
pub fn is_core(repo: &str) -> (r: bool)
    ensures
        r == core_of(repo@),
{
    eq_ignore_case("PerishCode/runseal", repo) || eq_ignore_case("PerishCode/sidecar", repo)
}

/// The requester prefix of a body written from another repository.
pub open spec fn prefix_text(repo: Seq<char>, branch: Seq<char>) -> Seq<char> {
    "Requested-By-Repo: "@ + repo + "\nRequested-By-Branch: "@ + branch + "\n\n"@
}

/// A body with the requester prefix, unless it already starts with it.
pub open spec fn prefixed_of(repo: Seq<char>, branch: Seq<char>, body: Seq<char>) -> Seq<char> {
    if is_prefix(prefix_text(repo, branch), body) {
        body
    } else {
        prefix_text(repo, branch) + body
    }
}

/// Adds the requester prefix of the current repository and branch.
pub fn prefixed(repo: &str, branch: &str, body: &str) -> (r: String)
    ensures
        r@ == prefixed_of(repo@, branch@, body@),
{
    let mut p = owned("Requested-By-Repo: ");
    p.append(repo);
    p.append("\nRequested-By-Branch: ");
    p.append(branch);
    p.append("\n\n");
    if starts_with(body, p.as_str()) {
        owned(body)
    } else {
        p.append(body);
        p
    }
}

/// Whether the prefix is written, once the current repository is known: the
/// target is a core repository other than the current one.
pub fn prefix_due(target: &str, current: &str) -> (r: bool)
    ensures
        r == (core_of(target@) && !same_ignoring_case(current@, target@)),
{
    is_core(target) && !eq_ignore_case(current, target)
}

/// The rest of a URL after one of four prefixes, tried in order.
pub open spec fn tail_of(url: Seq<char>, p: Seq<Seq<char>>) -> Option<Seq<char>> {
    if is_prefix(p[0], url) {
        Some(url.skip(p[0].len() as int))
    } else if is_prefix(p[1], url) {
        Some(url.skip(p[1].len() as int))
    } else if is_prefix(p[2], url) {
        Some(url.skip(p[2].len() as int))
    } else if is_prefix(p[3], url) {
        Some(url.skip(p[3].len() as int))
    } else {
        None
    }
}

/// `owner/repo` of a remote URL that starts with one of four prefixes of one
/// host: exactly two non-empty parts after the prefix (without `.git`).
pub open spec fn hosted_of(url: Seq<char>, p: Seq<Seq<char>>) -> Result<Seq<char>, Seq<char>> {
    match tail_of(url, p) {
        None => Err("unmatched host"@),
        Some(t) => {
            let parts = split(trim_end_all(t, ".git"@), "/"@);
            if parts.len() == 2 && parts[0].len() > 0 && parts[1].len() > 0 {
                Ok(parts[0] + "/"@ + parts[1])
            } else {
                Err("cannot parse owner/repo from origin url: "@ + url)
            }
        },
    }
}

/// The GitHub remote URL prefixes.
pub open spec fn github_hosts() -> Seq<Seq<char>> {
    seq!["git@github.com:"@, "ssh://git@github.com/"@, "https://github.com/"@, "http://github.com/"@]
}

/// The Gitee remote URL prefixes.
pub open spec fn gitee_hosts() -> Seq<Seq<char>> {
    seq!["git@gitee.com:"@, "ssh://git@gitee.com/"@, "https://gitee.com/"@, "http://gitee.com/"@]
}

/// `owner/repo` of a GitHub or Gitee remote URL.
pub open spec fn remote_of(url: Seq<char>) -> Result<Seq<char>, Seq<char>> {
    match hosted_of(url, github_hosts()) {
        Ok(r) => Ok(r),
        Err(_) => match hosted_of(url, gitee_hosts()) {
            Ok(r) => Ok(r),
            Err(_) => Err("cannot parse owner/repo from origin url: "@ + url),
        },
    }
}

/// `owner/repo` after one of four prefixes of one host.
fn hosted(url: &str, p0: &str, p1: &str, p2: &str, p3: &str) -> (r: Result<String, String>)
    ensures
        match hosted_of(url@, seq![p0@, p1@, p2@, p3@]) {
            Ok(v) => r matches Ok(x) && x@ == v,
            Err(e) => r matches Err(m) && m@ == e,
        },
{
    let ghost p = seq![p0@, p1@, p2@, p3@];
    let tail = if let Some(t) = strip_prefix_of(url, p0) {
        t
    } else if let Some(t) = strip_prefix_of(url, p1) {
        t
    } else if let Some(t) = strip_prefix_of(url, p2) {
        t
    } else if let Some(t) = strip_prefix_of(url, p3) {
        t
    } else {
        return Err(owned("unmatched host"));
    };
    assert(tail_of(url@, p) == Some(tail@));
    let path = trim_end_matches(tail.as_str(), ".git");
    proof {
        reveal_strlit("/");
    }
    let parts = split_by(path.as_str(), "/");
    if parts.len() == 2 && parts[0].as_str().unicode_len() > 0 && parts[1].as_str().unicode_len() > 0 {
        assert(views(parts@)[0] == parts@[0]@ && views(parts@)[1] == parts@[1]@);
        let mut out = parts[0].clone();
        out.append("/");
        out.append(parts[1].as_str());
        Ok(out)
    } else {
        proof {
            if parts.len() == 2 {
                assert(views(parts@)[0] == parts@[0]@ && views(parts@)[1] == parts@[1]@);
            }
        }
        let mut e = owned("cannot parse owner/repo from origin url: ");
        e.append(url);
        Err(e)
    }
}

/// `owner/repo` of the URL of the git remote `origin` (already trimmed), for
/// GitHub and Gitee.
pub fn remote(url: &str) -> (r: Result<String, String>)
    ensures
        match remote_of(url@) {
            Ok(v) => r matches Ok(x) && x@ == v,
            Err(e) => r matches Err(m) && m@ == e,
        },
{
    if let Ok(repo) = hosted(url, "git@github.com:", "ssh://git@github.com/", "https://github.com/", "http://github.com/") {
        return Ok(repo);
    }
    if let Ok(repo) = hosted(url, "git@gitee.com:", "ssh://git@gitee.com/", "https://gitee.com/", "http://gitee.com/") {
        return Ok(repo);
    }
    let mut e = owned("cannot parse owner/repo from origin url: ");
    e.append(url);
    Err(e)
}

/// The repository of the current checkout as a GitHub `owner/repo`.
pub fn github(repo: String) -> (r: Result<String, String>)
    ensures
        occurs(repo@, "/"@) ==> (r matches Ok(x) && x@ == repo@),
        !occurs(repo@, "/"@) ==> (r matches Err(m) && m@ == "cannot parse GitHub owner/repo from current repository"@),
{
    if contains(repo.as_str(), "/") {
        Ok(repo)
    } else {
        Err(owned("cannot parse GitHub owner/repo from current repository"))
    }
}

/// The current branch from the output of `git branch --show-current`:
/// trimmed, and refused when empty.
pub fn branch(output: &str) -> (r: Result<String, String>)
    ensures
        trim(output@).len() > 0 ==> (r matches Ok(x) && x@ == trim(output@)),
        trim(output@).len() == 0 ==> (r matches Err(m) && m@ == "git branch --show-current returned an empty branch name"@),
{
    let b = trimmed(output);
    if b.as_str().unicode_len() == 0 {
        Err(owned("git branch --show-current returned an empty branch name"))
    } else {
        Ok(b)
    }
}

/// Where the token comes from.
pub enum TokenSource {
    /// `--token`, not empty.
    Given(String),
    /// `GITHUB_TOKEN` of an env-style file.
    File(String),
    /// An environment variable named by `--token-env`.
    Env(String),
    /// `GITHUB_TOKEN` of the environment, when set and not empty.
    Default,
}

/// Where the token comes from: `--token` when not empty, else
/// `--token-file`, else `--token-env`, else `GITHUB_TOKEN`.
pub open spec fn token_source_of(a: Seq<Seq<char>>) -> (u8, Seq<char>) {
    if option_of(a, "--token"@) matches Some(t) && t.len() > 0 {
        (0, option_of(a, "--token"@)->0)
    } else if option_of(a, "--token-file"@) is Some {
        (1, option_of(a, "--token-file"@)->0)
    } else if option_of(a, "--token-env"@) is Some {
        (2, option_of(a, "--token-env"@)->0)
    } else {
        (3, seq![])
    }
}

impl TokenSource {
    /// The source as a tag and its text.
    pub open spec fn view_of(&self) -> (u8, Seq<char>) {
        match self {
            TokenSource::Given(t) => (0, t@),
            TokenSource::File(p) => (1, p@),
            TokenSource::Env(n) => (2, n@),
            TokenSource::Default => (3, seq![]),
        }
    }
}

/// Where the token comes from.
pub fn token_source(args: &[String]) -> (r: TokenSource)
    ensures
        r.view_of() == token_source_of(views(args@)),
{
    if let Some(t) = optional_option(args, "--token") {
        if t.as_str().unicode_len() > 0 {
            return TokenSource::Given(t);
        }
    }
    if let Some(p) = optional_option(args, "--token-file") {
        return TokenSource::File(p);
    }
    if let Some(n) = optional_option(args, "--token-env") {
        return TokenSource::Env(n);
    }
    TokenSource::Default
}

/// The token of an env-style token file.
pub fn file_token(values: &Table<String>, path: &str) -> (r: Result<String, String>)
    ensures
        texts(values@).contains_key("GITHUB_TOKEN"@) && texts(values@)["GITHUB_TOKEN"@].len() > 0 ==> (r matches Ok(t)
            && t@ == texts(values@)["GITHUB_TOKEN"@]),
        !(texts(values@).contains_key("GITHUB_TOKEN"@) && texts(values@)["GITHUB_TOKEN"@].len() > 0) ==> (r matches Err(m)
            && m@ == "GITHUB_TOKEN not set in "@ + path@),
{
    if let Some(t) = values.get("GITHUB_TOKEN") {
        if t.as_str().unicode_len() > 0 {
            return Ok(t.clone());
        }
    }
    let mut e = owned("GITHUB_TOKEN not set in ");
    e.append(path);
    Err(e)
}

/// The token of the environment variable `name`, given its value.
pub fn env_token(name: &str, value: Option<String>) -> (r: Result<String, String>)
    ensures
        match value {
            None => r matches Err(m) && m@ == "environment variable not set: "@ + name@,
            Some(v) => if v@.len() == 0 {
                r matches Err(m) && m@ == "environment variable is empty: "@ + name@
            } else {
                r matches Ok(t) && t@ == v@
            },
        },
{
    match value {
        None => {
            let mut e = owned("environment variable not set: ");
            e.append(name);
            Err(e)
        },
        Some(v) => {
            if v.as_str().unicode_len() == 0 {
                let mut e = owned("environment variable is empty: ");
                e.append(name);
                Err(e)
            } else {
                Ok(v)
            }
        },
    }
}

/// Refuses a command that needs a token when none was found.
pub fn required_token(found: Option<String>) -> (r: Result<String, String>)
    ensures
        match found {
            Some(t) => r matches Ok(x) && x@ == t@,
            None => r matches Err(m)
                && m@ == "missing GitHub token: pass --token, --token-file, --token-env, or set GITHUB_TOKEN"@,
        },
{
    match found {
        Some(t) => Ok(t),
        None => Err(owned("missing GitHub token: pass --token, --token-file, --token-env, or set GITHUB_TOKEN")),
    }
}

/// The head commit of a pull request payload: the string `sha` of its
/// `head` object.
pub open spec fn head_sha_of(pull: Json) -> Option<Seq<char>> {
    match pull.member("head"@) {
        Some(h) => text_at(h, "sha"@),
        None => None,
    }
}

/// The head commit of a pull request payload, or the refusal when it has
/// none.
pub fn pull_head(pull: &Json) -> (r: Result<String, String>)
    ensures
        match head_sha_of(*pull) {
            Some(s) => r matches Ok(x) && x@ == s,
            None => r matches Err(e) && e@ == "GitHub API pull request payload missing head.sha"@,
        },
{
    match member(pull, "head") {
        Some(h) => match text_of(h, "sha") {
            Some(s) => Ok(owned(s)),
            None => Err(owned("GitHub API pull request payload missing head.sha")),
        },
        None => Err(owned("GitHub API pull request payload missing head.sha")),
    }
}

/// The count held by member `key`: its value when it is a number from 0 to
/// `u64::MAX`, else 0.
pub open spec fn count_of(v: Json, key: Seq<char>) -> u64 {
    match v.member(key) {
        Some(m) => match m.kind {
            Kind::Number(Some(n)) => n,
            _ => 0,
        },
        None => 0,
    }
}

/// The count held by member `key`.
pub fn count_at(v: &Json, key: &str) -> (r: u64)
    ensures
        r == count_of(*v, key@),
{
    match member(v, key) {
        Some(m) => match &m.kind {
            Kind::Number(Some(n)) => *n,
            _ => 0,
        },
        None => 0,
    }
}

/// The number of items of member `key`: the length of its array, else 0.
pub open spec fn items_of(v: Json, key: Seq<char>) -> nat {
    match v.member(key) {
        Some(m) => match m.kind {
            Kind::Array(rows) => rows@.len(),
            _ => 0,
        },
        None => 0,
    }
}

/// The number of items of member `key`.
pub fn items_at(v: &Json, key: &str) -> (r: usize)
    ensures
        r == items_of(*v, key@),
{
    match member(v, key) {
        Some(m) => match &m.kind {
            Kind::Array(rows) => rows.len(),
            _ => 0,
        },
        None => 0,
    }
}

/// What a checks probe counts of the head commit: its check runs (the
/// `total_count` of the check-runs reply) and its commit statuses (the
/// `statuses` of the combined-status reply).
pub fn checks_counted(checks: &Json, statuses: &Json) -> (r: (u64, usize))
    ensures
        r.0 == count_of(*checks, "total_count"@),
        r.1 == items_of(*statuses, "statuses"@),
{
    (count_at(checks, "total_count"), items_at(statuses, "statuses"))
}

/// The answer of a checks probe: `true` when fetching failed (the probe
/// fails open), else whether the head commit has check runs or commit
/// statuses.
pub fn probe_answer(fetched: Result<(u64, usize), String>) -> (r: &'static str)
    ensures
        fetched is Err ==> r@ == "true"@,
        fetched matches Ok((n, s)) ==> r@ == (if n > 0 || s > 0 {
            "true"@
        } else {
            "false"@
        }),
{
    match fetched {
        Ok((n, s)) => probed(n, s),
        Err(_) => "true",
    }
}

/// The answer of a checks probe: whether the head commit has check runs or
/// commit statuses.
pub fn probed(runs: u64, statuses: usize) -> (r: &'static str)
    ensures
        r@ == (if runs > 0 || statuses > 0 {
            "true"@
        } else {
            "false"@
        }),
{
    if runs > 0 || statuses > 0 {
        "true"
    } else {
        "false"
    }
}

/// The URL of a GitHub API path: the base (`RUNSEAL_GITHUB_API_BASE`, else
/// the public API) and the path with a leading `/`.
pub open spec fn github_url_of(base: Option<Seq<char>>, path: Seq<char>) -> Seq<char> {
    (match base {
        Some(b) => b,
        None => "https://api.github.com"@,
    }) + (if path.len() > 0 && path[0] == '/' {
        path
    } else {
        "/"@ + path
    })
}

/// The URL of a GitHub API path.
pub fn github_url(base: Option<&str>, path: &str) -> (r: String)
    ensures
        r@ == github_url_of(match base {
            Some(b) => Some(b@),
            None => None,
        }, path@),
{
    let mut out = match base {
        Some(b) => owned(b),
        None => owned("https://api.github.com"),
    };
    if path.unicode_len() > 0 && path.get_char(0) == '/' {
        out.append(path);
    } else {
        out.append("/");
        out.append(path);
    }
    out
}

/// The headers of a GitHub API request: `Accept`, `X-GitHub-Api-Version`
/// and `User-Agent`, then `Authorization: Bearer TOKEN` when there is a
/// token that is not empty.
pub fn github_headers(token: Option<&str>) -> (r: Vec<(String, String)>)
    ensures
        r@.len() == (if token matches Some(t) && t@.len() > 0 { 4int } else { 3int }),
        r@[0].0@ == "Accept"@ && r@[0].1@ == "application/vnd.github+json"@,
        r@[1].0@ == "X-GitHub-Api-Version"@ && r@[1].1@ == "2022-11-28"@,
        r@[2].0@ == "User-Agent"@ && r@[2].1@ == "runseal"@,
        match token {
            Some(t) => t@.len() > 0 ==> r@[3].0@ == "Authorization"@ && r@[3].1@ == "Bearer "@ + t@,
            None => true,
        },
{
    let mut out: Vec<(String, String)> = Vec::new();
    out.push((owned("Accept"), owned("application/vnd.github+json")));
    out.push((owned("X-GitHub-Api-Version"), owned("2022-11-28")));
    out.push((owned("User-Agent"), owned("runseal")));
    if let Some(t) = token {
        if t.unicode_len() > 0 {
            let mut v = owned("Bearer ");
            v.append(t);
            out.push((owned("Authorization"), v));
        }
    }
    out
}

/// The route of a pull request that a checks probe reads first.
pub fn probe_pull_path(repo: &str, number: &str) -> (r: String)
    ensures
        r@ == "/repos/"@ + repo@ + "/pulls/"@ + number@,
{
    let mut out = owned("/repos/");
    out.append(repo);
    out.append("/pulls/");
    out.append(number);
    out
}

/// The routes of the head commit's check runs and combined status, which a
/// checks probe reads next, in this order.
pub fn probe_commit_paths(repo: &str, sha: &str) -> (r: (String, String))
    ensures
        r.0@ == "/repos/"@ + repo@ + "/commits/"@ + sha@ + "/check-runs"@,
        r.1@ == "/repos/"@ + repo@ + "/commits/"@ + sha@ + "/status"@,
{
    let mut head = owned("/repos/");
    head.append(repo);
    head.append("/commits/");
    head.append(sha);
    let mut checks = owned(head.as_str());
    checks.append("/check-runs");
    let mut status = head;
    status.append("/status");
    (checks, status)
}

/// A GitHub API request: its method, route and JSON body.
pub struct Ask {
    pub method: String,
    pub path: String,
    pub body: Json,
}

/// `issue create`: `POST /repos/REPO/issues` with the title and, when
/// given, the body.
pub fn issue_ask(repo: &str, title: String, body: Option<String>) -> (r: Ask)
    ensures
        r.method@ == "POST"@,
        r.path@ == "/repos/"@ + repo@ + "/issues"@,
        crate::json::strings_body(r.body, match body {
            Some(b) => seq![("body"@, b@), ("title"@, title@)],
            None => seq![("title"@, title@)],
        }),
{
    let mut path = owned("/repos/");
    path.append(repo);
    path.append("/issues");
    let mut f: Vec<(String, Json)> = Vec::new();
    if let Some(b) = body {
        f.push((owned("body"), crate::json::text_value(b)));
    }
    f.push((owned("title"), crate::json::text_value(title)));
    Ask { method: owned("POST"), path, body: crate::json::object(f) }
}

/// `issue comment create`: `POST /repos/REPO/issues/NUMBER/comments` with
/// the body.
pub fn comment_ask(repo: &str, number: &str, body: String) -> (r: Ask)
    ensures
        r.method@ == "POST"@,
        r.path@ == "/repos/"@ + repo@ + "/issues/"@ + number@ + "/comments"@,
        crate::json::strings_body(r.body, seq![("body"@, body@)]),
{
    let mut path = owned("/repos/");
    path.append(repo);
    path.append("/issues/");
    path.append(number);
    path.append("/comments");
    let mut f: Vec<(String, Json)> = Vec::new();
    f.push((owned("body"), crate::json::text_value(body)));
    Ask { method: owned("POST"), path, body: crate::json::object(f) }
}

/// `issue body update`: `PATCH /repos/REPO/issues/NUMBER` with the body.
pub fn body_ask(repo: &str, number: &str, body: String) -> (r: Ask)
    ensures
        r.method@ == "PATCH"@,
        r.path@ == "/repos/"@ + repo@ + "/issues/"@ + number@,
        crate::json::strings_body(r.body, seq![("body"@, body@)]),
{
    let mut path = owned("/repos/");
    path.append(repo);
    path.append("/issues/");
    path.append(number);
    let mut f: Vec<(String, Json)> = Vec::new();
    f.push((owned("body"), crate::json::text_value(body)));
    Ask { method: owned("PATCH"), path, body: crate::json::object(f) }
}

/// The requester prefix is written once: prefixing a prefixed body changes
/// nothing.
pub proof fn lemma_prefix_once(repo: Seq<char>, branch: Seq<char>, body: Seq<char>)
    ensures
        prefixed_of(repo, branch, prefixed_of(repo, branch, body)) == prefixed_of(repo, branch, body),
{
    let p = prefix_text(repo, branch);
    if !is_prefix(p, body) {
        assert((p + body).subrange(0, p.len() as int) =~= p);
    }
}

} // verus!

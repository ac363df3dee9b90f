//! Where the `@tool forgejo` commands talk and sign in: the Forgejo URL and
//! token from the environment, else from a Tea login.
use vstd::prelude::*;

use crate::model::path::{join, joined};
use crate::text::{decimal, decimal_of, ends_with, is_suffix, owned, same, trim_end_all, trim_end_matches};

verus! {

/// A login of the Tea configuration.
pub struct Login {
    pub name: String,
    pub url: String,
    pub token: String,
    pub active: bool,
}

/// Picks the login that the Tea configuration gives: the one named (by
/// `--login` or `FORGEJO_LOGIN`), else the first active one, else the only
/// one.
pub fn pick(logins: &[Login], name: Option<&str>) -> (r: Result<usize, String>)
    ensures
        match r {
            Ok(i) => i < logins@.len() && match name {
                Some(n) => logins@[i as int].name@ == n@ && forall|j: int| 0 <= j < i ==> logins@[j].name@ != n@,
                None => (logins@[i as int].active && forall|j: int| 0 <= j < i ==> !logins@[j].active) || (logins@.len()
                    == 1 && i == 0 && forall|j: int| 0 <= j < logins@.len() ==> !logins@[j].active),
            },
            Err(e) => match name {
                Some(n) => (forall|j: int| 0 <= j < logins@.len() ==> logins@[j].name@ != n@) && e@ == "Tea login not found: "@
                    + n@,
                None => (forall|j: int| 0 <= j < logins@.len() ==> !logins@[j].active) && ((logins@.len() == 0 && e@
                    == "Tea config has no logins"@) || (logins@.len() > 1 && e@
                    == "multiple Tea logins found: pass --login or set FORGEJO_LOGIN"@)),
            },
        },
{
    match name {
        Some(n) => {
            let mut i: usize = 0;
            while i < logins.len()
                invariant
                    i <= logins@.len(),
                    name == Some(n),
                    forall|j: int| 0 <= j < i ==> logins@[j].name@ != n@,
                decreases logins@.len() - i,
            {
                if same(logins[i].name.as_str(), n) {
                    return Ok(i);
                }
                i += 1;
            }
            let mut e = owned("Tea login not found: ");
            e.append(n);
            Err(e)
        },
        None => {
            let mut i: usize = 0;
            while i < logins.len()
                invariant
                    i <= logins@.len(),
                    name is None,
                    forall|j: int| 0 <= j < i ==> !logins@[j].active,
                decreases logins@.len() - i,
            {
                if logins[i].active {
                    return Ok(i);
                }
                i += 1;
            }
            if logins.len() == 1 {
                Ok(0)
            } else if logins.len() == 0 {
                Err(owned("Tea config has no logins"))
            } else {
                Err(owned("multiple Tea logins found: pass --login or set FORGEJO_LOGIN"))
            }
        },
    }
}

/// The API base of a Forgejo URL: without trailing `/`, ending in
/// `/api/v1`.
pub open spec fn api_of(value: Seq<char>) -> Seq<char> {
    let v = trim_end_all(value, "/"@);
    if is_suffix("/api/v1"@, v) {
        v
    } else {
        v + "/api/v1"@
    }
}

/// The API base of a Forgejo URL.
pub fn api(value: &str) -> (r: String)
    ensures
        r@ == api_of(value@),
{
    let mut v = trim_end_matches(value, "/");
    if !ends_with(v.as_str(), "/api/v1") {
        v.append("/api/v1");
    }
    v
}

/// An API path with a leading `/`.
pub open spec fn route_of(path: Seq<char>) -> Seq<char> {
    if path.len() > 0 && path[0] == '/' {
        path
    } else {
        "/"@ + path
    }
}

/// An API path with a leading `/`.
pub fn route(path: &str) -> (r: String)
    ensures
        r@ == route_of(path@),
{
    if path.unicode_len() > 0 && path.get_char(0) == '/' {
        owned(path)
    } else {
        let mut out = owned("/");
        out.append(path);
        out
    }
}

/// Whether a Tea login is needed: the token or the URL is not in the
/// environment.
pub fn needs_login(token: &Option<String>, base: &Option<String>) -> (r: bool)
    ensures
        r == (token is None || base is None),
{
    token.is_none() || base.is_none()
}

/// The API base and token: the environment's, else the login's; a token must
/// not be empty.
pub open spec fn settle_of(token: Option<Seq<char>>, base: Option<Seq<char>>, login: Option<(Seq<char>, Seq<char>)>)
    -> Result<(Seq<char>, Seq<char>), Seq<char>> {
    let t = match token {
        Some(t) => Some(t),
        None => match login {
            Some((_, lt)) => Some(lt),
            None => None,
        },
    };
    if !(t matches Some(x) && x.len() > 0) {
        Err("missing Forgejo token: configure Tea or set FORGEJO_TOKEN"@)
    } else {
        match base {
            Some(b) => Ok((api_of(b), t->0)),
            None => match login {
                Some((url, _)) => Ok((api_of(url), t->0)),
                None => Err("missing Forgejo URL: configure Tea or set FORGEJO_URL"@),
            },
        }
    }
}

/// The API base and token.
pub fn settle(token: Option<String>, base: Option<String>, login: Option<Login>) -> (r: Result<(String, String), String>)
    ensures
        match settle_of(match token {
            Some(t) => Some(t@),
            None => None,
        }, match base {
            Some(b) => Some(b@),
            None => None,
        }, match login {
            Some(l) => Some((l.url@, l.token@)),
            None => None,
        }) {
            Ok((b, t)) => r matches Ok((x, y)) && x@ == b && y@ == t,
            Err(e) => r matches Err(m) && m@ == e,
        },
{
    let t = match token {
        Some(t) => Some(t),
        None => match &login {
            Some(l) => Some(l.token.clone()),
            None => None,
        },
    };
    let t = match t {
        Some(x) => {
            if x.as_str().unicode_len() > 0 {
                x
            } else {
                return Err(owned("missing Forgejo token: configure Tea or set FORGEJO_TOKEN"));
            }
        },
        None => {
            return Err(owned("missing Forgejo token: configure Tea or set FORGEJO_TOKEN"));
        },
    };
    match base {
        Some(b) => Ok((api(b.as_str()), t)),
        None => match login {
            Some(l) => Ok((api(l.url.as_str()), t)),
            None => Err(owned("missing Forgejo URL: configure Tea or set FORGEJO_URL")),
        },
    }
}

/// The Tea configuration file: `RUNSEAL_TEA_CONFIG`, else `.tea/tea.yml` in
/// the home directory.
pub fn tea_path(config: Option<&str>, home: Option<&str>) -> (r: Result<String, String>)
    ensures
        match config {
            Some(c) => r matches Ok(p) && p@ == c@,
            None => match home {
                Some(h) => r matches Ok(p) && p@ == join(h@, ".tea/tea.yml"@),
                None => r matches Err(e) && e@ == "HOME is not set"@,
            },
        },
{
    match config {
        Some(c) => Ok(owned(c)),
        None => match home {
            Some(h) => Ok(joined(h, ".tea/tea.yml")),
            None => Err(owned("HOME is not set")),
        },
    }
}

/// The refusal of a reply that is not a success: its method, path, status
/// code and JSON text.
pub open spec fn refusal_of(method: Seq<char>, path: Seq<char>, status: nat, value: Seq<char>) -> Seq<char> {
    "Forgejo API "@ + method + " "@ + path + " -> "@ + decimal(status) + ": "@ + value
}

/// Whether an HTTP status is a success (2xx).
pub open spec fn success(status: nat) -> bool {
    200 <= status <= 299
}

/// The check of a reply: refused unless its status is a success.
pub fn checked(method: &str, path: &str, status: u16, value: &str) -> (r: Result<(), String>)
    ensures
        success(status as nat) ==> r is Ok,
        !success(status as nat) ==> (r matches Err(e) && e@ == refusal_of(method@, path@, status as nat, value@)),
{
    if 200 <= status && status <= 299 {
        return Ok(());
    }
    let mut e = owned("Forgejo API ");
    e.append(method);
    e.append(" ");
    e.append(path);
    e.append(" -> ");
    let d = decimal_of(status as u64);
    e.append(d.as_str());
    e.append(": ");
    e.append(value);
    Err(e)
}

/// The check of a probe: a missing path (404) is `None`, a success is
/// `Some`, anything else is refused.
pub fn probed(path: &str, status: u16, value: &str) -> (r: Result<bool, String>)
    ensures
        status == 404 ==> r == Ok::<bool, String>(false),
        status != 404 && success(status as nat) ==> r == Ok::<bool, String>(true),
        status != 404 && !success(status as nat) ==> (r matches Err(e) && e@ == refusal_of("GET"@, path@, status as nat, value@)),
{
    if status == 404 {
        return Ok(false);
    }
    checked("GET", path, status, value)?;
    Ok(true)
}

} // verus!

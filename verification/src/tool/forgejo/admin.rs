//! The administration verbs of `@forgejo-admin`: the API tokens of an
//! account.
use vstd::prelude::*;

use crate::text::{number, owned, parse_u64, shaped, split, split_by, views, alnum, is_alnum};

verus! {

/// A token verb.
pub enum Token {
    List { account: String },
    Create { account: String, name: String, scopes: Vec<String> },
    Drop { account: String, name: String, id: u64 },
}

/// A token verb, in text.
pub enum TokenModel {
    List { account: Seq<char> },
    Create { account: Seq<char>, name: Seq<char>, scopes: Seq<Seq<char>> },
    Drop { account: Seq<char>, name: Seq<char>, id: nat },
}

impl Token {
    /// The verb in text.
    pub open spec fn model(&self) -> TokenModel {
        match self {
            Token::List { account } => TokenModel::List { account: account@ },
            Token::Create { account, name, scopes } => TokenModel::Create {
                account: account@,
                name: name@,
                scopes: views(scopes@),
            },
            Token::Drop { account, name, id } => TokenModel::Drop { account: account@, name: name@, id: *id as nat },
        }
    }
}

/// An administration resource.
pub enum Admin {
    Token(Token),
}

/// An administration verb.
pub enum Deed {
    Admin(Admin),
}

impl Deed {
    /// The verb in text.
    pub open spec fn model(&self) -> TokenModel {
        match self {
            Deed::Admin(Admin::Token(t)) => t.model(),
        }
    }
}

/// A character allowed in a simple token: ASCII letters and digits, `.`,
/// `_`, `:` and `-`.
pub open spec fn simple(c: char) -> bool {
    alnum(c) || c == '.' || c == '_' || c == ':' || c == '-'
}

/// One simple token: not empty, of simple characters only.
pub open spec fn plain(v: Seq<char>) -> bool {
    v.len() > 0 && forall|i: int| 0 <= i < v.len() ==> simple(#[trigger] v[i])
}

/// The refusal of a value that is not one simple token.
pub open spec fn not_plain(label: Seq<char>) -> Seq<char> {
    "@forgejo admin "@ + label + " must be one simple token"@
}

/// The refusal of an unknown administration verb.
pub open spec fn usage() -> Seq<char> {
    "@forgejo admin expected token list ACCOUNT, token create ACCOUNT NAME --scopes LIST, or token delete ACCOUNT NAME ID"@
}

/// The administration verb that the arguments and `--scopes` name.
pub open spec fn take_of(r: Seq<Seq<char>>, scopes: Option<Seq<char>>) -> Result<TokenModel, Seq<char>> {
    if r.len() == 4 && r[0] == "admin"@ && r[1] == "token"@ && r[2] == "list"@ {
        if !plain(r[3]) {
            Err(not_plain("account"@))
        } else {
            Ok(TokenModel::List { account: r[3] })
        }
    } else if r.len() == 5 && r[0] == "admin"@ && r[1] == "token"@ && r[2] == "create"@ {
        match scopes {
            None => Err("@forgejo admin token create requires --scopes"@),
            Some(s) => {
                let parts = split(s, ","@);
                if !plain(r[3]) {
                    Err(not_plain("account"@))
                } else if !plain(r[4]) {
                    Err(not_plain("token name"@))
                } else if parts.len() == 0 {
                    Err("@forgejo admin --scopes cannot be empty"@)
                } else if exists|i: int| 0 <= i < parts.len() && !plain(#[trigger] parts[i]) {
                    Err(not_plain("scope"@))
                } else {
                    Ok(TokenModel::Create { account: r[3], name: r[4], scopes: parts })
                }
            },
        }
    } else if r.len() == 6 && r[0] == "admin"@ && r[1] == "token"@ && r[2] == "delete"@ {
        if !plain(r[3]) {
            Err(not_plain("account"@))
        } else if !plain(r[4]) {
            Err(not_plain("token name"@))
        } else {
            match number(r[5]) {
                Some(n) => if 0 < n <= u64::MAX {
                    Ok(TokenModel::Drop { account: r[3], name: r[4], id: n })
                } else {
                    Err("@forgejo admin token ID must be positive"@)
                },
                None => Err("@forgejo admin token ID must be positive"@),
            }
        }
    } else {
        Err(usage())
    }
}

/// Refuses a value that is not one simple token.
pub fn validate(value: &str, label: &str) -> (r: Result<(), String>)
    ensures
        r is Ok <==> plain(value@),
        r matches Err(e) ==> e@ == not_plain(label@),
{
    let n = value.unicode_len();
    let mut ok = n > 0;
    let mut i: usize = 0;
    while i < n
        invariant
            n == value@.len(),
            i <= n,
            ok == (n > 0 && forall|j: int| 0 <= j < i ==> simple(#[trigger] value@[j])),
        decreases n - i,
    {
        let c = value.get_char(i);
        let fits = is_alnum(c) || c == '.' || c == '_' || c == ':' || c == '-';
        ok = ok && fits;
        i += 1;
    }
    if ok {
        Ok(())
    } else {
        let mut e = owned("@forgejo admin ");
        e.append(label);
        e.append(" must be one simple token");
        Err(e)
    }
}

impl Deed {
    /// Reads an administration verb from the remaining arguments and the
    /// value of `--scopes`.
    #[verifier::loop_isolation(false)]
    pub fn take(rest: &[String], scopes: Option<&str>) -> (r: Result<Self, String>)
        ensures
            match take_of(views(rest@), match scopes {
                Some(s) => Some(s@),
                None => None,
            }) {
                Ok(m) => r matches Ok(d) && d.model() == m,
                Err(e) => r matches Err(m) && m@ == e,
            },
    {
        let ghost v = views(rest@);
        assert forall|i: int| 0 <= i < rest.len() implies v[i] == #[trigger] rest@[i]@ by {}
        let token = if shaped(rest, &["admin", "token", "list"], 1) {
            validate(rest[3].as_str(), "account")?;
            Token::List { account: rest[3].clone() }
        } else if shaped(rest, &["admin", "token", "create"], 2) {
            let given = match scopes {
                Some(s) => s,
                None => {
                    return Err(owned("@forgejo admin token create requires --scopes"));
                },
            };
            proof {
                reveal_strlit(",");
            }
            let parts = split_by(given, ",");
            validate(rest[3].as_str(), "account")?;
            validate(rest[4].as_str(), "token name")?;
            if parts.len() == 0 {
                return Err(owned("@forgejo admin --scopes cannot be empty"));
            }
            let mut k: usize = 0;
            while k < parts.len()
                invariant
                    k <= parts.len(),
                    views(parts@) == split(given@, ","@),
                    forall|j: int| 0 <= j < k ==> plain(#[trigger] views(parts@)[j]),
                decreases parts.len() - k,
            {
                match validate(parts[k].as_str(), "scope") {
                    Ok(()) => {},
                    Err(e) => {
                        assert(!plain(split(given@, ","@)[k as int]));
                        return Err(e);
                    },
                }
                k += 1;
            }
            Token::Create { account: rest[3].clone(), name: rest[4].clone(), scopes: parts }
        } else if shaped(rest, &["admin", "token", "delete"], 3) {
            validate(rest[3].as_str(), "account")?;
            validate(rest[4].as_str(), "token name")?;
            let id = match parse_u64(rest[5].as_str()) {
                Some(n) => {
                    if n > 0 {
                        n
                    } else {
                        return Err(owned("@forgejo admin token ID must be positive"));
                    }
                },
                None => {
                    return Err(owned("@forgejo admin token ID must be positive"));
                },
            };
            Token::Drop { account: rest[3].clone(), name: rest[4].clone(), id }
        } else {
            return Err(owned(
                "@forgejo admin expected token list ACCOUNT, token create ACCOUNT NAME --scopes LIST, or token delete ACCOUNT NAME ID",
            ));
        };
        Ok(Deed::Admin(Admin::Token(token)))
    }
}

} // verus!

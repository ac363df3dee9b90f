//! The resource verbs of `@cloudflare`: tokens of an account or a user, and
//! the Workers and R2 controls of an account.
use vstd::prelude::*;

use crate::text::{owned, same, shaped, views};

verus! {

/// Whose API tokens a verb manages.
#[derive(Clone, Copy, PartialEq, Eq, Debug)]
pub enum Owner {
    Account,
    User,
}

impl Owner {
    /// The other owner's name, for messages that suggest it.
    pub fn other(self) -> (r: &'static str)
        ensures
            r@ == match self {
                Owner::Account => "user"@,
                Owner::User => "account"@,
            },
    {
        match self {
            Owner::Account => "user",
            Owner::User => "account",
        }
    }
}

/// A token verb.
pub enum Action {
    List,
    Show(String),
    Create,
    Edit(String),
    Roll(String),
    Drop(String),
    Verify,
    Permissions,
}

/// A token verb, in text.
pub enum ActionModel {
    List,
    Show(Seq<char>),
    Create,
    Edit(Seq<char>),
    Roll(Seq<char>),
    Drop(Seq<char>),
    Verify,
    Permissions,
}

impl Action {
    /// The verb in text.
    pub open spec fn model(&self) -> ActionModel {
        match self {
            Action::List => ActionModel::List,
            Action::Show(i) => ActionModel::Show(i@),
            Action::Create => ActionModel::Create,
            Action::Edit(i) => ActionModel::Edit(i@),
            Action::Roll(i) => ActionModel::Roll(i@),
            Action::Drop(i) => ActionModel::Drop(i@),
            Action::Verify => ActionModel::Verify,
            Action::Permissions => ActionModel::Permissions,
        }
    }
}

/// A token verb with its owner.
pub struct Token {
    pub owner: Owner,
    pub kind: Action,
}

/// A Workers or R2 verb.
pub enum Control {
    Worker(String),
    Domains,
    Bucket(String),
    Create(String),
    Custom(String),
    Attach(String),
    Normalize { bucket: String, domain: String },
    Detach { bucket: String, domain: String },
    Drop(String),
}

/// A Workers or R2 verb, in text.
pub enum ControlModel {
    Worker(Seq<char>),
    Domains,
    Bucket(Seq<char>),
    Create(Seq<char>),
    Custom(Seq<char>),
    Attach(Seq<char>),
    Normalize { bucket: Seq<char>, domain: Seq<char> },
    Detach { bucket: Seq<char>, domain: Seq<char> },
    Drop(Seq<char>),
}

impl Control {
    /// The verb in text.
    pub open spec fn model(&self) -> ControlModel {
        match self {
            Control::Worker(n) => ControlModel::Worker(n@),
            Control::Domains => ControlModel::Domains,
            Control::Bucket(n) => ControlModel::Bucket(n@),
            Control::Create(n) => ControlModel::Create(n@),
            Control::Custom(n) => ControlModel::Custom(n@),
            Control::Attach(n) => ControlModel::Attach(n@),
            Control::Normalize { bucket, domain } => ControlModel::Normalize { bucket: bucket@, domain: domain@ },
            Control::Detach { bucket, domain } => ControlModel::Detach { bucket: bucket@, domain: domain@ },
            Control::Drop(n) => ControlModel::Drop(n@),
        }
    }
}

/// A `@cloudflare` verb.
pub enum Deed {
    Token(Token),
    Control(Control),
}

/// A `@cloudflare` verb, in text.
pub enum DeedModel {
    Token(Owner, ActionModel),
    Control(ControlModel),
}

impl Deed {
    /// The verb in text.
    pub open spec fn model(&self) -> DeedModel {
        match self {
            Deed::Token(t) => DeedModel::Token(t.owner, t.kind.model()),
            Deed::Control(c) => DeedModel::Control(c.model()),
        }
    }
}

/// The token verb after `token OWNER`.
pub open spec fn action_of(rest: Seq<Seq<char>>) -> Option<ActionModel> {
    if rest.len() == 1 && rest[0] == "list"@ {
        Some(ActionModel::List)
    } else if rest.len() == 2 && rest[0] == "show"@ {
        Some(ActionModel::Show(rest[1]))
    } else if rest.len() == 1 && rest[0] == "create"@ {
        Some(ActionModel::Create)
    } else if rest.len() == 2 && rest[0] == "edit"@ {
        Some(ActionModel::Edit(rest[1]))
    } else if rest.len() == 2 && rest[0] == "roll"@ {
        Some(ActionModel::Roll(rest[1]))
    } else if rest.len() == 2 && rest[0] == "delete"@ {
        Some(ActionModel::Drop(rest[1]))
    } else if rest.len() == 1 && rest[0] == "verify"@ {
        Some(ActionModel::Verify)
    } else if rest.len() == 2 && rest[0] == "permission"@ && rest[1] == "list"@ {
        Some(ActionModel::Permissions)
    } else {
        None
    }
}

/// `token OWNER VERB...` read as a token verb.
pub open spec fn token_of(args: Seq<Seq<char>>) -> Result<(Owner, ActionModel), Seq<char>> {
    if args.len() < 2 || args[0] != "token"@ {
        Err("@cloudflare expected token OWNER VERB"@)
    } else if args[1] != "account"@ && args[1] != "user"@ {
        Err("@cloudflare token owner must be account or user"@)
    } else {
        let owner = if args[1] == "account"@ {
            Owner::Account
        } else {
            Owner::User
        };
        match action_of(args.skip(2)) {
            Some(k) => Ok((owner, k)),
            None => Err("@cloudflare expected a known token resource verb"@),
        }
    }
}

/// The Workers or R2 verb that the arguments name.
pub open spec fn control_of(a: Seq<Seq<char>>) -> Option<ControlModel> {
    if a.len() == 4 && a[0] == "worker"@ && a[1] == "service"@ && a[2] == "show"@ {
        Some(ControlModel::Worker(a[3]))
    } else if a.len() == 3 && a[0] == "worker"@ && a[1] == "domain"@ && a[2] == "list"@ {
        Some(ControlModel::Domains)
    } else if a.len() == 4 && a[0] == "r2"@ && a[1] == "bucket"@ && a[2] == "show"@ {
        Some(ControlModel::Bucket(a[3]))
    } else if a.len() == 4 && a[0] == "r2"@ && a[1] == "bucket"@ && a[2] == "create"@ {
        Some(ControlModel::Create(a[3]))
    } else if a.len() == 5 && a[0] == "r2"@ && a[1] == "bucket"@ && a[2] == "domain"@ && a[3] == "list"@ {
        Some(ControlModel::Custom(a[4]))
    } else if a.len() == 5 && a[0] == "r2"@ && a[1] == "bucket"@ && a[2] == "domain"@ && a[3] == "create"@ {
        Some(ControlModel::Attach(a[4]))
    } else if a.len() == 6 && a[0] == "r2"@ && a[1] == "bucket"@ && a[2] == "domain"@ && a[3] == "edit"@ {
        Some(ControlModel::Normalize { bucket: a[4], domain: a[5] })
    } else if a.len() == 6 && a[0] == "r2"@ && a[1] == "bucket"@ && a[2] == "domain"@ && a[3] == "delete"@ {
        Some(ControlModel::Detach { bucket: a[4], domain: a[5] })
    } else if a.len() == 4 && a[0] == "r2"@ && a[1] == "bucket"@ && a[2] == "delete"@ {
        Some(ControlModel::Drop(a[3]))
    } else {
        None
    }
}

/// The `@cloudflare` verb that the arguments name.
pub open spec fn take_of(args: Seq<Seq<char>>) -> Result<DeedModel, Seq<char>> {
    if args.len() > 0 && args[0] == "token"@ {
        match token_of(args) {
            Ok((o, k)) => Ok(DeedModel::Token(o, k)),
            Err(e) => Err(e),
        }
    } else if args.len() > 0 && (args[0] == "worker"@ || args[0] == "r2"@) {
        match control_of(args) {
            Some(c) => Ok(DeedModel::Control(c)),
            None => Err("@cloudflare expected a known worker or r2 resource verb"@),
        }
    } else {
        Err("@cloudflare expected token, worker, or r2 resource"@)
    }
}

/// Reads a token verb.
fn token(args: &[String]) -> (r: Result<Token, String>)
    ensures
        match token_of(views(args@)) {
            Ok((o, k)) => r matches Ok(t) && t.owner == o && t.kind.model() == k,
            Err(e) => r matches Err(m) && m@ == e,
        },
{
    let ghost v = views(args@);
    let n = args.len();
    if n < 2 || !same(args[0].as_str(), "token") {
        return Err(owned("@cloudflare expected token OWNER VERB"));
    }
    assert(v[0] == args@[0]@ && v[1] == args@[1]@);
    let owner = if same(args[1].as_str(), "account") {
        Owner::Account
    } else if same(args[1].as_str(), "user") {
        Owner::User
    } else {
        return Err(owned("@cloudflare token owner must be account or user"));
    };
    let ghost rest = v.skip(2);
    assert(rest.len() == n - 2);
    if n >= 3 {
        assert(rest[0] == args@[2]@);
    }
    if n >= 4 {
        assert(rest[1] == args@[3]@);
    }
    let kind = if n == 3 && same(args[2].as_str(), "list") {
        Action::List
    } else if n == 4 && same(args[2].as_str(), "show") {
        Action::Show(args[3].clone())
    } else if n == 3 && same(args[2].as_str(), "create") {
        Action::Create
    } else if n == 4 && same(args[2].as_str(), "edit") {
        Action::Edit(args[3].clone())
    } else if n == 4 && same(args[2].as_str(), "roll") {
        Action::Roll(args[3].clone())
    } else if n == 4 && same(args[2].as_str(), "delete") {
        Action::Drop(args[3].clone())
    } else if n == 3 && same(args[2].as_str(), "verify") {
        Action::Verify
    } else if n == 4 && same(args[2].as_str(), "permission") && same(args[3].as_str(), "list") {
        Action::Permissions
    } else {
        return Err(owned("@cloudflare expected a known token resource verb"));
    };
    Ok(Token { owner, kind })
}

/// Reads a Workers or R2 verb.
fn control(args: &[String]) -> (r: Result<Control, String>)
    ensures
        match control_of(views(args@)) {
            Some(c) => r matches Ok(d) && d.model() == c,
            None => r matches Err(m) && m@ == "@cloudflare expected a known worker or r2 resource verb"@,
        },
{
    let ghost v = views(args@);
    assert forall|i: int| 0 <= i < args.len() implies v[i] == #[trigger] args@[i]@ by {}
    if shaped(args, &["worker", "service", "show"], 1) {
        return Ok(Control::Worker(args[3].clone()));
    }
    if shaped(args, &["worker", "domain", "list"], 0) {
        return Ok(Control::Domains);
    }
    if shaped(args, &["r2", "bucket", "show"], 1) {
        return Ok(Control::Bucket(args[3].clone()));
    }
    if shaped(args, &["r2", "bucket", "create"], 1) {
        return Ok(Control::Create(args[3].clone()));
    }
    if shaped(args, &["r2", "bucket", "domain", "list"], 1) {
        return Ok(Control::Custom(args[4].clone()));
    }
    if shaped(args, &["r2", "bucket", "domain", "create"], 1) {
        return Ok(Control::Attach(args[4].clone()));
    }
    if shaped(args, &["r2", "bucket", "domain", "edit"], 2) {
        return Ok(Control::Normalize { bucket: args[4].clone(), domain: args[5].clone() });
    }
    if shaped(args, &["r2", "bucket", "domain", "delete"], 2) {
        return Ok(Control::Detach { bucket: args[4].clone(), domain: args[5].clone() });
    }
    if shaped(args, &["r2", "bucket", "delete"], 1) {
        return Ok(Control::Drop(args[3].clone()));
    }
    Err(owned("@cloudflare expected a known worker or r2 resource verb"))
}

impl Deed {
    /// Reads the `@cloudflare` verb from the remaining arguments.
    pub fn take(args: &[String]) -> (r: Result<Self, String>)
        ensures
            match take_of(views(args@)) {
                Ok(d) => r matches Ok(t) && t.model() == d,
                Err(e) => r matches Err(m) && m@ == e,
            },
    {
        let ghost v = views(args@);
        if args.len() > 0 {
            assert(v[0] == args@[0]@);
        }
        if args.len() > 0 && same(args[0].as_str(), "token") {
            match token(args) {
                Ok(t) => Ok(Deed::Token(t)),
                Err(e) => Err(e),
            }
        } else if args.len() > 0 && (same(args[0].as_str(), "worker") || same(args[0].as_str(), "r2")) {
            match control(args) {
                Ok(c) => Ok(Deed::Control(c)),
                Err(e) => Err(e),
            }
        } else {
            Err(owned("@cloudflare expected token, worker, or r2 resource"))
        }
    }

    /// Whether the reply carries a new token secret: a token is created or
    /// rolled.
    pub fn secret(&self) -> (r: bool)
        ensures
            r == (self.model() matches DeedModel::Token(_, k) && (k is Create || k is Roll)),
    {
        match self {
            Deed::Token(t) => match t.kind {
                Action::Create => true,
                Action::Roll(_) => true,
                _ => false,
            },
            _ => false,
        }
    }

    /// Whether the verb rolls a token's secret.
    pub fn rolls(&self) -> (r: bool)
        ensures
            r == (self.model() matches DeedModel::Token(_, k) && k is Roll),
    {
        match self {
            Deed::Token(t) => match t.kind {
                Action::Roll(_) => true,
                _ => false,
            },
            _ => false,
        }
    }
}

impl Token {
    /// The kind of the reply in the JSON envelope.
    pub fn label(&self) -> (r: &'static str)
        ensures
            r@ == match self.kind.model() {
                ActionModel::List => "tokens"@,
                ActionModel::Permissions => "permissions"@,
                ActionModel::Verify => "verification"@,
                _ => "token"@,
            },
    {
        match self.kind {
            Action::List => "tokens",
            Action::Permissions => "permissions",
            Action::Verify => "verification",
            _ => "token",
        }
    }
}

} // verus!

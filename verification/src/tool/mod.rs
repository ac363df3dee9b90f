//! The native `@tool` calls: which tool a name selects, and the secret that a
//! tool's reply may carry.
pub mod client;
pub mod cloudflare;
pub mod forgejo;
pub mod github;
pub mod help;

use vstd::prelude::*;

use crate::text::{owned, same};

verus! {

/// A secret value that a reply carries apart from its printed value.
pub struct Secret(String);

impl View for Secret {
    type V = Seq<char>;

    closed spec fn view(&self) -> Seq<char> {
        self.0@
    }
}

/// Empties a string through `zeroize`, which overwrites its bytes first.
#[verifier::external_body]
fn wipe_text(text: &mut String)
    ensures
        final(text)@ == Seq::<char>::empty(),
{
    zeroize::Zeroize::zeroize(text);
}

impl Secret {
    /// Holds a secret value.
    pub fn new(held: String) -> (r: Self)
        ensures
            r@ == held@,
    {
        Secret(held)
    }

    /// The secret value.
    pub fn expose(&self) -> (r: &str)
        ensures
            r@ == self@,
    {
        self.0.as_str()
    }

    /// Overwrites and empties the secret once it is no longer needed.
    pub fn wipe(&mut self)
        ensures
            final(self)@ == Seq::<char>::empty(),
    {
        wipe_text(&mut self.0);
    }
}

/// What a native tool call answers: the kind of the value, the value, and
/// the secret it carries apart from the value, if any.
pub struct Reply {
    pub kind: String,
    pub value: crate::json::Json,
    pub secret: Option<Secret>,
}

impl Reply {
    /// The secret that the reply carries, if any.
    pub open spec fn held(&self) -> Option<Seq<char>> {
        match self.secret {
            Some(s) => Some(s@),
            None => None,
        }
    }

    /// A reply without a secret.
    pub fn plain(kind: &str, value: crate::json::Json) -> (r: Self)
        ensures
            r.kind@ == kind@,
            r.value == value,
            r.held() is None,
    {
        Reply { kind: owned(kind), value, secret: None }
    }

    /// A reply that carries `secret` apart from its value.
    pub fn guarded(kind: &str, value: crate::json::Json, secret: String) -> (r: Self)
        ensures
            r.kind@ == kind@,
            r.value == value,
            r.held() == Some(secret@),
    {
        Reply { kind: owned(kind), value, secret: Some(Secret::new(secret)) }
    }

    /// The secret that the reply carries.
    pub fn secret(&self) -> (r: Option<&Secret>)
        ensures
            match self.held() {
                Some(t) => r matches Some(s) && s@ == t,
                None => r is None,
            },
    {
        match &self.secret {
            Some(s) => Some(s),
            None => None,
        }
    }
}

/// A native tool.
#[derive(Clone, Copy, PartialEq, Eq, Debug)]
pub enum Tool {
    Cloudflare,
    Forgejo,
    ForgejoAdmin,
}

/// The tool that a name selects.
pub open spec fn tool_of(name: Seq<char>) -> Option<Tool> {
    if name == "cloudflare"@ {
        Some(Tool::Cloudflare)
    } else if name == "forgejo"@ {
        Some(Tool::Forgejo)
    } else if name == "forgejo-admin"@ {
        Some(Tool::ForgejoAdmin)
    } else {
        None
    }
}

/// Selects the tool that `@name` runs; an unknown name is refused.
pub fn run(name: &str) -> (r: Result<Tool, String>)
    ensures
        match tool_of(name@) {
            Some(t) => r == Ok::<Tool, String>(t),
            None => r matches Err(e) && e@ == "unknown Runseal tool: @"@ + name@,
        },
{
    if same(name, "cloudflare") {
        Ok(Tool::Cloudflare)
    } else if same(name, "forgejo") {
        Ok(Tool::Forgejo)
    } else if same(name, "forgejo-admin") {
        Ok(Tool::ForgejoAdmin)
    } else {
        let mut e = owned("unknown Runseal tool: @");
        e.append(name);
        Err(e)
    }
}

} // verus!

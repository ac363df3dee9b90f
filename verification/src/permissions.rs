//! The Deno permissions of a wrapper, with environment references expanded.
use vstd::prelude::*;

use crate::text::{occurs, owned};

verus! {

/// Expands `$VAR` and `${VAR}` references through `shellexpand::env`; the
/// values come from the process environment, so only a text without `$` has
/// a known outcome: it comes back unchanged. `Err` when a referenced
/// variable cannot be read.
#[verifier::external_body]
fn expand_env(text: &str) -> (r: Result<String, ()>)
    ensures
        r is Ok || occurs(text@, "$"@),
        r matches Ok(t) ==> t@ == text@ || occurs(text@, "$"@),
{
    match shellexpand::env(text) {
        Ok(expanded) => Ok(expanded.into_owned()),
        Err(_) => Err(()),
    }
}

/// What `shellexpand::env` may give back for a text, as far as the process
/// environment leaves it known: a text without `$` comes back unchanged.
pub open spec fn env_outcome(text: Seq<char>, o: Result<String, ()>) -> bool {
    &&& o is Ok || occurs(text, "$"@)
    &&& o matches Ok(t) ==> t@ == text || occurs(text, "$"@)
}

/// `i` is the first permission whose expansion failed.
pub open spec fn first_failure(outcomes: Seq<Result<String, ()>>, i: int) -> bool {
    0 <= i < outcomes.len() && outcomes[i] is Err && forall|j: int| 0 <= j < i ==> (#[trigger] outcomes[j]) is Ok
}

/// The permissions after expansion, given each one's expansion outcome: the
/// expanded texts when all succeeded, else the refusal of the first that
/// failed.
pub open spec fn expansion(permissions: Seq<String>, outcomes: Seq<Result<String, ()>>, r: Result<Vec<String>, String>) -> bool {
    &&& r is Ok <==> forall|i: int| 0 <= i < outcomes.len() ==> (#[trigger] outcomes[i]) is Ok
    &&& r matches Ok(v) ==> v@.len() == outcomes.len() && forall|i: int|
        0 <= i < v@.len() ==> outcomes[i] is Ok && (#[trigger] v@[i])@ == outcomes[i]->Ok_0@
    &&& r matches Err(e) ==> exists|i: int| first_failure(outcomes, i) && e@ == "unable to expand deno permission: "@ + (
    #[trigger] permissions[i])@
}

/// The permissions after expansion, given each one's expansion outcome.
pub fn expand_with(permissions: &[String], outcomes: &[Result<String, ()>]) -> (r: Result<Vec<String>, String>)
    requires
        outcomes@.len() == permissions@.len(),
    ensures
        expansion(permissions@, outcomes@, r),
{
    let mut out: Vec<String> = Vec::new();
    let mut i: usize = 0;
    while i < outcomes.len()
        invariant
            i <= outcomes@.len(),
            outcomes@.len() == permissions@.len(),
            out@.len() == i,
            forall|j: int| 0 <= j < i ==> (#[trigger] outcomes@[j]) is Ok && out@[j]@ == outcomes@[j]->Ok_0@,
        decreases outcomes@.len() - i,
    {
        match &outcomes[i] {
            Ok(t) => {
                out.push(t.clone());
            },
            Err(()) => {
                let mut e = owned("unable to expand deno permission: ");
                e.append(permissions[i].as_str());
                assert(first_failure(outcomes@, i as int));
                return Err(e);
            },
        }
        i += 1;
    }
    Ok(out)
}

/// Expands each permission through `shellexpand::env`; the first one that
/// cannot be expanded is refused.
pub fn expand(permissions: &[String]) -> (r: Result<Vec<String>, String>)
    ensures
        exists|outcomes: Seq<Result<String, ()>>| #![trigger expansion(permissions@, outcomes, r)]
            outcomes.len() == permissions@.len() && (forall|i: int| 0 <= i < outcomes.len() ==> env_outcome(
                (#[trigger] permissions@[i])@,
                outcomes[i],
            )) && expansion(permissions@, outcomes, r),
        r matches Ok(v) ==> v@.len() == permissions@.len() && forall|i: int| 0 <= i < v@.len() && !occurs(
            #[trigger] permissions@[i]@,
            "$"@,
        ) ==> v@[i]@ == permissions@[i]@,
        (forall|i: int| 0 <= i < permissions@.len() ==> !occurs(#[trigger] permissions@[i]@, "$"@)) ==> r is Ok,
{
    let mut outcomes: Vec<Result<String, ()>> = Vec::new();
    let mut i: usize = 0;
    while i < permissions.len()
        invariant
            i <= permissions@.len(),
            outcomes@.len() == i,
            forall|j: int| 0 <= j < i ==> env_outcome((#[trigger] permissions@[j])@, outcomes@[j]),
        decreases permissions@.len() - i,
    {
        outcomes.push(expand_env(permissions[i].as_str()));
        i += 1;
    }
    let r = expand_with(permissions, outcomes.as_slice());
    proof {
        let o = outcomes@;
        if r is Ok {
            assert forall|k: int| 0 <= k < permissions@.len() && !occurs(#[trigger] permissions@[k]@, "$"@) implies r->Ok_0@[k]@
                == permissions@[k]@ by {
                assert(env_outcome(permissions@[k]@, o[k]));
            }
        }
        if forall|k: int| 0 <= k < permissions@.len() ==> !occurs(#[trigger] permissions@[k]@, "$"@) {
            assert forall|k: int| 0 <= k < o.len() implies (#[trigger] o[k]) is Ok by {
                assert(env_outcome(permissions@[k]@, o[k]));
                assert(!occurs(permissions@[k]@, "$"@));
            }
        }
    }
    r
}

} // verus!

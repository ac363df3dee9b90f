//! What a profile injects into a run, and the order in which injections are
//! set up and torn down around the command.
pub mod env;
pub mod symlink;

use vstd::prelude::*;

use crate::model::profile::Env;
use crate::table::{as_map, has_key, sorted};
use crate::text::owned;
use env::{key_fault, validate_key};

verus! {

/// The environment changes for the child process.
pub struct Patch {
    pub set: Vec<(String, String)>,
    pub unset: Vec<String>,
}

impl Patch {
    /// The patch of a profile's environment: its variables to set (in key
    /// order) and its names to unset, each name checked.
    pub fn build(env: &Env) -> (r: Result<Self, String>)
        ensures
            r is Ok <==> (forall|k: Seq<char>| #[trigger] env.vars@.contains_key(k) ==> key_fault(k) is None)
                && (forall|i: int| 0 <= i < env.unset@.len() ==> key_fault(#[trigger] env.unset@[i]@) is None),
            r matches Ok(p) ==> sorted(p.set@) && as_map(p.set@) == env.vars@ && p.unset@ == env.unset@,
            r matches Err(e) ==> (exists|k: Seq<char>| #[trigger] env.vars@.contains_key(k) && key_fault(k) == Some(e@))
                || (exists|i: int| 0 <= i < env.unset@.len() && key_fault(#[trigger] env.unset@[i]@) == Some(e@)),
    {
        let entries = env.vars.entries();
        let mut i: usize = 0;
        while i < entries.len()
            invariant
                i <= entries@.len(),
                forall|k: Seq<char>| #[trigger] env.vars@.contains_key(k) <==> has_key(entries@, k),
                forall|j: int| 0 <= j < i ==> key_fault(#[trigger] entries@[j].0@) is None,
            decreases entries@.len() - i,
        {
            if let Err(e) = validate_key(entries[i].0.as_str()) {
                assert(has_key(entries@, entries@[i as int].0@));
                assert(env.vars@.contains_key(entries@[i as int].0@));
                return Err(e);
            }
            i += 1;
        }
        assert forall|k: Seq<char>| #[trigger] env.vars@.contains_key(k) implies key_fault(k) is None by {
            let j = choose|j: int| 0 <= j < entries@.len() && #[trigger] entries@[j].0@ == k;
        }
        let mut unset: Vec<String> = Vec::new();
        let mut j: usize = 0;
        while j < env.unset.len()
            invariant
                j <= env.unset@.len(),
                unset@ == env.unset@.take(j as int),
                forall|k: Seq<char>| #[trigger] env.vars@.contains_key(k) ==> key_fault(k) is None,
                forall|m: int| 0 <= m < j ==> key_fault(#[trigger] env.unset@[m]@) is None,
            decreases env.unset@.len() - j,
        {
            validate_key(env.unset[j].as_str())?;
            unset.push(env.unset[j].clone());
            assert(unset@ =~= env.unset@.take(j + 1));
            j += 1;
        }
        assert(unset@ =~= env.unset@);
        Ok(Patch { set: env.vars.pairs(), unset })
    }
}

/// Where the set-up and tear-down of a run stands.
#[derive(PartialEq, Eq, Structural, Clone, Copy, Debug)]
pub enum Stage {
    /// Checking link `i`.
    Validate(usize),
    /// Creating link `i`.
    Register(usize),
    /// Running the command.
    Run,
    /// Removing link `i`.
    Close(usize),
    /// Done.
    Finished,
}

/// What the caller does next.
pub enum Action {
    Validate(usize),
    Register(usize),
    Run,
    Close(usize),
    Finish(Result<(), String>),
}

/// The set-up and tear-down of the symlinks around one command: links are
/// checked, then created in order; the command runs only when all exist;
/// the links created are removed in reverse order, whatever happened.
pub struct Lifecycle {
    pub count: usize,
    pub stage: Stage,
    pub registered: usize,
    /// The failure that the run finishes with, with its causes.
    pub primary: Option<String>,
    /// That failure's own message, without its causes: what a later failed
    /// removal names it by.
    pub headline: Option<String>,
}

/// The message of a failure that a failed shutdown follows.
pub open spec fn also_text(primary: Seq<char>, fault: Seq<char>) -> Seq<char> {
    primary + "; also failed shutdown: "@ + fault
}

/// The outcome when shutdown of a link fails with `fault`: after an earlier
/// failure, both are named by their own messages only; alone, the shutdown
/// failure comes with its cause.
pub open spec fn closing_fault(headline: Option<String>, fault: Seq<char>) -> Seq<char> {
    match headline {
        Some(h) => also_text(h@, "symlink shutdown failed"@),
        None => "symlink shutdown failed: "@ + fault,
    }
}

impl Lifecycle {
    /// How many steps are left at most before the machine finishes: the
    /// remaining checks, creations, the run and the removals.
    pub open spec fn steps_left(&self) -> nat {
        match self.stage {
            Stage::Validate(i) => ((self.count - i) + self.count + 1 + self.count) as nat,
            Stage::Register(i) => ((self.count - i) + 1 + self.count) as nat,
            Stage::Run => (1 + self.registered) as nat,
            Stage::Close(i) => (i + 1) as nat,
            Stage::Finished => 0,
        }
    }

    /// The machine's own consistency.
    pub open spec fn wf(&self) -> bool {
        &&& self.registered <= self.count
        &&& (self.primary is None <==> self.headline is None)
        &&& match self.stage {
            Stage::Validate(i) => i < self.count && self.registered == 0 && self.primary is None,
            Stage::Register(i) => i < self.count && self.registered == i && self.primary is None,
            Stage::Run => self.registered == self.count && self.primary is None,
            Stage::Close(i) => i < self.registered,
            Stage::Finished => true,
        }
    }

    /// Starts with `count` links: the first is checked, or the command runs
    /// at once when there are none.
    pub fn start(count: usize) -> (r: (Self, Action))
        ensures
            r.0.wf(),
            r.0.count == count,
            r.0.steps_left() == 3 * count + 1,
            count > 0 ==> r.0.stage == Stage::Validate(0) && r.1 == Action::Validate(0),
            count == 0 ==> r.0.stage == Stage::Run && r.1 == Action::Run,
    {
        if count > 0 {
            (Lifecycle { count, stage: Stage::Validate(0), registered: 0, primary: None, headline: None }, Action::Validate(0))
        } else {
            (Lifecycle { count, stage: Stage::Run, registered: 0, primary: None, headline: None }, Action::Run)
        }
    }

    /// The next step once the last action ended with `outcome`.
    pub fn next(self, outcome: Result<(), String>) -> (r: (Self, Action))
        requires
            self.wf(),
            self.stage != Stage::Finished,
        ensures
            r.0.wf(),
            r.0.count == self.count,
            r.0.steps_left() < self.steps_left(),
            match self.stage {
                Stage::Validate(i) => match outcome {
                    Err(e) => {
                        &&& r.0.stage == Stage::Finished
                        &&& r.1 matches Action::Finish(Err(m))
                        &&& m@ == "symlink validation failed: "@ + e@
                    },
                    Ok(()) => if i + 1 < self.count {
                        r.0.stage == Stage::Validate((i + 1) as usize) && r.1 == Action::Validate((i + 1) as usize)
                    } else {
                        r.0.stage == Stage::Register(0) && r.1 == Action::Register(0)
                    },
                },
                Stage::Register(i) => match outcome {
                    Err(e) => {
                        &&& r.0.registered == i
                        &&& r.0.primary matches Some(p)
                        &&& p@ == "symlink registration failed: "@ + e@
                        &&& r.0.headline matches Some(h) && h@ == "symlink registration failed"@
                        &&& if i > 0 {
                            r.0.stage == Stage::Close((i - 1) as usize) && r.1 == Action::Close((i - 1) as usize)
                        } else {
                            &&& r.0.stage == Stage::Finished
                            &&& r.1 matches Action::Finish(Err(m))
                            &&& m == p
                        }
                    },
                    Ok(()) => r.0.registered == i + 1 && if i + 1 < self.count {
                        r.0.stage == Stage::Register((i + 1) as usize) && r.1 == Action::Register((i + 1) as usize)
                    } else {
                        r.0.stage == Stage::Run && r.1 == Action::Run
                    },
                },
                Stage::Run => r.0.registered == self.registered && r.0.primary == match outcome {
                    Ok(()) => None,
                    Err(e) => Some(e),
                } && r.0.headline == r.0.primary && if self.registered > 0 {
                    r.0.stage == Stage::Close((self.registered - 1) as usize) && r.1 == Action::Close(
                        (self.registered - 1) as usize,
                    )
                } else {
                    r.0.stage == Stage::Finished && r.1 == Action::Finish(outcome)
                },
                Stage::Close(i) => match outcome {
                    Err(f) => {
                        &&& r.0.stage == Stage::Finished
                        &&& r.1 matches Action::Finish(Err(m))
                        &&& m@ == closing_fault(self.headline, f@)
                    },
                    Ok(()) => if i > 0 {
                        r.0.stage == Stage::Close((i - 1) as usize) && r.1 == Action::Close((i - 1) as usize)
                            && r.0.primary == self.primary && r.0.headline == self.headline
                    } else {
                        r.0.stage == Stage::Finished && r.1 == Action::Finish(
                            match self.primary {
                                None => Ok(()),
                                Some(p) => Err(p),
                            },
                        )
                    },
                },
                Stage::Finished => true,
            },
    {
        let count = self.count;
        match self.stage {
            Stage::Validate(i) => match outcome {
                Err(e) => {
                    let mut m = owned("symlink validation failed: ");
                    m.append(e.as_str());
                    (Lifecycle { stage: Stage::Finished, ..self }, Action::Finish(Err(m)))
                },
                Ok(()) => {
                    if i + 1 < count {
                        (Lifecycle { stage: Stage::Validate(i + 1), ..self }, Action::Validate(i + 1))
                    } else {
                        (Lifecycle { stage: Stage::Register(0), ..self }, Action::Register(0))
                    }
                },
            },
            Stage::Register(i) => match outcome {
                Err(e) => {
                    let mut p = owned("symlink registration failed: ");
                    p.append(e.as_str());
                    if i > 0 {
                        (
                            Lifecycle {
                                count,
                                stage: Stage::Close(i - 1),
                                registered: i,
                                primary: Some(p),
                                headline: Some(owned("symlink registration failed")),
                            },
                            Action::Close(i - 1),
                        )
                    } else {
                        let m = p.clone();
                        (
                            Lifecycle {
                                count,
                                stage: Stage::Finished,
                                registered: i,
                                primary: Some(p),
                                headline: Some(owned("symlink registration failed")),
                            },
                            Action::Finish(Err(m)),
                        )
                    }
                },
                Ok(()) => {
                    if i + 1 < count {
                        (
                            Lifecycle { count, stage: Stage::Register(i + 1), registered: i + 1, primary: None, headline: None },
                            Action::Register(i + 1),
                        )
                    } else {
                        (
                            Lifecycle { count, stage: Stage::Run, registered: i + 1, primary: None, headline: None },
                            Action::Run,
                        )
                    }
                },
            },
            Stage::Run => {
                let registered = self.registered;
                let primary = match &outcome {
                    Ok(()) => None,
                    Err(e) => Some(e.clone()),
                };
                let headline = match &outcome {
                    Ok(()) => None,
                    Err(e) => Some(e.clone()),
                };
                if registered > 0 {
                    (
                        Lifecycle { count, stage: Stage::Close(registered - 1), registered, primary, headline },
                        Action::Close(registered - 1),
                    )
                } else {
                    (Lifecycle { count, stage: Stage::Finished, registered, primary, headline }, Action::Finish(outcome))
                }
            },
            Stage::Close(i) => match outcome {
                Err(f) => {
                    let mut fault = owned("symlink shutdown failed: ");
                    fault.append(f.as_str());
                    let m = match &self.headline {
                        Some(h) => {
                            let mut m = h.clone();
                            m.append("; also failed shutdown: ");
                            m.append("symlink shutdown failed");
                            m
                        },
                        None => fault,
                    };
                    (Lifecycle { stage: Stage::Finished, ..self }, Action::Finish(Err(m)))
                },
                Ok(()) => {
                    if i > 0 {
                        (Lifecycle { stage: Stage::Close(i - 1), ..self }, Action::Close(i - 1))
                    } else {
                        let done = match &self.primary {
                            None => Ok(()),
                            Some(p) => Err(p.clone()),
                        };
                        (Lifecycle { stage: Stage::Finished, ..self }, Action::Finish(done))
                    }
                },
            },
            Stage::Finished => (self, Action::Finish(Ok(()))),
        }
    }
}


impl Lifecycle {
    /// Prepares a run of the profile: the environment patch (refused as an
    /// env validation failure), then the symlink machine for the profile's
    /// links with its first step.
    pub fn with(profile: &crate::model::profile::Profile) -> (r: Result<(Patch, Self, Action), String>)
        ensures
            r is Ok <==> (forall|k: Seq<char>| #[trigger] profile.env.vars@.contains_key(k) ==> key_fault(k) is None)
                && (forall|i: int| 0 <= i < profile.env.unset@.len() ==> key_fault(#[trigger] profile.env.unset@[i]@) is None),
            r matches Ok((p, l, a)) ==> {
                &&& sorted(p.set@) && as_map(p.set@) == profile.env.vars@ && p.unset@ == profile.env.unset@
                &&& l.wf() && l.count == profile.symlink@.len()
                &&& profile.symlink@.len() > 0 ==> l.stage == Stage::Validate(0) && a == Action::Validate(0)
                &&& profile.symlink@.len() == 0 ==> l.stage == Stage::Run && a == Action::Run
            },
            r matches Err(e) ==> exists|m: Seq<char>| e@ == "env validation failed: "@ + m && {
                ||| exists|k: Seq<char>| #[trigger] profile.env.vars@.contains_key(k) && key_fault(k) == Some(m)
                ||| exists|i: int| 0 <= i < profile.env.unset@.len() && key_fault(#[trigger] profile.env.unset@[i]@) == Some(m)
            },
    {
        let patch = match Patch::build(&profile.env) {
            Ok(p) => p,
            Err(m) => {
                let mut e = owned("env validation failed: ");
                e.append(m.as_str());
                return Err(e);
            },
        };
        let (life, first) = Lifecycle::start(profile.symlink.len());
        Ok((patch, life, first))
    }
}

/// The command runs only once every link exists, and a link is removed only
/// when this run created it: in a consistent machine, `Run` comes with all
/// links registered and `Close(i)` only for a registered link.
pub proof fn lemma_links_bracket_the_run(l: Lifecycle)
    requires
        l.wf(),
    ensures
        l.stage == Stage::Run ==> l.registered == l.count,
        l.stage matches Stage::Close(i) ==> i < l.registered,
        l.stage matches Stage::Register(i) ==> l.registered == i,
{
}

} // verus!

//! The symlink injection: decisions around creating and removing one link.
use vstd::prelude::*;

use crate::model::profile::Symlink as Spec;
use crate::text::{owned, trim, trimmed};

verus! {

/// One symlink of a run and whether this run created it.
pub struct Symlink {
    cfg: Spec,
    created: bool,
}

/// What occupies a symlink target before it is created.
#[derive(PartialEq, Eq, Structural, Clone, Copy, Debug)]
pub enum Occupant {
    Vacant,
    File,
    Directory,
}

/// The message for a failed symlink operation on `target`.
pub open spec fn context_text(action: Seq<char>, target: Seq<char>) -> Seq<char> {
    "failed to "@ + action + " symlink target "@ + target
        + "; lifecycle symlink targets are single-owner and may already be managed by another concurrent runseal process"@
}

/// The message for a failed symlink operation on `target`.
pub fn context(action: &str, target: &str) -> (r: String)
    ensures
        r@ == context_text(action@, target@),
{
    let mut out = owned("failed to ");
    out.append(action);
    out.append(" symlink target ");
    out.append(target);
    out.append(
        "; lifecycle symlink targets are single-owner and may already be managed by another concurrent runseal process",
    );
    out
}

/// Why a symlink is refused before the run, if it is.
pub open spec fn link_fault(cfg: Spec, source_exists: bool) -> Option<Seq<char>> {
    if trim(cfg.source@).len() == 0 {
        Some("source must not be empty"@)
    } else if trim(cfg.target@).len() == 0 {
        Some("target must not be empty"@)
    } else if !source_exists {
        Some("source does not exist: "@ + cfg.source@)
    } else {
        None
    }
}

/// Whether the link may be created: only on a vacant target; whatever
/// occupies it is left in place and the link is refused.
pub open spec fn creation_of(occupant: Occupant, target: Seq<char>) -> Result<(), Seq<char>> {
    match occupant {
        Occupant::Vacant => Ok(()),
        _ => Err("refusing to overwrite existing file: "@ + target),
    }
}

/// Whether removing a target at shutdown is refused: it must still be a
/// symlink pointing at the source.
pub open spec fn removal_fault(target: Seq<char>, is_symlink: bool, points_at: Seq<char>, source: Seq<char>) -> Option<Seq<char>> {
    if !is_symlink {
        Some("refusing to remove non-symlink at "@ + target)
    } else if points_at != source {
        Some("refusing to remove symlink with unexpected target: "@ + target)
    } else {
        None
    }
}

impl Symlink {
    /// A symlink that this run has not created yet.
    pub fn new(cfg: Spec) -> (r: Self)
        ensures
            r.cfg() == cfg,
            !r.created(),
    {
        Symlink { cfg, created: false }
    }

    /// The link's profile entry.
    pub closed spec fn cfg(&self) -> Spec {
        self.cfg
    }

    /// Whether this run created the link.
    pub closed spec fn created(&self) -> bool {
        self.created
    }

    /// The injection's name.
    pub fn name(&self) -> (r: &'static str)
        ensures
            r@ == "symlink"@,
    {
        "symlink"
    }

    /// The link's source path.
    pub fn source(&self) -> (r: &str)
        ensures
            r@ == self.cfg().source@,
    {
        self.cfg.source.as_str()
    }

    /// The link's target path.
    pub fn target(&self) -> (r: &str)
        ensures
            r@ == self.cfg().target@,
    {
        self.cfg.target.as_str()
    }

    /// Checks the link, given whether its source exists.
    pub fn validate(&self, source_exists: bool) -> (r: Result<(), String>)
        ensures
            r is Ok <==> link_fault(self.cfg(), source_exists) is None,
            r matches Err(e) ==> link_fault(self.cfg(), source_exists) == Some(e@),
    {
        if trimmed(self.cfg.source.as_str()).as_str().unicode_len() == 0 {
            return Err(owned("source must not be empty"));
        }
        if trimmed(self.cfg.target.as_str()).as_str().unicode_len() == 0 {
            return Err(owned("target must not be empty"));
        }
        if !source_exists {
            let mut e = owned("source does not exist: ");
            e.append(self.cfg.source.as_str());
            return Err(e);
        }
        Ok(())
    }

    /// Whether the link may be created, given what occupies its target.
    pub fn creation(&self, occupant: Occupant) -> (r: Result<(), String>)
        ensures
            r matches Ok(c) ==> creation_of(occupant, self.cfg().target@) == Ok::<(), Seq<char>>(c),
            r matches Err(e) ==> creation_of(occupant, self.cfg().target@) == Err::<(), Seq<char>>(e@),
    {
        match occupant {
            Occupant::Vacant => Ok(()),
            _ => {
                let mut e = owned("refusing to overwrite existing file: ");
                e.append(self.cfg.target.as_str());
                Err(e)
            },
        }
    }

    /// Records that the link was created.
    pub fn register(&mut self) -> (r: Result<(), String>)
        ensures
            r is Ok,
            final(self).created(),
            final(self).cfg() == old(self).cfg(),
    {
        self.created = true;
        Ok(())
    }

    /// Nothing to export.
    pub fn export(&self) -> (r: Result<Vec<(String, String)>, String>)
        ensures
            r matches Ok(v) && v@.len() == 0,
    {
        Ok(Vec::new())
    }

    /// Whether shutdown must remove the target: exactly when this run
    /// created the link.
    pub fn removal_due(&self) -> (r: bool)
        ensures
            r == self.created(),
    {
        self.created
    }

    /// Checks that the target may be removed: it must still be the symlink
    /// this run created.
    pub fn removal(&self, is_symlink: bool, points_at: &str) -> (r: Result<(), String>)
        ensures
            r is Ok <==> removal_fault(self.cfg().target@, is_symlink, points_at@, self.cfg().source@) is None,
            r matches Err(e) ==> removal_fault(self.cfg().target@, is_symlink, points_at@, self.cfg().source@) == Some(e@),
    {
        if !is_symlink {
            let mut e = owned("refusing to remove non-symlink at ");
            e.append(self.cfg.target.as_str());
            return Err(e);
        }
        if !crate::text::same(points_at, self.cfg.source.as_str()) {
            let mut e = owned("refusing to remove symlink with unexpected target: ");
            e.append(self.cfg.target.as_str());
            return Err(e);
        }
        Ok(())
    }

    /// Records that the link is no longer this run's to remove.
    pub fn shutdown(&mut self) -> (r: Result<(), String>)
        ensures
            r is Ok,
            !final(self).created(),
            final(self).cfg() == old(self).cfg(),
    {
        self.created = false;
        Ok(())
    }
}

/// An occupied target is always refused, and the refusal names it.
pub proof fn lemma_occupied_target_refused(occupant: Occupant, target: Seq<char>)
    requires
        occupant != Occupant::Vacant,
    ensures
        creation_of(occupant, target) == Err::<(), Seq<char>>("refusing to overwrite existing file: "@ + target),
{
}

/// One call on a link during a run: creating it, or shutting it down.
#[derive(PartialEq, Eq, Structural, Clone, Copy, Debug)]
pub enum LinkStep {
    Register,
    Shutdown,
}

/// `after` is what `step` leaves of `before`, by the contracts of
/// [`Symlink::register`] and [`Symlink::shutdown`].
pub open spec fn stepped(before: Symlink, step: LinkStep, after: Symlink) -> bool {
    after.cfg() == before.cfg() && after.created() == (step == LinkStep::Register)
}

/// Over any run of calls on a link that starts from [`Symlink::new`], a
/// shutdown removes the target only when the last call created the link
/// (so a second shutdown removes nothing), and only when the target is
/// still the symlink to the link's source; the link's entry never changes.
pub proof fn lemma_removal_only_of_own_link(states: Seq<Symlink>, steps: Seq<LinkStep>, is_symlink: bool, points_at: Seq<char>)
    requires
        states.len() == steps.len() + 1,
        !states[0].created(),
        forall|i: int| 0 <= i < steps.len() ==> stepped(states[i], #[trigger] steps[i], states[i + 1]),
    ensures
        states.last().cfg() == states[0].cfg(),
        states.last().created() == (steps.len() > 0 && steps.last() == LinkStep::Register),
        steps.len() > 0 && steps.last() == LinkStep::Shutdown ==> !states.last().created(),
        removal_fault(states.last().cfg().target@, is_symlink, points_at, states.last().cfg().source@) is None
            <==> (is_symlink && points_at == states.last().cfg().source@),
    decreases steps.len(),
{
    if steps.len() > 0 {
        let n = steps.len() as int;
        lemma_removal_only_of_own_link(states.drop_last(), steps.drop_last(), is_symlink, points_at);
        assert(states.drop_last().last() == states[n - 1]);
        assert(stepped(states[n - 1], steps[n - 1], states[n]));
    }
}

} // verus!

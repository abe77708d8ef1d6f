//! What the process shares between all connections: the loaded library and
//! its resolved entry point.
//!
//! Loading the library and looking up its entry point are done by the host,
//! outside this crate. What is decided here is which of them is still
//! needed: the host asks [`Linkage::next`] what to do, does it, reports it
//! with [`Linkage::complete`], and asks again, until it is told to call the
//! entry point. The handle that the entry point returns is then turned into
//! a [`Spout`] by [`Linkage::acquire`].

use vstd::prelude::*;
use crate::facade::Spout;

verus! {

/// File name of the native library when the build names no other.
pub const DEFAULT_LIBRARY: &'static str = "SpoutLibrary.dll";

/// Name of the one exported function that returns the library's handle.
pub const ENTRY_POINT: &'static str = "GetSpout";

/// The file to load the native library from: the configured one, or
/// [`DEFAULT_LIBRARY`] where none is configured.
pub fn library_path<'a>(configured: Option<&'a str>) -> (path: &'a str)
    ensures
        path@ == match configured {
            Some(chosen) => chosen@,
            None => DEFAULT_LIBRARY@,
        },
{
    match configured {
        Some(chosen) => chosen,
        None => DEFAULT_LIBRARY,
    }
}

/// How far the process has come in reaching the native library.
#[derive(Clone, Copy, Debug, PartialEq, Eq, Structural)]
pub enum Stage {
    /// The library is not in the process yet.
    Unloaded,
    /// The library is loaded; its entry point has not been looked up.
    Loaded,
    /// The library is loaded and its entry point is known.
    Resolved,
}

/// One piece of work that the host does on the way to a connection.
#[derive(Clone, Copy, Debug, PartialEq, Eq, Structural)]
pub enum Step {
    /// Load the library into the process.
    Load,
    /// Look up the entry point in the loaded library.
    Resolve,
    /// Call the entry point for a handle.
    Enter,
}

impl Stage {
    /// The work that a construction must do next at this stage.
    pub open spec fn next(self) -> Step {
        match self {
            Stage::Unloaded => Step::Load,
            Stage::Loaded => Step::Resolve,
            Stage::Resolved => Step::Enter,
        }
    }

    /// The stage once `done` has been carried out at this stage. Work that
    /// was not asked for changes nothing.
    pub open spec fn after(self, done: Step) -> Stage {
        match (self, done) {
            (Stage::Unloaded, Step::Load) => Stage::Loaded,
            (Stage::Loaded, Step::Resolve) => Stage::Resolved,
            _ => self,
        }
    }

    /// How many steps are still missing before the entry point can be
    /// called.
    pub open spec fn missing(self) -> nat {
        match self {
            Stage::Unloaded => 2,
            Stage::Loaded => 1,
            Stage::Resolved => 0,
        }
    }

    /// The steps that one construction carries out when it starts at this
    /// stage, in order, ending with the call of the entry point.
    pub open spec fn construction(self) -> Seq<Step>
        decreases self.missing(),
    {
        let step = self.next();
        if step == Step::Enter {
            seq![step]
        } else {
            seq![step] + self.after(step).construction()
        }
    }

    /// The steps that `count` constructions carry out, one after the other,
    /// when the first of them starts at this stage.
    pub open spec fn constructions(self, count: nat) -> Seq<Step>
        decreases count,
    {
        if count == 0 {
            Seq::empty()
        } else {
            self.construction() + Stage::Resolved.constructions((count - 1) as nat)
        }
    }
}

/// How often `step` occurs in `steps`.
pub open spec fn occurrences(steps: Seq<Step>, step: Step) -> nat
    decreases steps.len(),
{
    if steps.len() == 0 {
        0
    } else if steps.last() == step {
        occurrences(steps.drop_last(), step) + 1
    } else {
        occurrences(steps.drop_last(), step)
    }
}

/// Occurrences add up over steps carried out one after the other.
pub proof fn lemma_occurrences_add(first: Seq<Step>, then: Seq<Step>, step: Step)
    ensures
        occurrences(first + then, step) == occurrences(first, step) + occurrences(then, step),
    decreases then.len(),
{
    if then.len() == 0 {
        assert(first + then =~= first);
    } else {
        assert((first + then).drop_last() =~= first + then.drop_last());
        lemma_occurrences_add(first, then.drop_last(), step);
    }
}

/// One construction loads the library only where it is not loaded, looks
/// up the entry point only where it is not known, and calls the entry point
/// last, once.
pub proof fn lemma_construction(stage: Stage)
    ensures
        stage.construction() == match stage {
            Stage::Unloaded => seq![Step::Load, Step::Resolve, Step::Enter],
            Stage::Loaded => seq![Step::Resolve, Step::Enter],
            Stage::Resolved => seq![Step::Enter],
        },
        occurrences(stage.construction(), Step::Load) == if stage == Stage::Unloaded {
            1nat
        } else {
            0nat
        },
        occurrences(stage.construction(), Step::Resolve) == if stage == Stage::Resolved {
            0nat
        } else {
            1nat
        },
        occurrences(stage.construction(), Step::Enter) == 1,
{
    reveal_with_fuel(Stage::construction, 3);
    reveal_with_fuel(occurrences, 4);
    let steps = stage.construction();
    match stage {
        Stage::Unloaded => {
            assert(steps =~= seq![Step::Load, Step::Resolve, Step::Enter]);
            assert(steps.drop_last() =~= seq![Step::Load, Step::Resolve]);
            assert(steps.drop_last().drop_last() =~= seq![Step::Load]);
        },
        Stage::Loaded => {
            assert(steps =~= seq![Step::Resolve, Step::Enter]);
            assert(steps.drop_last() =~= seq![Step::Resolve]);
        },
        Stage::Resolved => {
            assert(steps =~= seq![Step::Enter]);
        },
    }
}

/// However many connections a process constructs, the library is loaded at
/// most once and the entry point is looked up at most once: once by the
/// first construction that finds them missing, never again after it. The
/// entry point itself is called once for every construction.
pub proof fn lemma_loaded_and_resolved_once(stage: Stage, count: nat)
    ensures
        occurrences(stage.constructions(count), Step::Load) == if stage == Stage::Unloaded
            && count > 0 {
            1nat
        } else {
            0nat
        },
        occurrences(stage.constructions(count), Step::Resolve) == if stage != Stage::Resolved
            && count > 0 {
            1nat
        } else {
            0nat
        },
        occurrences(stage.constructions(count), Step::Enter) == count,
    decreases count,
{
    if count > 0 {
        let rest = Stage::Resolved.constructions((count - 1) as nat);
        lemma_construction(stage);
        lemma_loaded_and_resolved_once(Stage::Resolved, (count - 1) as nat);
        lemma_occurrences_add(stage.construction(), rest, Step::Load);
        lemma_occurrences_add(stage.construction(), rest, Step::Resolve);
        lemma_occurrences_add(stage.construction(), rest, Step::Enter);
    }
}

/// The record only moves forward: the step that is asked for brings the
/// entry point one step nearer, and no step undoes what was reached.
pub proof fn lemma_stage_moves_forward(stage: Stage, done: Step)
    ensures
        stage.after(done).missing() <= stage.missing(),
        stage != Stage::Resolved ==> stage.after(stage.next()).missing() + 1 == stage.missing(),
        stage == Stage::Resolved ==> stage.after(done) == Stage::Resolved,
{
}

/// The process-wide record of what has been loaded and resolved.
pub struct Linkage {
    stage: Stage,
}

impl Linkage {
    /// How far the process has come.
    pub closed spec fn spec_stage(&self) -> Stage {
        self.stage
    }

    /// The record of a process that has loaded nothing yet.
    pub fn new() -> (linkage: Linkage)
        ensures
            linkage.stage() == Stage::Unloaded,
    {
        Linkage { stage: Stage::Unloaded }
    }

    /// How far the process has come.
    #[verifier::when_used_as_spec(spec_stage)]
    pub fn stage(&self) -> (stage: Stage)
        ensures
            stage == self.spec_stage(),
    {
        self.stage
    }

    /// What a construction must do next: load the library if it is not
    /// loaded, else look up the entry point if it is not known, else call
    /// the entry point.
    pub fn next(&self) -> (step: Step)
        ensures
            step == self.stage().next(),
    {
        match self.stage {
            Stage::Unloaded => Step::Load,
            Stage::Loaded => Step::Resolve,
            Stage::Resolved => Step::Enter,
        }
    }

    /// Records that the host has carried out `done`. Only the step that
    /// [`Linkage::next`] asks for moves the record on; what is loaded stays
    /// loaded and what is resolved stays resolved.
    pub fn complete(&mut self, done: Step)
        ensures
            final(self).stage() == old(self).stage().after(done),
    {
        match (self.stage, done) {
            (Stage::Unloaded, Step::Load) => {
                self.stage = Stage::Loaded;
            },
            (Stage::Loaded, Step::Resolve) => {
                self.stage = Stage::Resolved;
            },
            _ => {},
        }
    }

    /// Makes a connection of the handle that the entry point returned.
    /// There is none if the handle is null, or if the entry point cannot
    /// have been called because it was never resolved.
    pub fn acquire(&self, handle: usize) -> (spout: Option<Spout>)
        ensures
            spout is Some <==> self.stage() == Stage::Resolved && handle != 0,
            spout matches Some(made) ==> made.handle() == handle && made.is_ready(),
    {
        match self.stage {
            Stage::Resolved => if handle != 0 {
                Some(Spout::new(handle))
            } else {
                None
            },
            _ => None,
        }
    }
}

} // verus!

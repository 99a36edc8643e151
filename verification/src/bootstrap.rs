//! The standard-library bootstrap: the fixed order of the modules and the
//! rules that drive their compilation and verification.
//!
//! The library decides; the caller works. [`BuildStep`] says what to do next,
//! the caller compiles and verifies the module it names and reports a
//! [`BuildEvent`], and [`advance`] gives the step after that. A failure ends
//! the build: there is no step that skips a module.

use vstd::prelude::*;

verus! {

/// A module of the standard library.
#[derive(Clone, Copy, Debug, PartialEq, Eq, Structural)]
pub enum StdlibModule {
    AddressUtil,
    U64Util,
    BytearrayUtil,
    Hash,
    Signature,
    LibraCoin,
    LibraAccount,
    ValidatorSet,
    Debug,
    Db,
}

/// The number of modules in the standard library.
pub const STDLIB_SIZE: usize = 10;

/// The modules in the order in which they are built. A module may refer to
/// those before it and to no other.
pub open spec fn stdlib_order() -> Seq<StdlibModule> {
    seq![
        StdlibModule::AddressUtil,
        StdlibModule::U64Util,
        StdlibModule::BytearrayUtil,
        StdlibModule::Hash,
        StdlibModule::Signature,
        StdlibModule::LibraCoin,
        StdlibModule::LibraAccount,
        StdlibModule::ValidatorSet,
        StdlibModule::Debug,
        StdlibModule::Db,
    ]
}

impl StdlibModule {
    /// The module's place in the build order, which is the number of
    /// modules built before it.
    pub open spec fn place(self) -> int {
        match self {
            StdlibModule::AddressUtil => 0,
            StdlibModule::U64Util => 1,
            StdlibModule::BytearrayUtil => 2,
            StdlibModule::Hash => 3,
            StdlibModule::Signature => 4,
            StdlibModule::LibraCoin => 5,
            StdlibModule::LibraAccount => 6,
            StdlibModule::ValidatorSet => 7,
            StdlibModule::Debug => 8,
            StdlibModule::Db => 9,
        }
    }

    /// The path of the module's source, below the root of the standard
    /// library.
    pub open spec fn path(self) -> Seq<char> {
        match self {
            StdlibModule::AddressUtil => "modules/address_util.mvir"@,
            StdlibModule::U64Util => "modules/u64_util.mvir"@,
            StdlibModule::BytearrayUtil => "modules/bytearray_util.mvir"@,
            StdlibModule::Hash => "modules/hash.mvir"@,
            StdlibModule::Signature => "modules/signature.mvir"@,
            StdlibModule::LibraCoin => "modules/libra_coin.mvir"@,
            StdlibModule::LibraAccount => "modules/libra_account.mvir"@,
            StdlibModule::ValidatorSet => "modules/validator_set.mvir"@,
            StdlibModule::Debug => "modules/debug.mvir"@,
            StdlibModule::Db => "modules/db.mvir"@,
        }
    }

    /// Computes [`Self::place`].
    pub fn position(&self) -> (p: usize)
        ensures
            p == self.place(),
            p < STDLIB_SIZE,
            stdlib_order()[p as int] == *self,
    {
        match self {
            StdlibModule::AddressUtil => 0,
            StdlibModule::U64Util => 1,
            StdlibModule::BytearrayUtil => 2,
            StdlibModule::Hash => 3,
            StdlibModule::Signature => 4,
            StdlibModule::LibraCoin => 5,
            StdlibModule::LibraAccount => 6,
            StdlibModule::ValidatorSet => 7,
            StdlibModule::Debug => 8,
            StdlibModule::Db => 9,
        }
    }

    /// Computes [`Self::path`].
    pub fn source_path(&self) -> (s: &'static str)
        ensures
            s@ == self.path(),
    {
        match self {
            StdlibModule::AddressUtil => "modules/address_util.mvir",
            StdlibModule::U64Util => "modules/u64_util.mvir",
            StdlibModule::BytearrayUtil => "modules/bytearray_util.mvir",
            StdlibModule::Hash => "modules/hash.mvir",
            StdlibModule::Signature => "modules/signature.mvir",
            StdlibModule::LibraCoin => "modules/libra_coin.mvir",
            StdlibModule::LibraAccount => "modules/libra_account.mvir",
            StdlibModule::ValidatorSet => "modules/validator_set.mvir",
            StdlibModule::Debug => "modules/debug.mvir",
            StdlibModule::Db => "modules/db.mvir",
        }
    }

    /// The module at place `index` of the build order, if there is one.
    pub fn at(index: usize) -> (m: Option<StdlibModule>)
        ensures
            index < STDLIB_SIZE ==> m == Some(stdlib_order()[index as int]),
            index >= STDLIB_SIZE ==> m is None,
    {
        if index == 0 {
            Some(StdlibModule::AddressUtil)
        } else if index == 1 {
            Some(StdlibModule::U64Util)
        } else if index == 2 {
            Some(StdlibModule::BytearrayUtil)
        } else if index == 3 {
            Some(StdlibModule::Hash)
        } else if index == 4 {
            Some(StdlibModule::Signature)
        } else if index == 5 {
            Some(StdlibModule::LibraCoin)
        } else if index == 6 {
            Some(StdlibModule::LibraAccount)
        } else if index == 7 {
            Some(StdlibModule::ValidatorSet)
        } else if index == 8 {
            Some(StdlibModule::Debug)
        } else if index == 9 {
            Some(StdlibModule::Db)
        } else {
            None
        }
    }

    /// Whether this module may refer to `other`: to itself and to the modules
    /// before it in the build order, and to no other.
    pub fn may_reference(&self, other: StdlibModule) -> (allowed: bool)
        ensures
            allowed == (other.place() <= self.place()),
            allowed == (other == *self || stdlib_order().take(self.place()).contains(other)),
    {
        let mine: usize = self.position();
        let theirs: usize = other.position();
        proof {
            let deps = stdlib_order().take(self.place());
            if theirs < mine {
                assert(deps[theirs as int] == other);
            }
        }
        theirs <= mine
    }

    /// The modules that this one is compiled against: those before it in the
    /// build order, in that order.
    pub fn dependencies(&self) -> (deps: Vec<StdlibModule>)
        ensures
            deps@ == stdlib_order().take(self.place()),
    {
        let count: usize = self.position();
        let mut deps: Vec<StdlibModule> = Vec::new();
        let mut i: usize = 0;
        while i < count
            invariant
                i <= count < STDLIB_SIZE,
                deps@ == stdlib_order().take(i as int),
            decreases count - i,
        {
            match StdlibModule::at(i) {
                Some(m) => {
                    deps.push(m);
                },
                None => {},
            }
            i += 1;
            assert(deps@ =~= stdlib_order().take(i as int));
        }
        deps
    }
}

/// The build order.
pub fn stdlib_modules() -> (modules: Vec<StdlibModule>)
    ensures
        modules@ == stdlib_order(),
{
    let mut modules = StdlibModule::Db.dependencies();
    modules.push(StdlibModule::Db);
    assert(modules@ =~= stdlib_order());
    modules
}

/// The stage at which building a module failed.
#[derive(Clone, Copy, Debug, PartialEq, Eq, Structural)]
pub enum BuildFailure {
    /// The source could not be read.
    UnreadableSource,
    /// The source is no module.
    Parse,
    /// The module does not compile against its dependencies.
    Compile,
    /// The bytecode verifier refused the compiled module.
    Verification,
}

/// What became of the module that the caller was asked to build.
#[derive(Clone, Copy, Debug, PartialEq, Eq, Structural)]
pub enum BuildEvent {
    /// It was compiled and verified, and now is the last of the verified
    /// modules.
    Verified,
    /// It failed.
    Failed(BuildFailure),
}

/// What the caller is to do.
#[derive(Clone, Copy, Debug, PartialEq, Eq, Structural)]
pub enum BuildStep {
    /// Compile this module against the modules verified so far, verify it,
    /// and report.
    Compile(StdlibModule),
    /// Every module is verified: the verified modules are the result.
    Finished,
    /// Give up: this module failed, and there is no result.
    Aborted(StdlibModule, BuildFailure),
}

/// The first step of a build.
pub open spec fn first_step() -> BuildStep {
    BuildStep::Compile(StdlibModule::AddressUtil)
}

/// The step that follows `step` once the caller has reported `event`.
pub open spec fn step_after(step: BuildStep, event: BuildEvent) -> BuildStep {
    match step {
        BuildStep::Compile(module) => match event {
            BuildEvent::Verified => if module.place() + 1 < STDLIB_SIZE {
                BuildStep::Compile(stdlib_order()[module.place() + 1])
            } else {
                BuildStep::Finished
            },
            BuildEvent::Failed(failure) => BuildStep::Aborted(module, failure),
        },
        _ => step,
    }
}

/// The step reached from the first one by the events `events`, in turn.
pub open spec fn step_reached(events: Seq<BuildEvent>) -> BuildStep
    decreases events.len(),
{
    if events.len() == 0 {
        first_step()
    } else {
        step_after(step_reached(events.drop_last()), events.last())
    }
}

/// Begins a build.
pub fn begin() -> (step: BuildStep)
    ensures
        step == first_step(),
{
    BuildStep::Compile(StdlibModule::AddressUtil)
}

/// Gives the step that follows `step` once the caller has reported `event`.
/// A build that is finished or aborted stays so.
pub fn advance(step: BuildStep, event: BuildEvent) -> (next: BuildStep)
    ensures
        next == step_after(step, event),
{
    match step {
        BuildStep::Compile(module) => match event {
            BuildEvent::Verified => match StdlibModule::at(module.position() + 1) {
                Some(following) => BuildStep::Compile(following),
                None => BuildStep::Finished,
            },
            BuildEvent::Failed(failure) => BuildStep::Aborted(module, failure),
        },
        BuildStep::Finished => BuildStep::Finished,
        BuildStep::Aborted(module, failure) => BuildStep::Aborted(module, failure),
    }
}

/// Says where a build stands after the outcomes `outcomes`, the first of
/// which is that of the first module.
pub fn build_stdlib(outcomes: &Vec<BuildEvent>) -> (step: BuildStep)
    ensures
        step == step_reached(outcomes@),
{
    let mut step = begin();
    let mut i: usize = 0;
    while i < outcomes.len()
        invariant
            i <= outcomes.len(),
            step == step_reached(outcomes@.take(i as int)),
        decreases outcomes.len() - i,
    {
        step = advance(step, outcomes[i]);
        assert(outcomes@.take(i + 1).drop_last() =~= outcomes@.take(i as int));
        i += 1;
    }
    assert(outcomes@.take(i as int) =~= outcomes@);
    step
}

/// While every module so far was verified, the build asks for the next
/// module of the order, and after the last one it is finished.
pub proof fn lemma_verified_modules_follow_the_order(events: Seq<BuildEvent>)
    requires
        forall|i: int| 0 <= i < events.len() ==> events[i] is Verified,
    ensures
        events.len() < STDLIB_SIZE ==> step_reached(events) == BuildStep::Compile(
            stdlib_order()[events.len() as int],
        ),
        events.len() >= STDLIB_SIZE ==> step_reached(events) is Finished,
    decreases events.len(),
{
    if events.len() > 0 {
        lemma_verified_modules_follow_the_order(events.drop_last());
    }
}

/// A build that is aborted or finished stays so, whatever is reported then.
pub proof fn lemma_ended_build_stays(events: Seq<BuildEvent>, more: Seq<BuildEvent>)
    requires
        !(step_reached(events) is Compile),
    ensures
        step_reached(events + more) == step_reached(events),
    decreases more.len(),
{
    if more.len() == 0 {
        assert(events + more =~= events);
    } else {
        lemma_ended_build_stays(events, more.drop_last());
        assert((events + more).drop_last() =~= events + more.drop_last());
    }
}

/// If one of the ten modules fails, and those before it were verified, the
/// build is aborted at that module with that failure, whatever is reported
/// after it: it never finishes.
pub proof fn lemma_failure_aborts(events: Seq<BuildEvent>, at: int)
    requires
        0 <= at < events.len(),
        at < STDLIB_SIZE,
        events[at] is Failed,
        forall|i: int| 0 <= i < at ==> events[i] is Verified,
    ensures
        step_reached(events) == BuildStep::Aborted(stdlib_order()[at], events[at]->Failed_0),
{
    let before = events.take(at);
    let upto = events.take(at + 1);
    lemma_verified_modules_follow_the_order(before);
    assert(upto.drop_last() =~= before);
    assert(upto.last() == events[at]);
    lemma_ended_build_stays(upto, events.skip(at + 1));
    assert(upto + events.skip(at + 1) =~= events);
}

/// A finished build has seen each of the ten modules verified: no partial
/// result is ever the result.
pub proof fn lemma_finished_means_all_verified(events: Seq<BuildEvent>)
    requires
        step_reached(events) is Finished,
    ensures
        events.len() >= STDLIB_SIZE,
        forall|i: int| 0 <= i < STDLIB_SIZE ==> events[i] is Verified,
    decreases events.len(),
{
    if events.len() == 0 {
    } else {
        let earlier = events.drop_last();
        if step_reached(earlier) is Finished {
            lemma_finished_means_all_verified(earlier);
        } else {
            lemma_compile_means_all_verified(earlier);
        }
        assert forall|i: int| 0 <= i < STDLIB_SIZE implies events[i] is Verified by {
            if i < earlier.len() {
                assert(earlier[i] == events[i]);
            }
        }
    }
}

/// A build that asks for a module has seen each module before it verified,
/// and nothing else.
pub proof fn lemma_compile_means_all_verified(events: Seq<BuildEvent>)
    requires
        step_reached(events) is Compile,
    ensures
        events.len() < STDLIB_SIZE,
        step_reached(events) == BuildStep::Compile(stdlib_order()[events.len() as int]),
        forall|i: int| 0 <= i < events.len() ==> events[i] is Verified,
    decreases events.len(),
{
    if events.len() > 0 {
        let earlier = events.drop_last();
        lemma_compile_means_all_verified(earlier);
        assert forall|i: int| 0 <= i < events.len() implies events[i] is Verified by {
            if i < earlier.len() {
                assert(earlier[i] == events[i]);
            }
        }
    }
}

/// Each module is compiled against the modules before it in the order and no
/// other: not against itself, nor against a later one.
pub proof fn lemma_dependencies_precede(module: StdlibModule, i: int)
    requires
        0 <= i < STDLIB_SIZE,
    ensures
        stdlib_order()[module.place()] == module,
        stdlib_order().take(module.place()).contains(stdlib_order()[i]) <==> i
            < module.place(),
{
    let deps = stdlib_order().take(module.place());
    if i < module.place() {
        assert(deps[i] == stdlib_order()[i]);
    }
}

} // verus!

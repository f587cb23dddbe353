use vstd::prelude::*;

verus! {

/// Where a protected region stands in its life.
#[derive(PartialEq, Eq, Structural, Clone, Copy, Debug)]
pub enum Stage {
    /// Nothing has been obtained yet.
    Unallocated,
    /// Raw storage obtained, not yet pinned, holding no value.
    Allocated,
    /// An allocation that already holds a value, taken over but not yet pinned.
    Adopted,
    /// Pinned and still empty.
    Pinned,
    /// Pinned and holding a valid value.
    Live,
    /// The value has left, by extraction or by in-place destruction.
    Vacated,
    /// Every byte of the region has been overwritten with zero.
    Zeroed,
    /// No longer pinned.
    Unpinned,
    /// Storage handed back to the allocator.
    Released,
}

/// One action taken on a protected region.
#[derive(PartialEq, Eq, Structural, Clone, Copy, Debug)]
pub enum Step {
    /// Obtain uninitialised storage sized for the value.
    Allocate,
    /// Take over an allocation that already holds the value.
    Adopt,
    /// Request that the region stay resident and never be paged out.
    Pin,
    /// Write the value into the region.
    Populate,
    /// Move the value out to ordinary storage.
    MoveOut,
    /// Run the value's destructor where it lies.
    DropInPlace,
    /// Overwrite every byte of the region with zero, in a way that cannot be elided.
    Zero,
    /// Lift the pin.
    Unpin,
    /// Hand the storage back to the allocator.
    Release,
}

/// The table of allowed moves: `None` where the step may not be taken.
pub open spec fn transition(stage: Stage, step: Step) -> Option<Stage> {
    match (stage, step) {
        (Stage::Unallocated, Step::Allocate) => Some(Stage::Allocated),
        (Stage::Unallocated, Step::Adopt) => Some(Stage::Adopted),
        (Stage::Allocated, Step::Pin) => Some(Stage::Pinned),
        (Stage::Adopted, Step::Pin) => Some(Stage::Live),
        (Stage::Pinned, Step::Populate) => Some(Stage::Live),
        (Stage::Live, Step::MoveOut) => Some(Stage::Vacated),
        (Stage::Live, Step::DropInPlace) => Some(Stage::Vacated),
        (Stage::Vacated, Step::Zero) => Some(Stage::Zeroed),
        (Stage::Zeroed, Step::Unpin) => Some(Stage::Unpinned),
        (Stage::Unpinned, Step::Release) => Some(Stage::Released),
        _ => None,
    }
}

/// The stage reached by taking `step` in `stage`, if the protocol allows it.
pub fn apply(stage: Stage, step: Step) -> (r: Option<Stage>)
    ensures
        r == transition(stage, step),
{
    match (stage, step) {
        (Stage::Unallocated, Step::Allocate) => Some(Stage::Allocated),
        (Stage::Unallocated, Step::Adopt) => Some(Stage::Adopted),
        (Stage::Allocated, Step::Pin) => Some(Stage::Pinned),
        (Stage::Adopted, Step::Pin) => Some(Stage::Live),
        (Stage::Pinned, Step::Populate) => Some(Stage::Live),
        (Stage::Live, Step::MoveOut) => Some(Stage::Vacated),
        (Stage::Live, Step::DropInPlace) => Some(Stage::Vacated),
        (Stage::Vacated, Step::Zero) => Some(Stage::Zeroed),
        (Stage::Zeroed, Step::Unpin) => Some(Stage::Unpinned),
        (Stage::Unpinned, Step::Release) => Some(Stage::Released),
        _ => None,
    }
}

/// What a driver of the protocol is after.
#[derive(PartialEq, Eq, Structural, Clone, Copy, Debug)]
pub enum Goal {
    /// Obtain fresh storage, pin it, then write the value into it.
    Construct,
    /// Take over storage that already holds the value, and pin it.
    Adopt,
    /// Move the value out, then zero, unpin and release the region.
    Extract,
    /// Destroy the value in place, then zero, unpin and release the region.
    Destroy,
}

/// Why a protocol run stopped. Every one of them is fatal to the container.
#[derive(PartialEq, Eq, Structural, Clone, Copy, Debug)]
pub enum Fault {
    /// The allocator could not provide the storage.
    AllocationFailed,
    /// The region could not be pinned.
    PinFailed,
    /// The region could not be unpinned.
    UnpinFailed,
    /// A step that cannot fail was reported as failed.
    StepFailed,
    /// The step is not allowed in the current stage.
    OutOfOrder,
}

/// The step that brings a region in `stage` closer to `goal`; `None` once the
/// goal is reached or where it cannot be reached from `stage`.
pub open spec fn next_step_spec(stage: Stage, goal: Goal) -> Option<Step> {
    match (goal, stage) {
        (Goal::Construct, Stage::Unallocated) => Some(Step::Allocate),
        (Goal::Construct, Stage::Allocated) => Some(Step::Pin),
        (Goal::Construct, Stage::Pinned) => Some(Step::Populate),
        (Goal::Adopt, Stage::Unallocated) => Some(Step::Adopt),
        (Goal::Adopt, Stage::Adopted) => Some(Step::Pin),
        (Goal::Extract, Stage::Live) => Some(Step::MoveOut),
        (Goal::Destroy, Stage::Live) => Some(Step::DropInPlace),
        (Goal::Extract, Stage::Vacated) | (Goal::Destroy, Stage::Vacated) => Some(Step::Zero),
        (Goal::Extract, Stage::Zeroed) | (Goal::Destroy, Stage::Zeroed) => Some(Step::Unpin),
        (Goal::Extract, Stage::Unpinned) | (Goal::Destroy, Stage::Unpinned) => Some(Step::Release),
        _ => None,
    }
}

/// The stage in which a run towards `goal` ends.
pub open spec fn goal_stage(goal: Goal) -> Stage {
    match goal {
        Goal::Construct | Goal::Adopt => Stage::Live,
        Goal::Extract | Goal::Destroy => Stage::Released,
    }
}

/// The step to take next towards `goal`.
pub fn next_step(stage: Stage, goal: Goal) -> (r: Option<Step>)
    ensures
        r == next_step_spec(stage, goal),
        r.is_some() ==> transition(stage, r.unwrap()).is_some(),
        stage == goal_stage(goal) ==> r.is_none(),
{
    match (goal, stage) {
        (Goal::Construct, Stage::Unallocated) => Some(Step::Allocate),
        (Goal::Construct, Stage::Allocated) => Some(Step::Pin),
        (Goal::Construct, Stage::Pinned) => Some(Step::Populate),
        (Goal::Adopt, Stage::Unallocated) => Some(Step::Adopt),
        (Goal::Adopt, Stage::Adopted) => Some(Step::Pin),
        (Goal::Extract, Stage::Live) => Some(Step::MoveOut),
        (Goal::Destroy, Stage::Live) => Some(Step::DropInPlace),
        (Goal::Extract, Stage::Vacated) | (Goal::Destroy, Stage::Vacated) => Some(Step::Zero),
        (Goal::Extract, Stage::Zeroed) | (Goal::Destroy, Stage::Zeroed) => Some(Step::Unpin),
        (Goal::Extract, Stage::Unpinned) | (Goal::Destroy, Stage::Unpinned) => Some(Step::Release),
        _ => None,
    }
}

/// The fault that a failed `step` stands for.
pub open spec fn fault_of(step: Step) -> Fault {
    match step {
        Step::Allocate | Step::Adopt => Fault::AllocationFailed,
        Step::Pin => Fault::PinFailed,
        Step::Unpin => Fault::UnpinFailed,
        _ => Fault::StepFailed,
    }
}

/// Takes the report of whoever performed `step` in `stage` and gives the stage
/// now reached, or the fault that ends the run.
pub fn on_outcome(stage: Stage, step: Step, succeeded: bool) -> (r: Result<Stage, Fault>)
    ensures
        transition(stage, step).is_none() ==> r == Err::<Stage, Fault>(Fault::OutOfOrder),
        transition(stage, step).is_some() && !succeeded ==> r == Err::<Stage, Fault>(fault_of(step)),
        transition(stage, step).is_some() && succeeded ==> r == Ok::<Stage, Fault>(
            transition(stage, step).unwrap(),
        ),
        r.is_ok() <==> (succeeded && transition(stage, step).is_some()),
{
    match apply(stage, step) {
        None => Err(Fault::OutOfOrder),
        Some(next) => {
            if succeeded {
                Ok(next)
            } else {
                match step {
                    Step::Allocate | Step::Adopt => Err(Fault::AllocationFailed),
                    Step::Pin => Err(Fault::PinFailed),
                    Step::Unpin => Err(Fault::UnpinFailed),
                    _ => Err(Fault::StepFailed),
                }
            }
        },
    }
}

/// The stage reached from `start` by taking `steps` in order, if the protocol
/// allows every one of them.
pub open spec fn run(start: Stage, steps: Seq<Step>) -> Option<Stage>
    decreases steps.len(),
{
    if steps.len() == 0 {
        Some(start)
    } else {
        match transition(start, steps[0]) {
            Some(next) => run(next, steps.drop_first()),
            None => None,
        }
    }
}

/// The end of a region's life: the value leaves (moved out when `extracted`,
/// destroyed in place otherwise), then the region is zeroed, unpinned and released.
pub open spec fn ending(extracted: bool) -> Seq<Step> {
    seq![if extracted { Step::MoveOut } else { Step::DropInPlace }, Step::Zero, Step::Unpin, Step::Release]
}

/// The start of a region's life: fresh storage is pinned before the value is
/// written into it, or an allocation that holds the value is adopted and pinned.
pub open spec fn beginning(adopted: bool) -> Seq<Step> {
    if adopted {
        seq![Step::Adopt, Step::Pin]
    } else {
        seq![Step::Allocate, Step::Pin, Step::Populate]
    }
}

/// A whole life of a region, from nothing to released.
pub open spec fn life(adopted: bool, extracted: bool) -> Seq<Step> {
    beginning(adopted) + ending(extracted)
}

proof fn lemma_rest_of_life(s: Stage, steps: Seq<Step>)
    requires
        run(s, steps) == Some(Stage::Released),
    ensures
        s == Stage::Released ==> steps.len() == 0,
        s == Stage::Unpinned ==> steps == ending(true).drop_first().drop_first().drop_first(),
        s == Stage::Zeroed ==> steps == ending(true).drop_first().drop_first(),
        s == Stage::Vacated ==> steps == ending(true).drop_first(),
        s == Stage::Live ==> steps.len() > 0 && steps == ending(steps[0] == Step::MoveOut),
        s == Stage::Pinned ==> steps.len() > 1 && steps == seq![Step::Populate] + ending(
            steps[1] == Step::MoveOut,
        ),
        s == Stage::Adopted ==> steps.len() > 1 && steps == seq![Step::Pin] + ending(
            steps[1] == Step::MoveOut,
        ),
        s == Stage::Allocated ==> steps.len() > 2 && steps == seq![Step::Pin, Step::Populate]
            + ending(steps[2] == Step::MoveOut),
        s == Stage::Unallocated ==> steps.len() > 2 && (steps == life(true, steps[2] == Step::MoveOut)
            || steps == life(false, steps[3] == Step::MoveOut)),
    decreases steps.len(),
{
    if steps.len() > 0 {
        let next = transition(s, steps[0]).unwrap();
        let rest = steps.drop_first();
        lemma_rest_of_life(next, rest);
        assert(steps =~= seq![steps[0]] + rest);
        assert(ending(true).drop_first() =~= seq![Step::Zero, Step::Unpin, Step::Release]);
        assert(ending(true).drop_first().drop_first() =~= seq![Step::Unpin, Step::Release]);
        assert(ending(true).drop_first().drop_first().drop_first() =~= seq![Step::Release]);
        if s == Stage::Live {
            assert(steps =~= ending(steps[0] == Step::MoveOut));
        } else if s == Stage::Pinned || s == Stage::Adopted {
            assert(steps =~= seq![steps[0]] + ending(steps[1] == Step::MoveOut));
        } else if s == Stage::Allocated {
            assert(steps =~= seq![Step::Pin, Step::Populate] + ending(steps[2] == Step::MoveOut));
        } else if s == Stage::Unallocated {
            if steps[0] == Step::Adopt {
                assert(steps =~= life(true, steps[2] == Step::MoveOut));
            } else {
                assert(steps =~= life(false, steps[3] == Step::MoveOut));
            }
        }
    }
}

/// The protocol admits exactly four complete lives: fresh or adopted storage,
/// ended by extraction or by in-place destruction. In each, the value enters
/// only pinned storage, exactly one of extraction and destruction happens, and
/// the region is zeroed before it is unpinned and unpinned before it is released.
pub proof fn lemma_complete_lives(steps: Seq<Step>)
    ensures
        run(Stage::Unallocated, steps) == Some(Stage::Released) <==> exists|adopted: bool, extracted: bool|
            steps == life(adopted, extracted),
{
    if run(Stage::Unallocated, steps) == Some(Stage::Released) {
        lemma_rest_of_life(Stage::Unallocated, steps);
        if steps == life(true, steps[2] == Step::MoveOut) {
            assert(steps == life(true, steps[2] == Step::MoveOut));
        } else {
            assert(steps == life(false, steps[3] == Step::MoveOut));
        }
    }
    assert forall|adopted: bool, extracted: bool|
        run(Stage::Unallocated, #[trigger] life(adopted, extracted)) == Some(Stage::Released) by {
        let l = life(adopted, extracted);
        reveal_with_fuel(run, 8);
        if adopted {
            assert(l =~= seq![Step::Adopt, Step::Pin, l[2], Step::Zero, Step::Unpin, Step::Release]);
        } else {
            assert(l =~= seq![Step::Allocate, Step::Pin, Step::Populate, l[3], Step::Zero, Step::Unpin, Step::Release]);
        }
        assert(run(Stage::Unallocated, l) == Some(Stage::Released));
    }
}

/// The steps taken by following `next_step_spec` from `stage` towards `goal`,
/// every step succeeding, for at most `fuel` steps.
pub open spec fn driven(stage: Stage, goal: Goal, fuel: nat) -> Seq<Step>
    decreases fuel,
{
    if fuel == 0 {
        Seq::empty()
    } else {
        match next_step_spec(stage, goal) {
            None => Seq::empty(),
            Some(step) => match transition(stage, step) {
                Some(next) => seq![step] + driven(next, goal, (fuel - 1) as nat),
                None => Seq::empty(),
            },
        }
    }
}

/// Driving a region towards a goal, step by step, takes exactly the steps of
/// the matching part of a complete life, and no more however long it goes on:
/// construction allocates, pins, then populates; adoption pins; extraction and
/// destruction each free the value, then zero, unpin and release the region.
pub proof fn lemma_driver_follows_life(fuel: nat)
    requires
        fuel >= 4,
    ensures
        driven(Stage::Unallocated, Goal::Construct, fuel) == beginning(false),
        driven(Stage::Unallocated, Goal::Adopt, fuel) == beginning(true),
        driven(Stage::Live, Goal::Extract, fuel) == ending(true),
        driven(Stage::Live, Goal::Destroy, fuel) == ending(false),
{
    let f1 = (fuel - 1) as nat;
    let f2 = (fuel - 2) as nat;
    let f3 = (fuel - 3) as nat;
    let f4 = (fuel - 4) as nat;
    assert(driven(Stage::Live, Goal::Construct, f3) == Seq::<Step>::empty());
    assert(driven(Stage::Pinned, Goal::Construct, f2) =~= seq![Step::Populate]);
    assert(driven(Stage::Allocated, Goal::Construct, f1) =~= seq![Step::Pin, Step::Populate]);
    assert(driven(Stage::Unallocated, Goal::Construct, fuel) =~= beginning(false));
    assert(driven(Stage::Live, Goal::Adopt, f2) == Seq::<Step>::empty());
    assert(driven(Stage::Adopted, Goal::Adopt, f1) =~= seq![Step::Pin]);
    assert(driven(Stage::Unallocated, Goal::Adopt, fuel) =~= beginning(true));
    assert forall|goal: Goal| goal == Goal::Extract || goal == Goal::Destroy implies driven(
        Stage::Live,
        goal,
        fuel,
    ) =~= ending(goal == Goal::Extract) by {
        assert(driven(Stage::Released, goal, f4) == Seq::<Step>::empty());
        assert(driven(Stage::Unpinned, goal, f3) =~= seq![Step::Release]);
        assert(driven(Stage::Zeroed, goal, f2) =~= seq![Step::Unpin, Step::Release]);
        assert(driven(Stage::Vacated, goal, f1) =~= seq![Step::Zero, Step::Unpin, Step::Release]);
    }
}

} // verus!

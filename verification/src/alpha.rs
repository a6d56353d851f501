//! The opacity ramp: a level between transparent and opaque, moved in steps.

use vstd::prelude::*;

verus! {

/// Level of a fully opaque cursor, in thousandths.
pub const OPAQUE: u32 = 1000;

/// Level that `level` reaches when raised by `step`: the sum, held at `OPAQUE`.
pub open spec fn raised(level: nat, step: nat) -> nat {
    if level + step > OPAQUE {
        OPAQUE as nat
    } else {
        level + step
    }
}

/// Level that `level` reaches when lowered by `step`: the difference, held at zero.
pub open spec fn lowered(level: nat, step: nat) -> nat {
    if level < step {
        0
    } else {
        (level - step) as nat
    }
}

/// Opacity of the cursor in thousandths, never above `OPAQUE`.
#[derive(Clone, Copy, Debug)]
pub struct Alpha(u32);

impl View for Alpha {
    type V = nat;

    closed spec fn view(&self) -> nat {
        self.0 as nat
    }
}

impl Alpha {
    /// Every level lies between transparent and opaque.
    #[verifier::type_invariant]
    pub open spec fn wf(self) -> bool {
        self@ <= OPAQUE
    }

    /// A fully opaque level.
    pub fn opaque() -> (alpha: Alpha)
        ensures
            alpha@ == OPAQUE,
    {
        Alpha(OPAQUE)
    }

    /// The level `level`, or `None` where `level` is above `OPAQUE`.
    pub fn new(level: u32) -> (alpha: Option<Alpha>)
        ensures
            level <= OPAQUE ==> alpha is Some && alpha.unwrap()@ == level,
            level > OPAQUE ==> alpha is None,
    {
        if level <= OPAQUE {
            Some(Alpha(level))
        } else {
            None
        }
    }

    /// The current level in thousandths.
    pub fn level(&self) -> (level: u32)
        ensures
            level == self@,
            level <= OPAQUE,
    {
        proof {
            use_type_invariant(self);
        }
        self.0
    }

    /// Raises the level by `step`. Returns `true` while the ramp is still on its
    /// way, `false` once the step has pushed it past `OPAQUE`, where it is held.
    pub fn show(&mut self, step: u32) -> (ramping: bool)
        ensures
            final(self)@ == raised(old(self)@, step as nat),
            ramping == (old(self)@ + step <= OPAQUE),
            old(self)@ <= final(self)@ <= OPAQUE,
    {
        proof {
            use_type_invariant(&*self);
        }
        if step > OPAQUE - self.0 {
            self.0 = OPAQUE;
            false
        } else {
            self.0 = self.0 + step;
            true
        }
    }

    /// Lowers the level by `step`. Returns `true` while the ramp is still on its
    /// way, `false` once the step has pushed it below zero, where it is held.
    pub fn fade(&mut self, step: u32) -> (ramping: bool)
        ensures
            final(self)@ == lowered(old(self)@, step as nat),
            ramping == (step <= old(self)@),
            final(self)@ <= old(self)@,
    {
        proof {
            use_type_invariant(&*self);
        }
        if step > self.0 {
            self.0 = 0;
            false
        } else {
            self.0 = self.0 - step;
            true
        }
    }
}

/// Sum of all the steps of `steps`.
pub open spec fn total(steps: Seq<nat>) -> nat
    decreases steps.len(),
{
    if steps.len() == 0 {
        0
    } else {
        total(steps.drop_last()) + steps.last()
    }
}

/// Level reached from `level` by raising it by each step of `steps` in turn.
pub open spec fn raised_by(level: nat, steps: Seq<nat>) -> nat
    decreases steps.len(),
{
    if steps.len() == 0 {
        level
    } else {
        raised(raised_by(level, steps.drop_last()), steps.last())
    }
}

/// Level reached from `level` by lowering it by each step of `steps` in turn.
pub open spec fn lowered_by(level: nat, steps: Seq<nat>) -> nat
    decreases steps.len(),
{
    if steps.len() == 0 {
        level
    } else {
        lowered(lowered_by(level, steps.drop_last()), steps.last())
    }
}

/// What the call number `k` of a run of `show` calls returns, the run starting
/// at `level` and taking its steps from `steps`.
pub open spec fn show_signal(level: nat, steps: Seq<nat>, k: int) -> bool {
    raised_by(level, steps.take(k)) + steps[k] <= OPAQUE
}

/// What the call number `k` of a run of `fade` calls returns, the run starting
/// at `level` and taking its steps from `steps`.
pub open spec fn fade_signal(level: nat, steps: Seq<nat>, k: int) -> bool {
    steps[k] <= lowered_by(level, steps.take(k))
}

proof fn lemma_take_step(steps: Seq<nat>, k: int)
    requires
        0 <= k < steps.len(),
    ensures
        steps.take(k + 1).drop_last() == steps.take(k),
        steps.take(k + 1).last() == steps[k],
        total(steps.take(k + 1)) == total(steps.take(k)) + steps[k],
{
    assert(steps.take(k + 1).drop_last() =~= steps.take(k));
}

proof fn lemma_total_prefix(steps: Seq<nat>, j: int, k: int)
    requires
        0 <= j <= k <= steps.len(),
    ensures
        total(steps.take(j)) <= total(steps.take(k)),
    decreases k - j,
{
    if j < k {
        lemma_take_step(steps, k - 1);
        lemma_total_prefix(steps, j, k - 1);
    }
}

/// A run of raises ends where one raise by the sum of the steps ends.
pub proof fn lemma_raised_by_total(level: nat, steps: Seq<nat>)
    requires
        level <= OPAQUE,
    ensures
        raised_by(level, steps) == raised(level, total(steps)),
    decreases steps.len(),
{
    if steps.len() > 0 {
        lemma_raised_by_total(level, steps.drop_last());
    }
}

/// A run of lowerings ends where one lowering by the sum of the steps ends.
pub proof fn lemma_lowered_by_total(level: nat, steps: Seq<nat>)
    ensures
        lowered_by(level, steps) == lowered(level, total(steps)),
    decreases steps.len(),
{
    if steps.len() > 0 {
        lemma_lowered_by_total(level, steps.drop_last());
    }
}

/// Over any run of `show` calls the level never falls and never passes
/// `OPAQUE`, whatever the steps are.
pub proof fn lemma_show_run_rises(level: nat, steps: Seq<nat>, j: int, k: int)
    requires
        level <= OPAQUE,
        0 <= j <= k <= steps.len(),
    ensures
        raised_by(level, steps.take(j)) <= raised_by(level, steps.take(k)) <= OPAQUE,
{
    lemma_raised_by_total(level, steps.take(j));
    lemma_raised_by_total(level, steps.take(k));
    lemma_total_prefix(steps, j, k);
}

/// Over a run of `show` calls with positive steps, the call that pushes the
/// level past `OPAQUE` answers `false`, and every call before it answers `true`.
pub proof fn lemma_show_run_signals(level: nat, steps: Seq<nat>, k: int)
    requires
        level <= OPAQUE,
        0 <= k < steps.len(),
        forall|i: int| 0 <= i < steps.len() ==> steps[i] > 0,
        level + total(steps.take(k)) <= OPAQUE < level + total(steps.take(k + 1)),
    ensures
        !show_signal(level, steps, k),
        forall|j: int| 0 <= j < k ==> show_signal(level, steps, j),
        forall|j: int| k <= j < steps.len() ==> !show_signal(level, steps, j),
{
    lemma_raised_by_total(level, steps.take(k));
    assert forall|j: int| 0 <= j < k implies show_signal(level, steps, j) by {
        lemma_raised_by_total(level, steps.take(j));
        lemma_take_step(steps, j);
        lemma_total_prefix(steps, j + 1, k);
    }
    assert forall|j: int| k <= j < steps.len() implies !show_signal(level, steps, j) by {
        lemma_raised_by_total(level, steps.take(j));
        lemma_take_step(steps, j);
        lemma_total_prefix(steps, k + 1, j + 1);
    }
}

/// Over any run of `fade` calls the level never rises, whatever the steps are.
pub proof fn lemma_fade_run_falls(level: nat, steps: Seq<nat>, j: int, k: int)
    requires
        0 <= j <= k <= steps.len(),
    ensures
        lowered_by(level, steps.take(k)) <= lowered_by(level, steps.take(j)) <= level,
{
    lemma_lowered_by_total(level, steps.take(j));
    lemma_lowered_by_total(level, steps.take(k));
    lemma_total_prefix(steps, j, k);
}

/// Over a run of `fade` calls with positive steps, the call that pushes the
/// level below zero answers `false`, and every call before it answers `true`.
pub proof fn lemma_fade_run_signals(level: nat, steps: Seq<nat>, k: int)
    requires
        0 <= k < steps.len(),
        forall|i: int| 0 <= i < steps.len() ==> steps[i] > 0,
        total(steps.take(k)) <= level < total(steps.take(k + 1)),
    ensures
        !fade_signal(level, steps, k),
        forall|j: int| 0 <= j < k ==> fade_signal(level, steps, j),
        forall|j: int| k <= j < steps.len() ==> !fade_signal(level, steps, j),
{
    lemma_lowered_by_total(level, steps.take(k));
    lemma_take_step(steps, k);
    assert forall|j: int| 0 <= j < k implies fade_signal(level, steps, j) by {
        lemma_lowered_by_total(level, steps.take(j));
        lemma_take_step(steps, j);
        lemma_total_prefix(steps, j + 1, k);
    }
    assert forall|j: int| k <= j < steps.len() implies !fade_signal(level, steps, j) by {
        lemma_lowered_by_total(level, steps.take(j));
        lemma_take_step(steps, j);
        lemma_total_prefix(steps, k + 1, j + 1);
    }
}

} // verus!

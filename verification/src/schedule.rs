use vstd::prelude::*;

verus! {

/// One sub-step of the split-operator propagation sequence.
///
/// A propagation run is driven by a schedule of these actions.  The engine
/// that executes them holds the wave function either in coordinate space or
/// in momentum space; `Forward` and `Inverse` are the two-dimensional Fourier
/// transform pair that moves between the representations, the remaining
/// actions are elementwise phase multiplications or bookkeeping.
#[derive(Clone, Copy, Debug, PartialEq, Eq, Structural)]
pub enum SubStep {
    /// Multiply by the grid-centering factor before the first transform.
    Modify,
    /// Coordinate-space potential phase with the half-step prefactor.
    PotentialHalf,
    /// Coordinate-space potential phase with the full-step prefactor.
    PotentialFull,
    /// Forward two-dimensional Fourier transform.
    Forward,
    /// Momentum-space kinetic phase.
    Kinetic,
    /// Inverse two-dimensional Fourier transform.
    Inverse,
    /// Advance the time cursor by one time step.
    AdvanceTime,
    /// Undo the grid-centering factor after the last inverse transform.
    Demodify,
}

/// The opening actions of every run: grid-centering modification, then the
/// first coordinate-space half-step.
pub open spec fn warmup_steps() -> Seq<SubStep> {
    seq![SubStep::Modify, SubStep::PotentialHalf]
}

/// One full Strang-splitting step of the main loop: kinetic phase between a
/// transform pair, then a full coordinate-space potential step, then the
/// time cursor moves.
pub open spec fn full_step_block() -> Seq<SubStep> {
    seq![
        SubStep::Forward,
        SubStep::Kinetic,
        SubStep::Inverse,
        SubStep::PotentialFull,
        SubStep::AdvanceTime,
    ]
}

/// `k` repetitions of the main-loop block.
pub open spec fn full_step_blocks(k: nat) -> Seq<SubStep>
    decreases k,
{
    if k == 0 {
        Seq::empty()
    } else {
        full_step_blocks((k - 1) as nat) + full_step_block()
    }
}

/// The closing actions: the last kinetic step, the closing coordinate-space
/// half-step, the grid-centering undo, and the final time advance.
pub open spec fn closing_steps() -> Seq<SubStep> {
    seq![
        SubStep::Forward,
        SubStep::Kinetic,
        SubStep::Inverse,
        SubStep::PotentialHalf,
        SubStep::Demodify,
        SubStep::AdvanceTime,
    ]
}

/// The complete schedule of a run over `n` time steps: the symmetric
/// splitting opens with a half potential step, runs `n - 1` full-step blocks,
/// and closes with the final kinetic step and half potential step.
pub open spec fn schedule_spec(n: nat) -> Seq<SubStep>
    recommends
        1 <= n,
{
    warmup_steps() + full_step_blocks((n - 1) as nat) + closing_steps()
}

/// How often the action `a` occurs in the schedule `s`.
pub open spec fn count_in(s: Seq<SubStep>, a: SubStep) -> nat
    decreases s.len(),
{
    if s.len() == 0 {
        0
    } else {
        count_in(s.drop_last(), a) + (if s.last() == a {
            1nat
        } else {
            0nat
        })
    }
}

/// The representation the wave function is in after `s` has run, starting
/// from coordinate space when `init` is false: only the transforms move it.
pub open spec fn momentum_after(s: Seq<SubStep>, init: bool) -> bool
    decreases s.len(),
{
    if s.len() == 0 {
        init
    } else {
        match s.last() {
            SubStep::Forward => true,
            SubStep::Inverse => false,
            _ => momentum_after(s.drop_last(), init),
        }
    }
}

/// Whether the action `a` may be issued while the wave function is in the
/// given representation: the kinetic phase reads momentum samples and so
/// needs momentum space, a forward transform must not be repeated, and every
/// other action reads coordinate samples or the time cursor and needs
/// coordinate space.
pub open spec fn action_fits_space(a: SubStep, in_momentum: bool) -> bool {
    match a {
        SubStep::Forward => !in_momentum,
        SubStep::Kinetic => in_momentum,
        SubStep::Inverse => in_momentum,
        SubStep::Modify => !in_momentum,
        SubStep::PotentialHalf => !in_momentum,
        SubStep::PotentialFull => !in_momentum,
        SubStep::Demodify => !in_momentum,
        SubStep::AdvanceTime => !in_momentum,
    }
}

/// Whether every action of `s` is issued in the representation it needs,
/// starting from `init`.
pub open spec fn actions_fit_spaces(s: Seq<SubStep>, init: bool) -> bool
    decreases s.len(),
{
    if s.len() == 0 {
        true
    } else {
        actions_fit_spaces(s.drop_last(), init) && action_fits_space(
            s.last(),
            momentum_after(s.drop_last(), init),
        )
    }
}

/// Builds the schedule of one propagation run over `n_steps` time steps.
///
/// The result is exactly the sequence of the symmetric splitting: the
/// grid-centering modification and the opening half potential step, then
/// `n_steps - 1` full-step blocks, then the closing block.  A run of zero
/// steps has no schedule: it is rejected at validation as
/// `ConfigError::ZeroSteps`, which also guards the `n_steps - 1` count here.
pub fn evolution_schedule(n_steps: usize) -> (r: Vec<SubStep>)
    requires
        1 <= n_steps,
    ensures
        r@ == schedule_spec(n_steps as nat),
        r@.len() == 5 * n_steps + 3,
{
    let mut r: Vec<SubStep> = Vec::new();
    r.push(SubStep::Modify);
    r.push(SubStep::PotentialHalf);
    proof {
        assert(r@ =~= warmup_steps() + full_step_blocks(0));
    }
    let mut i: usize = 0;
    while i < n_steps - 1
        invariant
            1 <= n_steps,
            i <= n_steps - 1,
            r@ == warmup_steps() + full_step_blocks(i as nat),
        decreases n_steps - 1 - i,
    {
        r.push(SubStep::Forward);
        r.push(SubStep::Kinetic);
        r.push(SubStep::Inverse);
        r.push(SubStep::PotentialFull);
        r.push(SubStep::AdvanceTime);
        proof {
            assert(r@ =~= warmup_steps() + full_step_blocks((i + 1) as nat));
        }
        i = i + 1;
    }
    r.push(SubStep::Forward);
    r.push(SubStep::Kinetic);
    r.push(SubStep::Inverse);
    r.push(SubStep::PotentialHalf);
    r.push(SubStep::Demodify);
    r.push(SubStep::AdvanceTime);
    proof {
        assert(r@ =~= schedule_spec(n_steps as nat));
        lemma_blocks_len((n_steps - 1) as nat);
    }
    r
}

/// The repeated main-loop blocks contribute five actions per block.
proof fn lemma_blocks_len(k: nat)
    ensures
        full_step_blocks(k).len() == 5 * k,
    decreases k,
{
    if k > 0 {
        lemma_blocks_len((k - 1) as nat);
    }
}

/// Counting distributes over concatenation of schedules.
proof fn lemma_count_in_add(s: Seq<SubStep>, t: Seq<SubStep>, a: SubStep)
    ensures
        count_in(s + t, a) == count_in(s, a) + count_in(t, a),
    decreases t.len(),
{
    if t.len() == 0 {
        assert(s + t =~= s);
    } else {
        assert((s + t).drop_last() =~= s + t.drop_last());
        lemma_count_in_add(s, t.drop_last(), a);
    }
}

/// How often `a` occurs in one main-loop block.
proof fn lemma_step_block_count(a: SubStep)
    ensures
        count_in(full_step_block(), a) == (if a == SubStep::Modify || a == SubStep::PotentialHalf
            || a == SubStep::Demodify {
            0nat
        } else {
            1nat
        }),
{
    reveal_with_fuel(count_in, 8);
    let b = full_step_block();
    assert(b.drop_last() =~= seq![
        SubStep::Forward,
        SubStep::Kinetic,
        SubStep::Inverse,
        SubStep::PotentialFull,
    ]);
    assert(b.drop_last().drop_last() =~= seq![
        SubStep::Forward,
        SubStep::Kinetic,
        SubStep::Inverse,
    ]);
    assert(b.drop_last().drop_last().drop_last() =~= seq![SubStep::Forward, SubStep::Kinetic]);
    assert(b.drop_last().drop_last().drop_last().drop_last() =~= seq![SubStep::Forward]);
    assert(seq![SubStep::Forward].drop_last() =~= Seq::<SubStep>::empty());
}

/// How often `a` occurs in `k` main-loop blocks.
proof fn lemma_blocks_count(k: nat, a: SubStep)
    ensures
        count_in(full_step_blocks(k), a) == k * count_in(full_step_block(), a),
    decreases k,
{
    if k == 0 {
    } else {
        lemma_blocks_count((k - 1) as nat, a);
        lemma_count_in_add(full_step_blocks((k - 1) as nat), full_step_block(), a);
        assert((k - 1) * count_in(full_step_block(), a) + count_in(full_step_block(), a) == k
            * count_in(full_step_block(), a)) by (nonlinear_arith);
    }
}

/// How often `a` occurs in the opening actions.
proof fn lemma_warmup_count(a: SubStep)
    ensures
        count_in(warmup_steps(), a) == (if a == SubStep::Modify || a == SubStep::PotentialHalf {
            1nat
        } else {
            0nat
        }),
{
    reveal_with_fuel(count_in, 8);
    assert(warmup_steps().drop_last() =~= seq![SubStep::Modify]);
    assert(seq![SubStep::Modify].drop_last() =~= Seq::<SubStep>::empty());
}

/// How often `a` occurs in the closing actions.
proof fn lemma_closing_count(a: SubStep)
    ensures
        count_in(closing_steps(), a) == (if a == SubStep::Modify || a == SubStep::PotentialFull {
            0nat
        } else {
            1nat
        }),
{
    reveal_with_fuel(count_in, 8);
    let c = closing_steps();
    assert(c.drop_last() =~= seq![
        SubStep::Forward,
        SubStep::Kinetic,
        SubStep::Inverse,
        SubStep::PotentialHalf,
        SubStep::Demodify,
    ]);
    assert(c.drop_last().drop_last() =~= seq![
        SubStep::Forward,
        SubStep::Kinetic,
        SubStep::Inverse,
        SubStep::PotentialHalf,
    ]);
    assert(c.drop_last().drop_last().drop_last() =~= seq![
        SubStep::Forward,
        SubStep::Kinetic,
        SubStep::Inverse,
    ]);
    assert(c.drop_last().drop_last().drop_last().drop_last() =~= seq![
        SubStep::Forward,
        SubStep::Kinetic,
    ]);
    assert(c.drop_last().drop_last().drop_last().drop_last().drop_last() =~= seq![
        SubStep::Forward,
    ]);
    assert(seq![SubStep::Forward].drop_last() =~= Seq::<SubStep>::empty());
}

/// The count over the whole schedule decomposes into the opening actions,
/// `n - 1` main-loop blocks, and the closing actions.
proof fn lemma_schedule_count_decompose(n: nat, a: SubStep)
    requires
        1 <= n,
    ensures
        count_in(schedule_spec(n), a) == count_in(warmup_steps(), a) + ((n - 1) as nat) * count_in(
            full_step_block(),
            a,
        ) + count_in(closing_steps(), a),
{
    let k = (n - 1) as nat;
    let front = warmup_steps() + full_step_blocks(k);
    lemma_count_in_add(front, closing_steps(), a);
    lemma_count_in_add(warmup_steps(), full_step_blocks(k), a);
    lemma_blocks_count(k, a);
}

/// Law: over a run of `n` time steps the schedule advances the time cursor
/// exactly `n` times, issues exactly `n` forward transforms, `n` inverse
/// transforms and `n` kinetic phases, applies the grid-centering
/// modification and its undo exactly once each, and applies the half-step
/// potential phase exactly twice around `n - 1` full-step phases.
pub proof fn lemma_schedule_counts(n: nat)
    requires
        1 <= n,
    ensures
        count_in(schedule_spec(n), SubStep::AdvanceTime) == n,
        count_in(schedule_spec(n), SubStep::Forward) == n,
        count_in(schedule_spec(n), SubStep::Kinetic) == n,
        count_in(schedule_spec(n), SubStep::Inverse) == n,
        count_in(schedule_spec(n), SubStep::Modify) == 1,
        count_in(schedule_spec(n), SubStep::Demodify) == 1,
        count_in(schedule_spec(n), SubStep::PotentialHalf) == 2,
        count_in(schedule_spec(n), SubStep::PotentialFull) == n - 1,
{
    lemma_schedule_count_decompose(n, SubStep::AdvanceTime);
    lemma_warmup_count(SubStep::AdvanceTime);
    lemma_step_block_count(SubStep::AdvanceTime);
    lemma_closing_count(SubStep::AdvanceTime);
    lemma_schedule_count_decompose(n, SubStep::Forward);
    lemma_warmup_count(SubStep::Forward);
    lemma_step_block_count(SubStep::Forward);
    lemma_closing_count(SubStep::Forward);
    lemma_schedule_count_decompose(n, SubStep::Kinetic);
    lemma_warmup_count(SubStep::Kinetic);
    lemma_step_block_count(SubStep::Kinetic);
    lemma_closing_count(SubStep::Kinetic);
    lemma_schedule_count_decompose(n, SubStep::Inverse);
    lemma_warmup_count(SubStep::Inverse);
    lemma_step_block_count(SubStep::Inverse);
    lemma_closing_count(SubStep::Inverse);
    lemma_schedule_count_decompose(n, SubStep::Modify);
    lemma_warmup_count(SubStep::Modify);
    lemma_step_block_count(SubStep::Modify);
    lemma_closing_count(SubStep::Modify);
    lemma_schedule_count_decompose(n, SubStep::Demodify);
    lemma_warmup_count(SubStep::Demodify);
    lemma_step_block_count(SubStep::Demodify);
    lemma_closing_count(SubStep::Demodify);
    lemma_schedule_count_decompose(n, SubStep::PotentialHalf);
    lemma_warmup_count(SubStep::PotentialHalf);
    lemma_step_block_count(SubStep::PotentialHalf);
    lemma_closing_count(SubStep::PotentialHalf);
    lemma_schedule_count_decompose(n, SubStep::PotentialFull);
    lemma_warmup_count(SubStep::PotentialFull);
    lemma_step_block_count(SubStep::PotentialFull);
    lemma_closing_count(SubStep::PotentialFull);
}

/// The representation after a concatenation is the representation after the
/// second part, started from wherever the first part ended.
proof fn lemma_momentum_after_add(s: Seq<SubStep>, t: Seq<SubStep>, init: bool)
    ensures
        momentum_after(s + t, init) == momentum_after(t, momentum_after(s, init)),
    decreases t.len(),
{
    if t.len() == 0 {
        assert(s + t =~= s);
    } else {
        assert((s + t).drop_last() =~= s + t.drop_last());
        lemma_momentum_after_add(s, t.drop_last(), init);
    }
}

/// Space discipline splits over concatenation.
proof fn lemma_fit_add(s: Seq<SubStep>, t: Seq<SubStep>, init: bool)
    ensures
        actions_fit_spaces(s + t, init) == (actions_fit_spaces(s, init) && actions_fit_spaces(
            t,
            momentum_after(s, init),
        )),
    decreases t.len(),
{
    if t.len() == 0 {
        assert(s + t =~= s);
    } else {
        assert((s + t).drop_last() =~= s + t.drop_last());
        lemma_fit_add(s, t.drop_last(), init);
        lemma_momentum_after_add(s, t.drop_last(), init);
    }
}

/// One main-loop block keeps the space discipline and returns to coordinate
/// space.
proof fn lemma_step_block_spaces()
    ensures
        actions_fit_spaces(full_step_block(), false),
        momentum_after(full_step_block(), false) == false,
{
    reveal_with_fuel(momentum_after, 8);
    reveal_with_fuel(actions_fit_spaces, 8);
    let b = full_step_block();
    assert(b.drop_last() =~= seq![
        SubStep::Forward,
        SubStep::Kinetic,
        SubStep::Inverse,
        SubStep::PotentialFull,
    ]);
    assert(b.drop_last().drop_last() =~= seq![
        SubStep::Forward,
        SubStep::Kinetic,
        SubStep::Inverse,
    ]);
    assert(b.drop_last().drop_last().drop_last() =~= seq![SubStep::Forward, SubStep::Kinetic]);
    assert(b.drop_last().drop_last().drop_last().drop_last() =~= seq![SubStep::Forward]);
    assert(seq![SubStep::Forward].drop_last() =~= Seq::<SubStep>::empty());
}

/// The opening actions keep the space discipline and stay in coordinate
/// space.
proof fn lemma_warmup_spaces()
    ensures
        actions_fit_spaces(warmup_steps(), false),
        momentum_after(warmup_steps(), false) == false,
{
    reveal_with_fuel(momentum_after, 4);
    reveal_with_fuel(actions_fit_spaces, 4);
    assert(warmup_steps().drop_last() =~= seq![SubStep::Modify]);
    assert(seq![SubStep::Modify].drop_last() =~= Seq::<SubStep>::empty());
}

/// The closing actions keep the space discipline and return to coordinate
/// space.
proof fn lemma_closing_spaces()
    ensures
        actions_fit_spaces(closing_steps(), false),
        momentum_after(closing_steps(), false) == false,
{
    reveal_with_fuel(momentum_after, 8);
    reveal_with_fuel(actions_fit_spaces, 8);
    let c = closing_steps();
    assert(c.drop_last() =~= seq![
        SubStep::Forward,
        SubStep::Kinetic,
        SubStep::Inverse,
        SubStep::PotentialHalf,
        SubStep::Demodify,
    ]);
    assert(c.drop_last().drop_last() =~= seq![
        SubStep::Forward,
        SubStep::Kinetic,
        SubStep::Inverse,
        SubStep::PotentialHalf,
    ]);
    assert(c.drop_last().drop_last().drop_last() =~= seq![
        SubStep::Forward,
        SubStep::Kinetic,
        SubStep::Inverse,
    ]);
    assert(c.drop_last().drop_last().drop_last().drop_last() =~= seq![
        SubStep::Forward,
        SubStep::Kinetic,
    ]);
    assert(c.drop_last().drop_last().drop_last().drop_last().drop_last() =~= seq![
        SubStep::Forward,
    ]);
    assert(seq![SubStep::Forward].drop_last() =~= Seq::<SubStep>::empty());
}

/// `k` main-loop blocks keep the space discipline and return to coordinate
/// space.
proof fn lemma_blocks_fit(k: nat)
    ensures
        actions_fit_spaces(full_step_blocks(k), false),
        momentum_after(full_step_blocks(k), false) == false,
    decreases k,
{
    if k == 0 {
    } else {
        lemma_blocks_fit((k - 1) as nat);
        lemma_step_block_spaces();
        lemma_fit_add(full_step_blocks((k - 1) as nat), full_step_block(), false);
        lemma_momentum_after_add(full_step_blocks((k - 1) as nat), full_step_block(), false);
    }
}

/// Law: starting from coordinate space, every action of the schedule is
/// issued in the representation it needs — each kinetic phase stands between
/// a forward and an inverse transform, each coordinate-space phase outside
/// such a pair — and the run hands the wave function back in coordinate
/// space.
pub proof fn lemma_schedule_space_discipline(n: nat)
    requires
        1 <= n,
    ensures
        actions_fit_spaces(schedule_spec(n), false),
        momentum_after(schedule_spec(n), false) == false,
{
    let k = (n - 1) as nat;
    let front = warmup_steps() + full_step_blocks(k);
    lemma_warmup_spaces();
    lemma_closing_spaces();
    lemma_blocks_fit(k);
    lemma_fit_add(warmup_steps(), full_step_blocks(k), false);
    lemma_momentum_after_add(warmup_steps(), full_step_blocks(k), false);
    lemma_fit_add(front, closing_steps(), false);
    lemma_momentum_after_add(front, closing_steps(), false);
}

/// Law: the schedule opens with the grid-centering modification followed by
/// the opening half potential step, and closes with the grid-centering undo
/// followed by the final time advance, so the modification brackets the
/// whole run.
pub proof fn lemma_schedule_shape(n: nat)
    requires
        1 <= n,
    ensures
        schedule_spec(n).len() == 5 * n + 3,
        schedule_spec(n)[0] == SubStep::Modify,
        schedule_spec(n)[1] == SubStep::PotentialHalf,
        schedule_spec(n)[schedule_spec(n).len() - 2] == SubStep::Demodify,
        schedule_spec(n)[schedule_spec(n).len() - 1] == SubStep::AdvanceTime,
{
    lemma_blocks_len((n - 1) as nat);
}

} // verus!

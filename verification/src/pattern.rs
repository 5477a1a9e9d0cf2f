//! The scripted wave: a fixed choreography of pairs of fallers that sweeps
//! the playfield from left to right.
use vstd::prelude::*;
use crate::config::{Playfield, Wave, WAVE_SPREAD, wave_columns};
use crate::faller::Faller;

verus! {

/// One step of a pattern, taken in one tick.
#[derive(Debug)]
pub enum Step {
    /// Spawn nothing.
    Wait,
    /// Spawn these fallers, which already stand at their places.
    Spawn(Vec<Faller>),
}

/// What a step is to a contract: its kind, and the fallers it spawns.
pub ghost enum StepView {
    Wait,
    Spawn(Seq<Faller>),
}

impl View for Step {
    type V = StepView;

    open spec fn view(&self) -> StepView {
        match self {
            Step::Wait => StepView::Wait,
            Step::Spawn(fallers) => StepView::Spawn(fallers@),
        }
    }
}

impl StepView {
    /// The fallers that taking this step puts into the game.
    pub open spec fn fallers(self) -> Seq<Faller> {
        match self {
            StepView::Wait => Seq::empty(),
            StepView::Spawn(fallers) => fallers,
        }
    }
}

/// The steps of a wave that are still to be taken. The steps never change;
/// taking one only removes it.
#[derive(Debug)]
pub struct Pattern {
    /// The remaining steps, last one first, so that the next step leaves
    /// from the end.
    steps: Vec<Step>,
}

/// Left edge of the first faller of column `index`.
pub open spec fn column_x(wave: Wave, index: int) -> int {
    index * wave.size / (WAVE_SPREAD as int)
}

/// The two fallers of column `index`: one at the column, its twin `gap` to
/// the right, both just above the playfield.
pub open spec fn column_pair(wave: Wave, index: int) -> Seq<Faller> {
    seq![
        Faller::entering_spec(column_x(wave, index) as i64, wave.size, wave.velocity),
        Faller::entering_spec((column_x(wave, index) + wave.gap) as i64, wave.size, wave.velocity),
    ]
}

/// The whole wave in the order in which it is played: for each column, from
/// the left wall on, a step that spawns its pair and then a step that waits.
pub open spec fn wave_steps(wave: Wave, width: int) -> Seq<StepView> {
    Seq::new(
        (2 * wave_columns(wave, width)) as nat,
        |k: int|
            if k % 2 == 0 {
                StepView::Spawn(column_pair(wave, k / 2))
            } else {
                StepView::Wait
            },
    )
}

/// Every column of the wave starts between the walls: the wave sweeps the
/// width of the playfield and does not leave it.
pub proof fn column_between_walls(wave: Wave, width: int, index: int)
    requires
        0 < wave.size,
        0 < width,
        0 <= index < wave_columns(wave, width),
    ensures
        0 <= index * wave.size <= width * WAVE_SPREAD,
        0 <= column_x(wave, index) <= width,
{
    let size = wave.size as int;
    let span = width * WAVE_SPREAD;
    vstd::arithmetic::div_mod::lemma_fundamental_div_mod(span, size);
    vstd::arithmetic::div_mod::lemma_mod_bound(span, size);
    assert(index * size <= (span / size) * size) by (nonlinear_arith)
        requires
            0 <= index < span / size,
            0 < size,
    ;
    assert(0 <= index * size) by (nonlinear_arith)
        requires
            0 <= index,
            0 < size,
    ;
    assert(size * (span / size) == (span / size) * size) by (nonlinear_arith);
}

fn reversed(steps: Vec<Step>) -> (back: Vec<Step>)
    ensures
        back@.len() == steps@.len(),
        forall|k: int| 0 <= k < back@.len() ==> back@[k] == steps@[steps@.len() - 1 - k],
{
    let ghost all = steps@;
    let mut rest = steps;
    let mut back: Vec<Step> = Vec::new();
    while rest.len() > 0
        invariant
            rest@.len() + back@.len() == all.len(),
            forall|k: int| 0 <= k < rest@.len() ==> rest@[k] == all[k],
            forall|k: int| 0 <= k < back@.len() ==> back@[k] == all[all.len() - 1 - k],
        decreases rest@.len(),
    {
        match rest.pop() {
            Some(step) => back.push(step),
            None => {},
        }
    }
    back
}

impl View for Pattern {
    type V = Seq<StepView>;

    /// The remaining steps, the next one first.
    closed spec fn view(&self) -> Seq<StepView> {
        Seq::new(self.steps@.len(), |k: int| self.steps@[self.steps@.len() - 1 - k]@)
    }
}

impl Pattern {
    /// Builds the wave for a playfield. The result depends on the
    /// parameters alone.
    pub fn generate(wave: Wave, field: Playfield) -> (pattern: Pattern)
        requires
            wave.valid(field),
        ensures
            pattern@ == wave_steps(wave, field.width as int),
    {
        let columns: usize = (field.width as i128 * WAVE_SPREAD as i128 / wave.size as i128) as usize;
        let mut steps: Vec<Step> = Vec::new();
        let mut index: usize = 0;
        while index < columns
            invariant
                wave.valid(field),
                columns == wave_columns(wave, field.width as int),
                index <= columns,
                steps@.len() == 2 * index,
                forall|k: int|
                    0 <= k < steps@.len() ==> (#[trigger] steps@[k])@ == wave_steps(
                        wave,
                        field.width as int,
                    )[k],
            decreases columns - index,
        {
            proof {
                column_between_walls(wave, field.width as int, index as int);
            }
            let x: i64 = (index as i128 * wave.size as i128 / WAVE_SPREAD as i128) as i64;
            let mut pair: Vec<Faller> = Vec::new();
            pair.push(Faller::entering(x, wave.size, wave.velocity));
            pair.push(Faller::entering(x + wave.gap, wave.size, wave.velocity));
            assert(pair@ =~= column_pair(wave, index as int));
            steps.push(Step::Spawn(pair));
            steps.push(Step::Wait);
            index = index + 1;
        }
        let steps = reversed(steps);
        let pattern = Pattern { steps };
        assert(pattern@ =~= wave_steps(wave, field.width as int));
        pattern
    }

    /// Takes the next step out of the pattern, if one is left.
    pub fn next_step(&mut self) -> (step: Option<Step>)
        ensures
            match step {
                Some(taken) => old(self)@.len() > 0 && taken@ == old(self)@[0] && final(self)@
                    == old(self)@.skip(1),
                None => old(self)@.len() == 0 && final(self)@ == old(self)@,
            },
    {
        let step = self.steps.pop();
        assert(step is Some ==> self@ =~= old(self)@.skip(1));
        assert(step is None ==> self@ =~= old(self)@);
        step
    }

    /// Number of steps that are left.
    pub fn remaining(&self) -> (count: usize)
        ensures
            count == self@.len(),
    {
        self.steps.len()
    }
}

/// Two patterns built from the same parameters hold the same steps with the
/// same fallers at the same places, whenever and however often they are
/// built.
pub proof fn generation_is_repeatable(first: Pattern, second: Pattern, wave: Wave, width: int)
    requires
        first@ == wave_steps(wave, width),
        second@ == wave_steps(wave, width),
    ensures
        first@ == second@,
{
}

} // verus!

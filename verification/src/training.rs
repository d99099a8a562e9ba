//! The schedule of online training: which example comes next, what error a
//! prediction carries, and when the run ends.
//!
//! A run makes up to a budget of passes over a fixed list of targets. The
//! caller predicts the example that the run names and reports the class it
//! got; the run answers with the error, which the caller applies to its
//! weights where it is not zero. A pass without a mismatch ends the run as
//! converged. A run whose budget is spent ends as exhausted, which is an
//! outcome and no failure.

use vstd::prelude::*;
use vstd::string::StringExecFns;
use crate::perceptron::{prediction_error, spec_prediction_error, Class};

verus! {

/// The number of passes that the demonstration allows a run.
pub const DEFAULT_MAX_EPOCHS: usize = 100;

/// Where a training run stands.
#[derive(Clone, Copy, Debug, PartialEq, Eq, Structural)]
pub enum RunStatus {
    /// The run waits for the prediction of its next example.
    Running,
    /// The last pass had no mismatch.
    Converged,
    /// The budget of passes is spent and the last pass had a mismatch, or the
    /// budget was zero.
    Exhausted,
}

/// A training run as a mathematical value.
pub struct RunState {
    /// The number of passes that have ended.
    pub epoch: nat,
    /// The position of the next example in the pass under way.
    pub cursor: nat,
    /// While running, the mismatches so far in the pass under way; after the
    /// end, those of the last pass.
    pub mismatches: nat,
    /// Where the run stands.
    pub status: RunStatus,
}

/// What a run answers to one reported prediction.
#[derive(Clone, Copy, Debug, PartialEq, Eq, Structural)]
pub struct Observation {
    /// The position of the example that was predicted.
    pub example: usize,
    /// The target minus the prediction: `0`, `+2` or `-2`.
    pub error: i32,
    /// The mismatches of the pass, where this example was its last.
    pub pass_end: Option<usize>,
}

/// The state a run starts in, over `len` examples with a budget of
/// `max_epochs` passes. Without budget nothing is done. With budget and no
/// example, the one empty pass has no mismatch.
pub open spec fn start(len: nat, max_epochs: nat) -> RunState {
    if max_epochs == 0 {
        RunState { epoch: 0, cursor: 0, mismatches: 0, status: RunStatus::Exhausted }
    } else if len == 0 {
        RunState { epoch: 1, cursor: 0, mismatches: 0, status: RunStatus::Converged }
    } else {
        RunState { epoch: 0, cursor: 0, mismatches: 0, status: RunStatus::Running }
    }
}

/// The mismatches of the pass under way once `prediction` is counted.
pub open spec fn counted(targets: Seq<Class>, s: RunState, prediction: Class) -> nat {
    if spec_prediction_error(targets[s.cursor as int], prediction) != 0 {
        s.mismatches + 1
    } else {
        s.mismatches
    }
}

/// Whether the example under the cursor is the last of its pass.
pub open spec fn ends_pass(targets: Seq<Class>, s: RunState) -> bool {
    s.cursor + 1 == targets.len()
}

/// The state after a running run has been told the prediction of the example
/// under its cursor. A run that has ended stays as it is.
pub open spec fn step(
    targets: Seq<Class>,
    max_epochs: nat,
    s: RunState,
    prediction: Class,
) -> RunState {
    let m = counted(targets, s, prediction);
    if s.status != RunStatus::Running {
        s
    } else if !ends_pass(targets, s) {
        RunState { epoch: s.epoch, cursor: s.cursor + 1, mismatches: m, status: RunStatus::Running }
    } else if m == 0 {
        RunState { epoch: s.epoch + 1, cursor: 0, mismatches: 0, status: RunStatus::Converged }
    } else if s.epoch + 1 == max_epochs {
        RunState { epoch: s.epoch + 1, cursor: 0, mismatches: m, status: RunStatus::Exhausted }
    } else {
        RunState { epoch: s.epoch + 1, cursor: 0, mismatches: 0, status: RunStatus::Running }
    }
}

/// What holds of every state that a run can be in.
pub open spec fn valid(s: RunState, len: nat, max_epochs: nat) -> bool {
    &&& s.epoch <= max_epochs
    &&& s.mismatches <= len
    &&& s.status == RunStatus::Running ==> s.epoch < max_epochs && s.cursor < len && s.mismatches
        <= s.cursor
    &&& s.status == RunStatus::Converged ==> s.epoch >= 1 && s.mismatches == 0 && s.cursor == 0
    &&& s.status == RunStatus::Exhausted ==> s.epoch == max_epochs && s.cursor == 0 && (max_epochs
        == 0 || s.mismatches > 0)
}

/// An upper bound on the predictions that a run may still ask for.
pub open spec fn remaining(s: RunState, len: nat, max_epochs: nat) -> nat {
    if s.status == RunStatus::Running {
        ((max_epochs - s.epoch) * len - s.cursor) as nat
    } else {
        0
    }
}

/// The state after a run has been told `predictions`, one after the other.
pub open spec fn feed(
    targets: Seq<Class>,
    max_epochs: nat,
    s: RunState,
    predictions: Seq<Class>,
) -> RunState
    decreases predictions.len(),
{
    if predictions.len() == 0 {
        s
    } else {
        feed(
            targets,
            max_epochs,
            step(targets, max_epochs, s, predictions[0]),
            predictions.subrange(1, predictions.len() as int),
        )
    }
}

/// Every observation leaves a run in a state that a run can be in.
pub proof fn step_keeps_valid(targets: Seq<Class>, max_epochs: nat, s: RunState, prediction: Class)
    requires
        valid(s, targets.len(), max_epochs),
    ensures
        valid(step(targets, max_epochs, s, prediction), targets.len(), max_epochs),
{
}

/// A run starts in a state that a run can be in, and asks for no more
/// predictions than its budget of passes times the number of examples.
pub proof fn start_is_valid(len: nat, max_epochs: nat)
    ensures
        valid(start(len, max_epochs), len, max_epochs),
        remaining(start(len, max_epochs), len, max_epochs) <= max_epochs * len,
{
}

/// A running run may still ask for at least one prediction.
pub proof fn running_has_remaining(s: RunState, len: nat, max_epochs: nat)
    requires
        valid(s, len, max_epochs),
        s.status == RunStatus::Running,
    ensures
        remaining(s, len, max_epochs) >= len - s.cursor > 0,
        (max_epochs - s.epoch) * len >= len,
{
    let passes = max_epochs - s.epoch;
    assert(passes * len >= len) by (nonlinear_arith)
        requires
            passes >= 1,
            len >= 0,
    ;
}

/// Every observation of a running run lowers the bound on the predictions
/// that it may still ask for: the caller's loop ends.
pub proof fn step_lowers_remaining(
    targets: Seq<Class>,
    max_epochs: nat,
    s: RunState,
    prediction: Class,
)
    requires
        valid(s, targets.len(), max_epochs),
        s.status == RunStatus::Running,
    ensures
        remaining(step(targets, max_epochs, s, prediction), targets.len(), max_epochs) < remaining(
            s,
            targets.len(),
            max_epochs,
        ),
{
    let len = targets.len();
    let next = step(targets, max_epochs, s, prediction);
    running_has_remaining(s, len, max_epochs);
    if next.status == RunStatus::Running && ends_pass(targets, s) {
        step_keeps_valid(targets, max_epochs, s, prediction);
        let passes = max_epochs - s.epoch;
        assert((passes - 1) * len == passes * len - len) by (nonlinear_arith);
    }
}

/// A run that has ended stays as it is, whatever it is told.
pub proof fn ended_run_is_fixed(
    targets: Seq<Class>,
    max_epochs: nat,
    s: RunState,
    predictions: Seq<Class>,
)
    requires
        s.status != RunStatus::Running,
    ensures
        feed(targets, max_epochs, s, predictions) == s,
    decreases predictions.len(),
{
    if predictions.len() > 0 {
        ended_run_is_fixed(
            targets,
            max_epochs,
            s,
            predictions.subrange(1, predictions.len() as int),
        );
    }
}

/// Told as many predictions as it may still ask for, whatever they are, a
/// run has ended, and it has made no more passes than its budget.
pub proof fn run_ends_within_budget(
    targets: Seq<Class>,
    max_epochs: nat,
    s: RunState,
    predictions: Seq<Class>,
)
    requires
        valid(s, targets.len(), max_epochs),
        predictions.len() >= remaining(s, targets.len(), max_epochs),
    ensures
        feed(targets, max_epochs, s, predictions).status != RunStatus::Running,
        feed(targets, max_epochs, s, predictions).epoch <= max_epochs,
        valid(feed(targets, max_epochs, s, predictions), targets.len(), max_epochs),
    decreases predictions.len(),
{
    if s.status != RunStatus::Running {
        ended_run_is_fixed(targets, max_epochs, s, predictions);
    } else {
        running_has_remaining(s, targets.len(), max_epochs);
        step_keeps_valid(targets, max_epochs, s, predictions[0]);
        step_lowers_remaining(targets, max_epochs, s, predictions[0]);
        run_ends_within_budget(
            targets,
            max_epochs,
            step(targets, max_epochs, s, predictions[0]),
            predictions.subrange(1, predictions.len() as int),
        );
    }
}

/// From any point of a pass that has had no mismatch so far, predictions
/// that equal their targets to the end of the pass end the run as converged,
/// whatever budget is left.
pub proof fn clean_pass_converges(targets: Seq<Class>, max_epochs: nat, s: RunState)
    requires
        valid(s, targets.len(), max_epochs),
        s.status == RunStatus::Running,
        s.mismatches == 0,
    ensures
        feed(
            targets,
            max_epochs,
            s,
            targets.subrange(s.cursor as int, targets.len() as int),
        ) == (RunState {
            epoch: s.epoch + 1,
            cursor: 0,
            mismatches: 0,
            status: RunStatus::Converged,
        }),
    decreases targets.len() - s.cursor,
{
    let len = targets.len() as int;
    let rest = targets.subrange(s.cursor as int, len);
    let next = step(targets, max_epochs, s, rest[0]);
    let tail = rest.subrange(1, rest.len() as int);
    assert(rest[0] == targets[s.cursor as int]);
    if ends_pass(targets, s) {
        assert(tail.len() == 0);
        assert(feed(targets, max_epochs, next, tail) == next);
    } else {
        assert(tail =~= targets.subrange(next.cursor as int, len));
        clean_pass_converges(targets, max_epochs, next);
    }
}

/// A pass ends the run as converged exactly where it had no mismatch: once
/// its last example is told, the run is converged if the count is zero, and
/// otherwise goes on or is exhausted.
pub proof fn pass_end_decides(targets: Seq<Class>, max_epochs: nat, s: RunState, prediction: Class)
    requires
        valid(s, targets.len(), max_epochs),
        s.status == RunStatus::Running,
        ends_pass(targets, s),
    ensures
        step(targets, max_epochs, s, prediction).status == RunStatus::Converged <==> counted(
            targets,
            s,
            prediction,
        ) == 0,
        step(targets, max_epochs, s, prediction).status == RunStatus::Exhausted <==> (counted(
            targets,
            s,
            prediction,
        ) > 0 && s.epoch + 1 == max_epochs),
        step(targets, max_epochs, s, prediction).epoch == s.epoch + 1,
{
}

/// A training run over a fixed list of targets.
pub struct TrainingRun {
    targets: Vec<Class>,
    max_epochs: usize,
    epoch: usize,
    cursor: usize,
    mismatches: usize,
    status: RunStatus,
}

impl View for TrainingRun {
    type V = RunState;

    closed spec fn view(&self) -> RunState {
        RunState {
            epoch: self.epoch as nat,
            cursor: self.cursor as nat,
            mismatches: self.mismatches as nat,
            status: self.status,
        }
    }
}

impl TrainingRun {
    /// The targets of the examples, in the order of a pass.
    pub closed spec fn targets(&self) -> Seq<Class> {
        self.targets@
    }

    /// The budget of passes.
    pub closed spec fn budget(&self) -> nat {
        self.max_epochs as nat
    }

    /// The run's state is one that a run can be in.
    pub open spec fn wf(&self) -> bool {
        valid(self@, self.targets().len(), self.budget())
    }

    /// Starts a run over `targets` with a budget of `max_epochs` passes.
    pub fn new(targets: Vec<Class>, max_epochs: usize) -> (run: TrainingRun)
        ensures
            run.wf(),
            run.targets() == targets@,
            run.budget() == max_epochs,
            run@ == start(targets@.len(), max_epochs as nat),
    {
        let len = targets.len();
        if max_epochs == 0 {
            TrainingRun {
                targets,
                max_epochs,
                epoch: 0,
                cursor: 0,
                mismatches: 0,
                status: RunStatus::Exhausted,
            }
        } else if len == 0 {
            TrainingRun {
                targets,
                max_epochs,
                epoch: 1,
                cursor: 0,
                mismatches: 0,
                status: RunStatus::Converged,
            }
        } else {
            TrainingRun {
                targets,
                max_epochs,
                epoch: 0,
                cursor: 0,
                mismatches: 0,
                status: RunStatus::Running,
            }
        }
    }

    /// Where the run stands.
    pub fn status(&self) -> (s: RunStatus)
        ensures
            s == self@.status,
    {
        self.status
    }

    /// The number of passes that have ended.
    pub fn epochs_run(&self) -> (n: usize)
        ensures
            n == self@.epoch,
    {
        self.epoch
    }

    /// While running, the mismatches so far in the pass under way; after the
    /// end, those of the last pass.
    pub fn mismatches(&self) -> (n: usize)
        ensures
            n == self@.mismatches,
    {
        self.mismatches
    }

    /// The position of the example to predict next, while the run is
    /// running.
    pub fn next_example(&self) -> (next: Option<usize>)
        requires
            self.wf(),
        ensures
            self@.status == RunStatus::Running ==> next == Some(self@.cursor as usize)
                && self@.cursor < self.targets().len(),
            self@.status != RunStatus::Running ==> next.is_none(),
    {
        match self.status {
            RunStatus::Running => Some(self.cursor),
            _ => None,
        }
    }

    /// Tells the run the class predicted for the example under its cursor.
    ///
    /// A running run answers with the error of the prediction and moves on:
    /// to the next example, to the next pass, or to its end. A run that has
    /// ended answers nothing and stays as it is.
    pub fn observe(&mut self, prediction: Class) -> (seen: Option<Observation>)
        requires
            old(self).wf(),
        ensures
            final(self).wf(),
            final(self).targets() == old(self).targets(),
            final(self).budget() == old(self).budget(),
            final(self)@ == step(old(self).targets(), old(self).budget(), old(self)@, prediction),
            old(self)@.status != RunStatus::Running ==> seen.is_none(),
            old(self)@.status == RunStatus::Running ==> seen == Some(
                Observation {
                    example: old(self)@.cursor as usize,
                    error: spec_prediction_error(
                        old(self).targets()[old(self)@.cursor as int],
                        prediction,
                    ) as i32,
                    pass_end: if ends_pass(old(self).targets(), old(self)@) {
                        Some(counted(old(self).targets(), old(self)@, prediction) as usize)
                    } else {
                        None
                    },
                },
            ),
    {
        match self.status {
            RunStatus::Running => {},
            _ => {
                return None;
            },
        }
        let len: usize = self.targets.len();
        let example: usize = self.cursor;
        let err: i32 = prediction_error(self.targets[example], prediction);
        let count: usize = if err != 0 {
            self.mismatches + 1
        } else {
            self.mismatches
        };
        if example + 1 < len {
            self.cursor = example + 1;
            self.mismatches = count;
            return Some(Observation { example, error: err, pass_end: None });
        }
        self.epoch = self.epoch + 1;
        self.cursor = 0;
        if count == 0 {
            self.mismatches = 0;
            self.status = RunStatus::Converged;
        } else if self.epoch == self.max_epochs {
            self.mismatches = count;
            self.status = RunStatus::Exhausted;
        } else {
            self.mismatches = 0;
        }
        Some(Observation { example, error: err, pass_end: Some(count) })
    }
}


/// One row of the demonstration's dataset: two inputs that are each zero or
/// one, and the class that they are to be given.
#[derive(Clone, Copy, Debug, PartialEq, Eq, Structural)]
pub struct TruthRow {
    /// Whether the first input is one.
    pub first: bool,
    /// Whether the second input is one.
    pub second: bool,
    /// The class to learn for these inputs.
    pub target: Class,
}

/// The demonstration's four rows, in the order of a pass: the inputs count
/// up from `(0, 0)` to `(1, 1)`, and the target is positive exactly where
/// the two inputs are equal.
pub open spec fn spec_demonstration_rows() -> Seq<TruthRow> {
    seq![
        TruthRow { first: false, second: false, target: Class::Positive },
        TruthRow { first: false, second: true, target: Class::Negative },
        TruthRow { first: true, second: false, target: Class::Negative },
        TruthRow { first: true, second: true, target: Class::Positive },
    ]
}

/// The demonstration's dataset.
pub fn demonstration_rows() -> (rows: Vec<TruthRow>)
    ensures
        rows@ == spec_demonstration_rows(),
{
    let mut rows: Vec<TruthRow> = Vec::new();
    rows.push(TruthRow { first: false, second: false, target: Class::Positive });
    rows.push(TruthRow { first: false, second: true, target: Class::Negative });
    rows.push(TruthRow { first: true, second: false, target: Class::Negative });
    rows.push(TruthRow { first: true, second: true, target: Class::Positive });
    assert(rows@ =~= spec_demonstration_rows());
    rows
}

/// The targets of `rows`, in order.
pub fn targets_of(rows: &Vec<TruthRow>) -> (targets: Vec<Class>)
    ensures
        targets@.len() == rows@.len(),
        forall|i: int| 0 <= i < rows@.len() ==> #[trigger] targets@[i] == rows@[i].target,
{
    let mut targets: Vec<Class> = Vec::new();
    let mut i: usize = 0;
    while i < rows.len()
        invariant
            i <= rows@.len(),
            targets@.len() == i,
            forall|j: int| 0 <= j < i ==> #[trigger] targets@[j] == rows@[j].target,
        decreases rows@.len() - i,
    {
        targets.push(rows[i].target);
        i = i + 1;
    }
    targets
}

/// In the demonstration's dataset the target is positive exactly where the
/// two inputs are equal.
pub proof fn demonstration_rows_mark_equal_inputs(i: int)
    requires
        0 <= i < spec_demonstration_rows().len(),
    ensures
        spec_demonstration_rows().len() == 4,
        spec_demonstration_rows()[i].target == Class::Positive <==> spec_demonstration_rows()[i].first
            == spec_demonstration_rows()[i].second,
{
}

/// A class as the report writes it: `1` or `-1`.
pub open spec fn class_text(class: Class) -> Seq<char> {
    match class {
        Class::Positive => "1"@,
        Class::Negative => "-1"@,
    }
}

/// The line of the diagnostic report for one example: the text of its
/// inputs, then the class predicted for them.
pub open spec fn spec_report_line(input: Seq<char>, prediction: Class) -> Seq<char> {
    "Input: "@ + input + " => Prediction: "@ + class_text(prediction)
}

/// Writes the line of the diagnostic report for an example whose inputs read
/// `input` and whose predicted class is `prediction`.
pub fn report_line(input: &str, prediction: Class) -> (line: String)
    ensures
        line@ == spec_report_line(input@, prediction),
{
    let mut line = String::new();
    line.append("Input: ");
    line.append(input);
    line.append(" => Prediction: ");
    match prediction {
        Class::Positive => line.append("1"),
        Class::Negative => line.append("-1"),
    }
    assert(line@ =~= spec_report_line(input@, prediction));
    line
}

} // verus!

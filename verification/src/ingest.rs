//! The ingestion loop's decision logic.
//!
//! The loop itself lives with the I/O: it blocks on the serial stream,
//! drives the external telegram decoder, and performs network writes.
//! Every decision it takes is fixed here, over plain values: which metric
//! lines one decoded readout yields, and that a decode failure stops
//! ingestion — fail-fast is the policy chosen here, deliberately, rather
//! than skipping the bad telegram. A failed metric write never stops the
//! loop; the loop merely reports it and goes on.

use vstd::prelude::*;
use crate::format::{
    format_gas_reading, format_power_reading, gas_ready, power_ready, spec_gas_line,
    spec_power_line,
};
use crate::readout::ReadoutState;

verus! {

/// One element of the decoder's output sequence: a decoded readout, or a
/// framing/decode failure.
#[derive(Debug)]
pub enum DecodeOutcome {
    Decoded(ReadoutState),
    Failed,
}

/// The action the ingestion loop takes on one decode outcome.
#[derive(Debug)]
pub enum StepAction {
    /// Write these lines, in order, then continue with the next telegram.
    Emit(Vec<String>),
    /// Stop ingesting: the telegram could not be decoded.
    Stop,
}

/// The metric lines one readout yields: the power line if its family is
/// complete, then the gas line if its family is complete.
pub open spec fn spec_plan(s: ReadoutState, loc: Seq<char>) -> Seq<Seq<char>> {
    if power_ready(s) && gas_ready(s) {
        seq![spec_power_line(s, loc), spec_gas_line(s, loc)]
    } else if power_ready(s) {
        seq![spec_power_line(s, loc)]
    } else if gas_ready(s) {
        seq![spec_gas_line(s, loc)]
    } else {
        Seq::empty()
    }
}

/// Collect the metric lines of one readout, power family first.
pub fn plan_writes(state: &ReadoutState, location: &str) -> (r: Vec<String>)
    ensures
        r.deep_view() == spec_plan(*state, location@),
{
    let mut r: Vec<String> = Vec::new();
    if let Some(power_line) = format_power_reading(state, location) {
        r.push(power_line);
    }
    if let Some(gas_line) = format_gas_reading(state, location) {
        r.push(gas_line);
    }
    proof {
        assert(r.deep_view() =~= spec_plan(*state, location@));
    }
    r
}

/// One decision of the ingestion loop.
///
/// A decoded readout yields the lines to write; a decode failure stops
/// the loop.
pub fn ingest_step(outcome: &DecodeOutcome, location: &str) -> (a: StepAction)
    ensures
        outcome is Decoded ==> a is Emit && a->Emit_0.deep_view() == spec_plan(
            outcome->Decoded_0,
            location@,
        ),
        outcome is Failed ==> a is Stop,
{
    match outcome {
        DecodeOutcome::Decoded(state) => StepAction::Emit(plan_writes(state, location)),
        DecodeOutcome::Failed => StepAction::Stop,
    }
}

/// What ingestion of a finite stream prefix produced.
#[derive(Debug)]
pub struct IngestReport {
    /// Every metric line emitted, in emission order.
    pub lines: Vec<String>,
    /// How many outcomes were consumed as decoded readouts.
    pub processed: usize,
    /// Whether ingestion stopped on a decode failure.
    pub decode_failed: bool,
}

/// The lines of the first `n` outcomes, all of them decoded readouts.
pub open spec fn spec_lines_upto(outs: Seq<DecodeOutcome>, n: int, loc: Seq<char>) -> Seq<
    Seq<char>,
>
    decreases n,
{
    if n <= 0 {
        Seq::empty()
    } else {
        spec_lines_upto(outs, n - 1, loc) + spec_plan(outs[n - 1]->Decoded_0, loc)
    }
}

/// Run the ingestion policy over a finite sequence of decode outcomes.
///
/// Law: ingestion consumes decoded readouts in order, emitting each one's
/// lines, and stops at the first decode failure, leaving every later
/// outcome untouched; when no outcome fails, the whole sequence is
/// consumed.
pub fn run_ingestion(outcomes: &Vec<DecodeOutcome>, location: &str) -> (r: IngestReport)
    ensures
        r.processed <= outcomes@.len(),
        forall|i: int| 0 <= i < r.processed ==> outcomes@[i] is Decoded,
        r.decode_failed ==> r.processed < outcomes@.len() && outcomes@[
            r.processed as int
        ] is Failed,
        !r.decode_failed ==> r.processed == outcomes@.len(),
        r.lines.deep_view() == spec_lines_upto(outcomes@, r.processed as int, location@),
{
    let mut lines: Vec<String> = Vec::new();
    let mut i: usize = 0;
    let mut failed: bool = false;
    while i < outcomes.len() && !failed
        invariant
            i <= outcomes@.len(),
            forall|j: int| 0 <= j < i ==> outcomes@[j] is Decoded || (failed && j == i - 1),
            failed ==> i >= 1 && outcomes@[i - 1] is Failed,
            lines.deep_view() == spec_lines_upto(
                outcomes@,
                if failed { i - 1 } else { i as int },
                location@,
            ),
        decreases outcomes@.len() - i,
    {
        match ingest_step(&outcomes[i], location) {
            StepAction::Emit(mut new_lines) => {
                let ghost old_lines = lines.deep_view();
                let ghost new_dv = new_lines.deep_view();
                lines.append(&mut new_lines);
                proof {
                    assert(lines.deep_view() =~= old_lines + new_dv);
                }
            },
            StepAction::Stop => {
                failed = true;
            },
        }
        i = i + 1;
    }
    let processed: usize = if failed {
        i - 1
    } else {
        i
    };
    IngestReport { lines, processed, decode_failed: failed }
}

} // verus!

//! The dispatcher: one call of the processor, and the report of its outcome.
//!
//! The dispatcher decides nothing about an instruction. It hands the
//! invocation to the processor as the host gave it, calls the processor once,
//! and turns the processor's outcome into a [`Report`]: the outcome itself
//! and, for a failure, one line that describes the error. Emitting the line
//! on the host's log is left to the caller.

use solana_program::account_info::AccountInfo;
use solana_program::pubkey::Pubkey;
use vstd::prelude::*;

verus! {

/// An error that can say in words what kind of failure it is.
///
/// The processor's error type implements this; the dispatcher reads nothing
/// else of an error.
pub trait Printable {
    /// The line that describes this error to a reader of the host's log.
    fn printable(&self) -> String;
}

/// What the host is owed for one invocation.
pub struct Report<E> {
    /// The outcome to return to the host.
    pub result: Result<(), E>,
    /// The lines to emit on the host's diagnostic channel, in order.
    pub diagnostics: Vec<String>,
}

impl<E: Printable> Report<E> {
    /// Whether this is the report that `outcome` calls for: the outcome as
    /// it is, with no line beside a success, and beside a failure one line,
    /// which is what the error prints as.
    pub open spec fn reports(self, outcome: Result<(), E>) -> bool {
        &&& self.result == outcome
        &&& outcome is Ok ==> self.diagnostics@.len() == 0
        &&& outcome matches Err(error) ==> {
            &&& self.diagnostics@.len() == 1
            &&& call_ensures(E::printable, (&error,), self.diagnostics@[0])
        }
    }

    /// Reports an outcome of the processor: the outcome is kept as it is, and
    /// an error is asked once for its line.
    pub fn from_outcome(outcome: Result<(), E>) -> (report: Self)
        ensures
            report.reports(outcome),
    {
        let mut diagnostics: Vec<String> = Vec::new();
        if let Err(error) = &outcome {
            diagnostics.push(error.printable());
        }
        Report { result: outcome, diagnostics }
    }
}

/// Dispatches one invocation to `process` and reports its outcome.
///
/// `process` is called once, with the program's identity, the accounts and
/// the instruction's bytes exactly as they were given; nothing is checked
/// beforehand, so an empty instruction reaches it like any other. What
/// `process` returns is what the report returns to the host. A success adds no
/// diagnostic line; a failure adds one, the error's own.
pub fn process_instruction<E, P>(
    program_id: &Pubkey,
    accounts: &[AccountInfo],
    instruction_data: &[u8],
    process: P,
) -> (report: Report<E>) where
    E: Printable,
    P: FnOnce(&Pubkey, &[AccountInfo], &[u8]) -> Result<(), E>,

    requires
        process.requires((program_id, accounts, instruction_data)),
    ensures
        process.ensures((program_id, accounts, instruction_data), report.result),
        report.result is Ok ==> report.diagnostics@.len() == 0,
        report.result matches Err(error) ==> {
            &&& report.diagnostics@.len() == 1
            &&& call_ensures(E::printable, (&error,), report.diagnostics@[0])
        },
{
    let outcome = process(program_id, accounts, instruction_data);
    Report::from_outcome(outcome)
}

/// Reporting adds nothing of its own: two reports of one outcome return the
/// same result with equally many lines, and where an error prints in one way
/// only, the lines read the same.
pub proof fn lemma_reports_agree<E: Printable>(
    first: Report<E>,
    second: Report<E>,
    outcome: Result<(), E>,
)
    requires
        first.reports(outcome),
        second.reports(outcome),
    ensures
        first.result == second.result,
        first.diagnostics@.len() == second.diagnostics@.len(),
        prints_one_way::<E>() ==> forall|i: int|
            0 <= i < first.diagnostics@.len() ==> first.diagnostics@[i]@ == second.diagnostics@[i]@,
{
    if prints_one_way::<E>() {
        assert forall|i: int| 0 <= i < first.diagnostics@.len() implies first.diagnostics@[i]@
            == second.diagnostics@[i]@ by {
            let error = outcome->Err_0;
            assert(call_ensures(E::printable, (&error,), first.diagnostics@[0]));
            assert(call_ensures(E::printable, (&error,), second.diagnostics@[0]));
        }
    }
}

/// Whether errors of type `E` print in one way only: any two lines that
/// `printable` can return for one error read the same.
pub open spec fn prints_one_way<E: Printable>() -> bool {
    forall|error: E, one: String, other: String|
        #![trigger call_ensures(E::printable, (&error,), one), call_ensures(E::printable, (&error,), other)]
        call_ensures(E::printable, (&error,), one) && call_ensures(
            E::printable,
            (&error,),
            other,
        ) ==> one@ == other@
}

} // verus!

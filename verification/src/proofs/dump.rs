//! What holds of every dump.

use crate::action::OutcomeView;
use crate::config::ConfigView;
use crate::dump::DumpView;
use crate::machine::{effects, lemma_quiet_run, trace, Durable, StepView};
use vstd::prelude::*;

verus! {

/// The pending action of a dump is to collect or to write to standard
/// output.
pub open spec fn dumping(step: StepView<DumpView>) -> bool {
    match step {
        StepView::Continue { action, .. } => action is Collect || action is WriteStdout,
        StepView::Done { .. } => true,
    }
}

/// A dump changes neither the trust store nor the legacy marker, whatever
/// it is answered.
pub proof fn lemma_dump_writes_nothing(
    config: ConfigView,
    outcomes: Seq<OutcomeView>,
    before: Durable,
)
    ensures
        effects(before, trace(DumpView::start(config), outcomes)) == before,
{
    lemma_quiet_run(
        DumpView::start(config),
        outcomes,
        before,
        |step: StepView<DumpView>| dumping(step),
    );
}

} // verus!

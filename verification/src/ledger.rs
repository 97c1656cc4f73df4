use vstd::prelude::*;
use crate::chain::ChainRequest;
use crate::pass::{ActionView, Outcome, PassStage, RenderPass};
use crate::window::TrackedWindow;

verus! {

/// What a render pass has asked for so far, and where it stands.
pub struct Ledger {
    pub windows: Map<u32, TrackedWindow>,
    pub stage: PassStage,
    /// Allocations of shareable memory asked for.
    pub allocations: nat,
    /// Imports of shareable memory asked for.
    pub imports: nat,
    /// Teardowns of a whole chain asked for.
    pub teardowns: nat,
    /// Refreshes that ended with a new chain.
    pub refreshes: nat,
    /// Whether the pass ran to its end without an error.
    pub finished: bool,
}

pub open spec fn one_if(condition: bool) -> nat {
    if condition {
        1
    } else {
        0
    }
}

pub open spec fn asks_allocation(action: ActionView) -> bool {
    action matches ActionView::Chain(ChainRequest::AllocateExportable { .. })
}

pub open spec fn asks_import(action: ActionView) -> bool {
    action matches ActionView::Chain(ChainRequest::ImportShared { .. })
}

/// The ledger of a pass that has taken the given outcomes in turn.
pub open spec fn ledger_of(
    pass: RenderPass,
    windows: Map<u32, TrackedWindow>,
    outcomes: Seq<Outcome>,
) -> Ledger
    decreases outcomes.len(),
{
    if outcomes.len() == 0 {
        Ledger {
            windows,
            stage: pass.stage,
            allocations: 0,
            imports: 0,
            teardowns: 0,
            refreshes: 0,
            finished: false,
        }
    } else {
        let before = ledger_of(pass, windows, outcomes.drop_last());
        let step = (RenderPass { window: pass.window, stage: before.stage }).next(
            before.windows,
            outcomes.last(),
        );
        Ledger {
            windows: step.windows,
            stage: step.stage,
            allocations: before.allocations + one_if(asks_allocation(step.action)),
            imports: before.imports + one_if(asks_import(step.action)),
            teardowns: before.teardowns + one_if(step.action is Teardown),
            refreshes: before.refreshes + one_if(
                step.stage == (PassStage::Copying { refreshed: true }),
            ),
            finished: before.finished || step.action is Finished,
        }
    }
}

/// What holds of a ledger at every step of a pass that began on a window
/// with `held` chains.
pub open spec fn balanced(window: u32, held: nat, ledger: Ledger) -> bool {
    let live = if ledger.windows.contains_key(window) && ledger.windows[window].textures is Some {
        1nat
    } else {
        0nat
    };
    &&& ledger.allocations <= 1
    &&& ledger.imports <= ledger.allocations
    &&& ledger.refreshes <= ledger.imports
    &&& ledger.teardowns <= held
    &&& ledger.allocations == 1 ==> ledger.teardowns == held
    &&& ledger.finished ==> ledger.refreshes == ledger.allocations && ledger.stage is Closed
    &&& match ledger.stage {
        PassStage::Acknowledging => ledger.allocations == 0 && ledger.teardowns == 0 && live
            == held,
        PassStage::Measuring => ledger.allocations == 0 && ledger.teardowns == 0 && live == held,
        PassStage::Releasing { builder } => {
            &&& ledger.allocations == 0
            &&& ledger.teardowns == 1
            &&& held == 1
            &&& live == 0
            &&& builder.stage is NeedSurface
        },
        PassStage::Building { builder } => {
            &&& ledger.refreshes == 0
            &&& ledger.teardowns == held
            &&& live == 0
            &&& ledger.allocations == one_if(
                builder.stage is NeedRemote || builder.stage is NeedImport,
            )
            &&& ledger.imports == one_if(builder.stage is NeedImport)
        },
        PassStage::Copying { refreshed } => {
            &&& ledger.refreshes == one_if(refreshed)
            &&& ledger.allocations == one_if(refreshed)
            &&& live == 1
            &&& !refreshed ==> ledger.teardowns == 0 && held == 1
        },
        PassStage::Submitting => ledger.refreshes == ledger.allocations && live == 1,
        PassStage::Closed => true,
    }
}

/// Over any course of a render pass, whatever the outcomes handed to it:
/// shareable memory is allocated at most once and imported only after it
/// was allocated; a refresh ends with a new chain only after that import;
/// the window's old chain is torn down at most once, never when the window
/// has none, and always before an allocation is asked for. A pass that runs
/// to its end has allocated exactly as often as its refresh brought a new
/// chain.
pub proof fn lemma_pass_is_balanced(
    pass: RenderPass,
    windows: Map<u32, TrackedWindow>,
    outcomes: Seq<Outcome>,
)
    requires
        pass.stage is Acknowledging || pass.stage is Measuring,
        windows.contains_key(pass.window),
    ensures
        balanced(
            pass.window,
            one_if(windows[pass.window].textures is Some),
            ledger_of(pass, windows, outcomes),
        ),
    decreases outcomes.len(),
{
    if outcomes.len() > 0 {
        lemma_pass_is_balanced(pass, windows, outcomes.drop_last());
    }
}

/// A pass that runs to its end on a window at the size of its chain asks
/// for no allocation, no import and no teardown.
pub proof fn lemma_unchanged_pass_asks_nothing(
    pass: RenderPass,
    windows: Map<u32, TrackedWindow>,
    outcomes: Seq<Outcome>,
)
    requires
        pass.stage is Acknowledging || pass.stage is Measuring,
        windows.contains_key(pass.window),
        ledger_of(pass, windows, outcomes).finished,
        ledger_of(pass, windows, outcomes).refreshes == 0,
    ensures
        ledger_of(pass, windows, outcomes).allocations == 0,
        ledger_of(pass, windows, outcomes).imports == 0,
{
    lemma_pass_is_balanced(pass, windows, outcomes);
}

} // verus!

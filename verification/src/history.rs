use vstd::prelude::*;
use crate::chain::ChainBuilder;
use crate::texture::TextureSet;
use crate::window::{RefreshPlan, TrackedWindow};

verus! {

/// One damage event as a refresh sees it: the size at which the window is
/// reported, and the chain that is built for it if the refresh builds one.
pub struct Frame {
    pub width: u16,
    pub height: u16,
    pub built: TextureSet,
}

impl Frame {
    /// The chain that comes with the frame has the frame's size.
    pub open spec fn wf(self) -> bool {
        self.built.wf() && self.built.sized(self.width as int, self.height as int)
    }
}

/// The window after one whole refresh for `frame`.
pub open spec fn refreshed(window: TrackedWindow, frame: Frame) -> TrackedWindow {
    let begun = window.begun(frame.width, frame.height);
    if window.plan(frame.width, frame.height) is Build {
        TrackedWindow { textures: Some(frame.built), ..begun }
    } else {
        begun
    }
}

/// The window after a refresh for each of `frames` in turn.
pub open spec fn replayed(window: TrackedWindow, frames: Seq<Frame>) -> TrackedWindow
    decreases frames.len(),
{
    if frames.len() == 0 {
        window
    } else {
        refreshed(replayed(window, frames.drop_last()), frames.last())
    }
}

/// The plan of the last refresh of a non-empty history.
pub open spec fn last_plan(window: TrackedWindow, frames: Seq<Frame>) -> RefreshPlan
    recommends
        frames.len() > 0,
{
    replayed(window, frames.drop_last()).plan(frames.last().width, frames.last().height)
}

/// How many chains were allocated over the history.
pub open spec fn allocations(window: TrackedWindow, frames: Seq<Frame>) -> nat
    decreases frames.len(),
{
    if frames.len() == 0 {
        0
    } else {
        allocations(window, frames.drop_last()) + if last_plan(window, frames) is Build {
            1nat
        } else {
            0nat
        }
    }
}

/// How many chains were torn down over the history.
pub open spec fn teardowns(window: TrackedWindow, frames: Seq<Frame>) -> nat
    decreases frames.len(),
{
    if frames.len() == 0 {
        0
    } else {
        teardowns(window, frames.drop_last()) + if last_plan(window, frames).tears_down() {
            1nat
        } else {
            0nat
        }
    }
}

/// How many refreshes of the history reported a new chain.
pub open spec fn refreshes_reported(window: TrackedWindow, frames: Seq<Frame>) -> nat
    decreases frames.len(),
{
    if frames.len() == 0 {
        0
    } else {
        refreshes_reported(window, frames.drop_last()) + if last_plan(window, frames).refreshed() {
            1nat
        } else {
            0nat
        }
    }
}

/// The number of chains that a window holds: one or none.
pub open spec fn live(window: TrackedWindow) -> nat {
    if window.textures is Some {
        1
    } else {
        0
    }
}

/// A refresh keeps a window sound.
pub proof fn lemma_refresh_keeps_wf(window: TrackedWindow, frame: Frame)
    requires
        window.wf(),
        frame.wf(),
    ensures
        refreshed(window, frame).wf(),
        refreshed(window, frame).textures is Some,
        refreshed(window, frame).captured_at(frame.width, frame.height),
        refreshed(window, frame).id == window.id,
        refreshed(window, frame).scene == window.scene,
        refreshed(window, frame).damage == window.damage,
{
}

/// Over any history of damage events on a window, as many chains are
/// allocated as refreshes report a new chain, and the chains torn down are
/// those allocated or held at the start, less the one that is still live:
/// each chain is released once, before the next is allocated, and a
/// chain that was released is not released again.
pub proof fn lemma_allocations_balance(window: TrackedWindow, frames: Seq<Frame>)
    requires
        window.wf(),
        forall|i: int| 0 <= i < frames.len() ==> (#[trigger] frames[i]).wf(),
    ensures
        replayed(window, frames).wf(),
        allocations(window, frames) == refreshes_reported(window, frames),
        teardowns(window, frames) + live(replayed(window, frames)) == allocations(window, frames)
            + live(window),
        replayed(window, frames).id == window.id,
        replayed(window, frames).scene == window.scene,
    decreases frames.len(),
{
    if frames.len() > 0 {
        let before = frames.drop_last();
        assert forall|i: int| 0 <= i < before.len() implies (#[trigger] before[i]).wf() by {
            assert(before[i] == frames[i]);
        }
        lemma_allocations_balance(window, before);
        lemma_refresh_keeps_wf(replayed(window, before), frames.last());
    }
}

/// Every teardown of a history releases the very chain that the window held
/// when the refresh began, and a refresh that finds a chain of another size
/// always tears it down before it builds.
pub proof fn lemma_teardown_releases_held_chain(window: TrackedWindow, frames: Seq<Frame>)
    requires
        frames.len() > 0,
    ensures
        ({
            let held = replayed(window, frames.drop_last()).textures;
            match last_plan(window, frames) {
                RefreshPlan::Reuse => held is Some && replayed(window, frames).textures == held,
                RefreshPlan::Build { teardown, builder } => teardown == held && builder
                    == ChainBuilder::fresh(window.id, frames.last().width, frames.last().height)
                    && replayed(window, frames).textures == Some(frames.last().built),
            }
        }),
{
    lemma_identity_is_kept(window, frames.drop_last());
}

/// A window keeps its handles through every refresh.
pub proof fn lemma_identity_is_kept(window: TrackedWindow, frames: Seq<Frame>)
    ensures
        replayed(window, frames).id == window.id,
        replayed(window, frames).scene == window.scene,
        replayed(window, frames).damage == window.damage,
    decreases frames.len(),
{
    if frames.len() > 0 {
        lemma_identity_is_kept(window, frames.drop_last());
    }
}

/// A refresh that finds the window at the size of its last capture builds
/// nothing and leaves the chain as it is: two refreshes in a row at one
/// size allocate at most once.
pub proof fn lemma_unchanged_geometry_reuses(window: TrackedWindow, first: Frame, second: Frame)
    requires
        window.wf(),
        first.wf(),
        first.width == second.width,
        first.height == second.height,
    ensures
        refreshed(window, first).plan(second.width, second.height) == RefreshPlan::Reuse,
        refreshed(refreshed(window, first), second) == refreshed(window, first),
        allocations(refreshed(window, first), seq![second]) == 0,
        teardowns(refreshed(window, first), seq![second]) == 0,
{
    let w = refreshed(window, first);
    let frames = seq![second];
    assert(frames.drop_last() =~= Seq::<Frame>::empty());
    assert(frames.last() == second);
    assert(replayed(w, frames.drop_last()) == w);
    assert(allocations(w, frames.drop_last()) == 0);
    assert(teardowns(w, frames.drop_last()) == 0);
}

/// A refresh that finds the window at another size than that of its chain
/// tears that chain down once and builds one chain of the new size: after
/// it every member of the window's chain has the new size.
pub proof fn lemma_resize_rebuilds(window: TrackedWindow, frame: Frame)
    requires
        window.wf(),
        window.textures is Some,
        !window.captured_at(frame.width, frame.height),
        frame.wf(),
    ensures
        window.plan(frame.width, frame.height) == (RefreshPlan::Build {
            teardown: window.textures,
            builder: ChainBuilder::fresh(window.id, frame.width, frame.height),
        }),
        allocations(window, seq![frame]) == 1,
        teardowns(window, seq![frame]) == 1,
        refreshed(window, frame).textures == Some(frame.built),
        refreshed(window, frame).textures->0.sized(frame.width as int, frame.height as int),
{
    let frames = seq![frame];
    assert(frames.drop_last() =~= Seq::<Frame>::empty());
    assert(frames.last() == frame);
    assert(replayed(window, frames.drop_last()) == window);
    assert(allocations(window, frames.drop_last()) == 0);
    assert(teardowns(window, frames.drop_last()) == 0);
}

} // verus!

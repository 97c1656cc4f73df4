use vstd::prelude::*;
use crate::chain::{ChainBuilder, ChainProgress, ChainReply, ChainRequest, ProgressView};
use crate::error::BridgeError;
use crate::geometry::Geometry;
use crate::registry::WindowRegistry;
use crate::texture::{Release, Texture, TextureSet, TextureState};
use crate::window::{RefreshPlan, Submission, TrackedWindow};

verus! {

/// Where a render pass stands: what it has asked for and waits on.
#[derive(Clone, Copy, Debug, PartialEq, Eq, Structural)]
pub enum PassStage {
    /// The damage is being acknowledged.
    Acknowledging,
    /// The window's geometry is being asked for.
    Measuring,
    /// The old chain is being released; `builder` will build the new one.
    Releasing { builder: ChainBuilder },
    /// A chain is being built.
    Building { builder: ChainBuilder },
    /// The content is being copied into the shared memory.
    Copying { refreshed: bool },
    /// The frame is being submitted to the scene graph.
    Submitting,
    /// The pass is over.
    Closed,
}

/// One render pass of one window.
#[derive(Clone, Copy, Debug, PartialEq, Eq, Structural)]
pub struct RenderPass {
    pub window: u32,
    pub stage: PassStage,
}

/// How the action that a pass asked for went.
#[derive(Clone, Copy, Debug, PartialEq, Eq, Structural)]
pub enum Outcome {
    /// It was done and there is nothing to report.
    Done,
    /// The display server reported this geometry.
    Geometry(Geometry),
    /// The answer to a request of the chain builder.
    Chain(ChainReply),
    /// It failed.
    Failed(BridgeError),
}

/// What the caller is to do next for a pass.
#[derive(Debug, PartialEq, Eq)]
pub enum Action {
    /// Acknowledge the damage accumulated under this handle.
    AcknowledgeDamage { damage: u32 },
    /// Ask the display server for the window's geometry.
    QueryGeometry { window: u32 },
    /// Release these resources, in this order.
    Teardown { releases: Vec<Release> },
    /// Perform this request of the chain builder.
    Chain(ChainRequest),
    /// Copy the content of `source` into `target`.
    Blit { source: Texture, target: Texture },
    /// Hand the frame to the scene graph.
    Submit(Submission),
    /// Nothing: the pass is complete.
    Finished,
    /// Release these resources, in this order, and give the pass up with
    /// this error.
    Abort { error: BridgeError, rollback: Vec<Release> },
}

/// The mathematical value of an `Action`.
pub enum ActionView {
    AcknowledgeDamage { damage: u32 },
    QueryGeometry { window: u32 },
    Teardown { releases: Seq<Release> },
    Chain(ChainRequest),
    Blit { source: Texture, target: Texture },
    Submit(Submission),
    Finished,
    Abort { error: BridgeError, rollback: Seq<Release> },
}

/// A pass after one step: the windows tracked, the stage reached, and the
/// action to perform.
pub struct Transition {
    pub windows: Map<u32, TrackedWindow>,
    pub stage: PassStage,
    pub action: ActionView,
}

impl View for Action {
    type V = ActionView;

    open spec fn view(&self) -> ActionView {
        match *self {
            Action::AcknowledgeDamage { damage } => ActionView::AcknowledgeDamage { damage },
            Action::QueryGeometry { window } => ActionView::QueryGeometry { window },
            Action::Teardown { releases } => ActionView::Teardown { releases: releases@ },
            Action::Chain(request) => ActionView::Chain(request),
            Action::Blit { source, target } => ActionView::Blit { source, target },
            Action::Submit(submission) => ActionView::Submit(submission),
            Action::Finished => ActionView::Finished,
            Action::Abort { error, rollback } => ActionView::Abort { error, rollback: rollback@ },
        }
    }
}

/// The copy that follows a refresh of a window with this chain.
pub open spec fn blit_of(set: TextureSet) -> ActionView {
    ActionView::Blit { source: set.capture_texture, target: set.imported_texture }
}

/// The submission of a window's frame.
pub open spec fn submission_of(scene: u64, set: TextureSet, refreshed: bool) -> Submission {
    if refreshed {
        Submission::SetAndSubmit { scene, remote: set.remote_texture }
    } else {
        Submission::Resubmit { scene }
    }
}

impl RenderPass {
    /// The builder of a pass holds only textures of the size it builds for.
    pub open spec fn wf(self) -> bool {
        match self.stage {
            PassStage::Releasing { builder } => builder.wf(),
            PassStage::Building { builder } => builder.wf(),
            _ => true,
        }
    }

    /// What the pass holds outside the registry, in the order of a teardown.
    pub open spec fn held(self) -> Seq<Release> {
        match self.stage {
            PassStage::Building { builder } => builder.stage.held(),
            _ => Seq::empty(),
        }
    }

    /// The pass given up with `error`: what it holds is released.
    pub open spec fn given_up(
        self,
        windows: Map<u32, TrackedWindow>,
        error: BridgeError,
        rollback: Seq<Release>,
    ) -> Transition {
        Transition {
            windows,
            stage: PassStage::Closed,
            action: ActionView::Abort { error, rollback },
        }
    }

    /// The first step of a pass on a window: the damage is acknowledged
    /// before anything else where the pass answers a damage notification;
    /// the first pass of a new window begins with its geometry.
    pub open spec fn opening(window: TrackedWindow, acknowledge: bool) -> (PassStage, ActionView) {
        if acknowledge {
            (PassStage::Acknowledging, ActionView::AcknowledgeDamage { damage: window.damage })
        } else {
            (PassStage::Measuring, ActionView::QueryGeometry { window: window.id })
        }
    }

    /// The step that a pass takes on an outcome.
    ///
    /// A pass acknowledges, measures, releases the old chain where the size
    /// changed, builds a chain where the window has none, copies, submits
    /// and closes. A failure, an outcome that does not belong to the stage,
    /// or a window that is no longer tracked gives the pass up.
    pub open spec fn next(self, windows: Map<u32, TrackedWindow>, outcome: Outcome) -> Transition {
        if !windows.contains_key(self.window) {
            self.given_up(windows, BridgeError::Logic, self.held())
        } else {
            let window = windows[self.window];
            match (self.stage, outcome) {
                (PassStage::Acknowledging, Outcome::Done) => Transition {
                    windows,
                    stage: PassStage::Measuring,
                    action: ActionView::QueryGeometry { window: self.window },
                },
                (PassStage::Measuring, Outcome::Geometry(geometry)) => {
                    let begun = windows.insert(
                        self.window,
                        window.begun(geometry.width, geometry.height),
                    );
                    match window.plan(geometry.width, geometry.height) {
                        RefreshPlan::Reuse => Transition {
                            windows: begun,
                            stage: PassStage::Copying { refreshed: false },
                            action: blit_of(window.textures->0),
                        },
                        RefreshPlan::Build { teardown: Some(set), builder } => Transition {
                            windows: begun,
                            stage: PassStage::Releasing { builder },
                            action: ActionView::Teardown { releases: set.releases() },
                        },
                        RefreshPlan::Build { teardown: None, builder } => Transition {
                            windows: begun,
                            stage: PassStage::Building { builder },
                            action: ActionView::Chain(builder.request_spec()),
                        },
                    }
                },
                (PassStage::Releasing { builder }, Outcome::Done) => Transition {
                    windows,
                    stage: PassStage::Building { builder },
                    action: ActionView::Chain(builder.request_spec()),
                },
                (PassStage::Building { builder }, Outcome::Chain(reply)) => {
                    match builder.after(reply) {
                        ProgressView::Pending(further) => Transition {
                            windows,
                            stage: PassStage::Building { builder: further },
                            action: ActionView::Chain(further.request_spec()),
                        },
                        ProgressView::Built(set) => if window.textures is Some {
                            self.given_up(windows, BridgeError::Logic, set.releases())
                        } else {
                            Transition {
                                windows: windows.insert(
                                    self.window,
                                    TrackedWindow { textures: Some(set), ..window },
                                ),
                                stage: PassStage::Copying { refreshed: true },
                                action: blit_of(set),
                            }
                        },
                        ProgressView::Aborted { error, rollback } => self.given_up(
                            windows,
                            error,
                            rollback,
                        ),
                    }
                },
                (PassStage::Copying { refreshed }, Outcome::Done) => match window.textures {
                    Some(set) => Transition {
                        windows,
                        stage: PassStage::Submitting,
                        action: ActionView::Submit(submission_of(window.scene, set, refreshed)),
                    },
                    None => self.given_up(windows, BridgeError::Logic, Seq::empty()),
                },
                (PassStage::Submitting, Outcome::Done) => Transition {
                    windows,
                    stage: PassStage::Closed,
                    action: ActionView::Finished,
                },
                (_, Outcome::Failed(error)) => self.given_up(windows, error, self.held()),
                _ => self.given_up(windows, BridgeError::Logic, self.held()),
            }
        }
    }

    /// The state of the window's texture chain as the pass sees it: a
    /// chain under construction is binding.
    pub open spec fn chain_state(self, window: TrackedWindow) -> TextureState {
        if self.stage is Building {
            TextureState::Binding
        } else {
            window.texture_state()
        }
    }

    /// The state of the window's texture chain while the pass is under
    /// way, or `None` where the window is not tracked.
    pub fn texture_state(&self, registry: &WindowRegistry) -> (out: Option<TextureState>)
        ensures
            out == (if registry@.contains_key(self.window) {
                Some(self.chain_state(registry@[self.window]))
            } else {
                None
            }),
    {
        match registry.get(self.window) {
            Some(window) => match self.stage {
                PassStage::Building { .. } => Some(TextureState::Binding),
                _ => Some(window.state()),
            },
            None => None,
        }
    }

    fn give_up(&self, error: BridgeError) -> (out: (RenderPass, Action))
        ensures
            out.0 == (RenderPass { window: self.window, stage: PassStage::Closed }),
            out.1@ == (ActionView::Abort { error, rollback: self.held() }),
    {
        let rollback: Vec<Release> = match self.stage {
            PassStage::Building { builder } => builder.stage.holdings(),
            _ => Vec::new(),
        };
        assert(rollback@ =~= self.held());
        (
            RenderPass { window: self.window, stage: PassStage::Closed },
            Action::Abort { error, rollback },
        )
    }

    /// Takes the outcome of the action that the pass asked for last, brings
    /// the registry up to date and says what to do next.
    pub fn advance(self, registry: &mut WindowRegistry, outcome: Outcome) -> (out: (
        RenderPass,
        Action,
    ))
        requires
            old(registry).wf(),
            self.wf(),
        ensures
            final(registry).wf(),
            out.0.wf(),
            out.0 == (RenderPass {
                window: self.window,
                stage: self.next(old(registry)@, outcome).stage,
            }),
            out.1@ == self.next(old(registry)@, outcome).action,
            final(registry)@ == self.next(old(registry)@, outcome).windows,
    {
        let id: u32 = self.window;
        let window = match registry.get(id) {
            Some(window) => window,
            None => {
                return self.give_up(BridgeError::Logic);
            },
        };
        let closed = RenderPass { window: id, stage: PassStage::Closed };
        match (self.stage, outcome) {
            (PassStage::Acknowledging, Outcome::Done) => (
                RenderPass { window: id, stage: PassStage::Measuring },
                Action::QueryGeometry { window: id },
            ),
            (PassStage::Measuring, Outcome::Geometry(geometry)) => {
                match registry.begin_refresh(id, geometry) {
                    Ok(RefreshPlan::Reuse) => {
                        match window.textures {
                            Some(set) => (
                                RenderPass { window: id, stage: PassStage::Copying { refreshed: false } },
                                Action::Blit {
                                    source: set.capture_texture,
                                    target: set.imported_texture,
                                },
                            ),
                            None => {
                                self.give_up(BridgeError::Logic)
                            },
                        }
                    },
                    Ok(RefreshPlan::Build { teardown: Some(set), builder }) => (
                        RenderPass { window: id, stage: PassStage::Releasing { builder } },
                        Action::Teardown { releases: set.release_order() },
                    ),
                    Ok(RefreshPlan::Build { teardown: None, builder }) => (
                        RenderPass { window: id, stage: PassStage::Building { builder } },
                        Action::Chain(builder.request()),
                    ),
                    Err(_) => {
                        self.give_up(BridgeError::Logic)
                    },
                }
            },
            (PassStage::Releasing { builder }, Outcome::Done) => (
                RenderPass { window: id, stage: PassStage::Building { builder } },
                Action::Chain(builder.request()),
            ),
            (PassStage::Building { builder }, Outcome::Chain(reply)) => {
                match builder.supply(reply) {
                    ChainProgress::Pending(further) => (
                        RenderPass { window: id, stage: PassStage::Building { builder: further } },
                        Action::Chain(further.request()),
                    ),
                    ChainProgress::Built(set) => {
                        match registry.complete_refresh(id, set) {
                            Ok(()) => (
                                RenderPass { window: id, stage: PassStage::Copying { refreshed: true } },
                                Action::Blit {
                                    source: set.capture_texture,
                                    target: set.imported_texture,
                                },
                            ),
                            Err(_) => (
                                closed,
                                Action::Abort {
                                    error: BridgeError::Logic,
                                    rollback: set.release_order(),
                                },
                            ),
                        }
                    },
                    ChainProgress::Aborted { error, rollback } => (
                        closed,
                        Action::Abort { error, rollback },
                    ),
                }
            },
            (PassStage::Copying { refreshed }, Outcome::Done) => {
                match window.submission(refreshed) {
                    Some(submission) => (
                        RenderPass { window: id, stage: PassStage::Submitting },
                        Action::Submit(submission),
                    ),
                    None => self.give_up(BridgeError::Logic),
                }
            },
            (PassStage::Submitting, Outcome::Done) => (closed, Action::Finished),
            (_, Outcome::Failed(error)) => self.give_up(error),
            _ => self.give_up(BridgeError::Logic),
        }
    }
}

impl WindowRegistry {
    /// Opens a render pass on a window. A pass that answers a damage
    /// notification acknowledges the damage first. A window that is not
    /// tracked is a logic error.
    pub fn open_pass(&self, window: u32, acknowledge: bool) -> (out: Result<
        (RenderPass, Action),
        BridgeError,
    >)
        ensures
            match out {
                Ok(opened) => {
                    &&& self@.contains_key(window)
                    &&& opened.0.window == window
                    &&& opened.0.wf()
                    &&& (opened.0.stage, opened.1@) == RenderPass::opening(
                        self@[window],
                        acknowledge,
                    )
                },
                Err(error) => !self@.contains_key(window) && error == BridgeError::Logic,
            },
    {
        match self.get(window) {
            Some(found) => {
                if acknowledge {
                    Ok(
                        (
                            RenderPass { window, stage: PassStage::Acknowledging },
                            Action::AcknowledgeDamage { damage: found.damage },
                        ),
                    )
                } else {
                    Ok(
                        (
                            RenderPass { window, stage: PassStage::Measuring },
                            Action::QueryGeometry { window: found.id },
                        ),
                    )
                }
            },
            None => Err(BridgeError::Logic),
        }
    }
}

/// A pass that finds the window at the size of its chain asks for no
/// allocation: it goes on to copy into the chain that is there, and leaves
/// the chain as it is.
pub proof fn lemma_fast_path_allocates_nothing(
    pass: RenderPass,
    windows: Map<u32, TrackedWindow>,
    geometry: Geometry,
)
    requires
        pass.stage == PassStage::Measuring,
        windows.contains_key(pass.window),
        windows[pass.window].captured_at(geometry.width, geometry.height),
    ensures
        ({
            let step = pass.next(windows, Outcome::Geometry(geometry));
            &&& step.stage == PassStage::Copying { refreshed: false }
            &&& step.action == blit_of(windows[pass.window].textures->0)
            &&& step.windows[pass.window].textures == windows[pass.window].textures
        }),
{
}

/// A pass that finds the window at another size than that of its chain
/// first hands the whole old chain out for release, and asks for the new
/// chain only once that release is done.
pub proof fn lemma_resize_releases_before_it_builds(
    pass: RenderPass,
    windows: Map<u32, TrackedWindow>,
    geometry: Geometry,
)
    requires
        pass.stage == PassStage::Measuring,
        windows.contains_key(pass.window),
        windows[pass.window].textures is Some,
        !windows[pass.window].captured_at(geometry.width, geometry.height),
    ensures
        ({
            let builder = ChainBuilder::fresh(
                windows[pass.window].id,
                geometry.width,
                geometry.height,
            );
            let first = pass.next(windows, Outcome::Geometry(geometry));
            let waiting = RenderPass { window: pass.window, stage: first.stage };
            let second = waiting.next(first.windows, Outcome::Done);
            &&& first.stage == PassStage::Releasing { builder }
            &&& first.action == ActionView::Teardown {
                releases: windows[pass.window].textures->0.releases(),
            }
            &&& first.windows[pass.window].textures is None
            &&& second.stage == PassStage::Building { builder }
            &&& second.action == ActionView::Chain(builder.request_spec())
        }),
{
}

/// A failure never leaves a pass open: whatever the stage, the pass is
/// closed with that error and with all that it holds to release, and the
/// registry is left as it was.
pub proof fn lemma_failure_closes_the_pass(
    pass: RenderPass,
    windows: Map<u32, TrackedWindow>,
    error: BridgeError,
)
    requires
        windows.contains_key(pass.window),
    ensures
        pass.next(windows, Outcome::Failed(error)) == pass.given_up(windows, error, pass.held()),
{
}

} // verus!

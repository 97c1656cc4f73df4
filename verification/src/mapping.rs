use vstd::prelude::*;
use vstd::string::StringSliceAdditionalSpecFns;
use crate::error::BridgeError;
use crate::geometry::{Geometry, Placement, PIXELS_PER_METER};
use crate::ident::{handle_of, has_minus, parsed_handle, window_handle};
use crate::pass::{Action, ActionView, Outcome, PassStage, RenderPass};
use crate::registry::{
    lemma_handles_are_bounded, newcomer, IgnoreReason, SceneRequest, WindowInfo, WindowRegistry,
};
use crate::texture::Release;
use crate::window::TrackedWindow;

verus! {

/// Where the mapping of a candidate window stands.
#[derive(Clone, Copy, Debug, PartialEq, Eq, Structural)]
pub enum MapStage {
    /// The compositor is being asked about the window. `handle` is the
    /// display server's handle that the window's id stands for, if it
    /// stands for one.
    Inquiring { handle: Option<u32> },
    /// The screen's geometry is being asked for.
    MeasuringRoot { window: u32 },
    /// The window's geometry is being asked for.
    MeasuringWindow { window: u32, root: Geometry },
    /// The window's scene representation is being created.
    Creating { window: u32, geometry: Geometry, placement: Placement },
    /// The representation is being put in its place.
    Placing { window: u32, geometry: Geometry, scene: u64 },
    /// Damage tracking is being registered.
    Subscribing { window: u32, geometry: Geometry, scene: u64 },
    /// The window is tracked and rendered for the first time.
    Rendering { pass: RenderPass },
    /// The mapping is over.
    Closed,
}

/// How much of a window's damage the display server reports.
#[derive(Clone, Copy, Debug, PartialEq, Eq, Structural)]
pub enum ReportLevel {
    RawRectangles,
    DeltaRectangles,
    BoundingBox,
    /// One notification whenever the damaged region stops being empty.
    NonEmpty,
}

/// The mapping of one candidate window.
#[derive(Clone, Debug)]
pub struct MapPass {
    pub stage: MapStage,
    /// The window's title, once the compositor has told it.
    pub title: String,
}

/// How the action that a mapping asked for went.
#[derive(Clone, Debug)]
pub enum MapOutcome {
    /// It was done and there is nothing to report.
    Done,
    /// The compositor's answer.
    Info(WindowInfo),
    /// The display server's answer.
    Geometry(Geometry),
    /// The handle of the scene representation that was created.
    Scene(u64),
    /// The handle of the damage tracking that was registered.
    Damage(u32),
    /// The outcome of an action of the first render pass.
    Render(Outcome),
    /// It failed.
    Failed(BridgeError),
}

/// What the caller is to do next for a mapping.
#[derive(Debug, PartialEq, Eq)]
pub enum MapAction {
    /// Ask the compositor about the window.
    FetchInfo,
    /// Ask the display server for the geometry of the screen.
    QueryRootGeometry,
    /// Ask the display server for the geometry of the window.
    QueryGeometry { window: u32 },
    /// Create the window's scene representation, under the window's title.
    CreateSceneWindow { window: u32, title: String, request: SceneRequest },
    /// Put the representation in its place.
    Place { scene: u64, placement: Placement },
    /// Register damage tracking for the window, at this level.
    RegisterDamage { window: u32, level: ReportLevel },
    /// Perform this action of the first render pass.
    Render(Action),
    /// Nothing: the window is passed over.
    Ignored(IgnoreReason),
    /// Nothing: the window is tracked and rendered.
    Mapped { window: u32 },
    /// Give the mapping up with this error: drop the scene representation
    /// and the damage tracking that are named, and release the resources
    /// listed, in that order.
    Abort {
        error: BridgeError,
        created_scene: Option<u64>,
        created_damage: Option<u32>,
        rollback: Vec<Release>,
    },
}

/// The mathematical value of a `MapAction`.
pub enum MapActionView {
    FetchInfo,
    QueryRootGeometry,
    QueryGeometry { window: u32 },
    CreateSceneWindow { window: u32, title: Seq<char>, request: SceneRequest },
    Place { scene: u64, placement: Placement },
    RegisterDamage { window: u32, level: ReportLevel },
    Render(ActionView),
    Ignored(IgnoreReason),
    Mapped { window: u32 },
    Abort {
        error: BridgeError,
        created_scene: Option<u64>,
        created_damage: Option<u32>,
        rollback: Seq<Release>,
    },
}

/// A mapping after one step.
pub struct MapTransition {
    pub windows: Map<u32, TrackedWindow>,
    pub stage: MapStage,
    pub title: Seq<char>,
    pub action: MapActionView,
}

impl View for MapAction {
    type V = MapActionView;

    open spec fn view(&self) -> MapActionView {
        match *self {
            MapAction::FetchInfo => MapActionView::FetchInfo,
            MapAction::QueryRootGeometry => MapActionView::QueryRootGeometry,
            MapAction::QueryGeometry { window } => MapActionView::QueryGeometry { window },
            MapAction::CreateSceneWindow { window, title, request } => {
                MapActionView::CreateSceneWindow { window, title: title@, request }
            },
            MapAction::Place { scene, placement } => MapActionView::Place { scene, placement },
            MapAction::RegisterDamage { window, level } => MapActionView::RegisterDamage {
                window,
                level,
            },
            MapAction::Render(action) => MapActionView::Render(action@),
            MapAction::Ignored(reason) => MapActionView::Ignored(reason),
            MapAction::Mapped { window } => MapActionView::Mapped { window },
            MapAction::Abort { error, created_scene: scene, created_damage: damage, rollback } => MapActionView::Abort {
                error,
                created_scene: scene,
                created_damage: damage,
                rollback: rollback@,
            },
        }
    }
}

/// What the scene graph is asked to create for a window of this geometry.
pub open spec fn scene_request_for(geometry: Geometry) -> SceneRequest {
    SceneRequest {
        width: geometry.width as u32,
        height: geometry.height as u32,
        pixels_per_meter: PIXELS_PER_METER,
    }
}

impl MapStage {
    /// The scene representation that the mapping has created and the
    /// registry does not own yet.
    pub open spec fn scene(self) -> Option<u64> {
        match self {
            MapStage::Placing { scene, .. } => Some(scene),
            MapStage::Subscribing { scene, .. } => Some(scene),
            _ => None,
        }
    }

    /// What the first render pass holds outside the registry.
    pub open spec fn held(self) -> Seq<Release> {
        match self {
            MapStage::Rendering { pass } => pass.held(),
            _ => Seq::empty(),
        }
    }
}

impl MapPass {
    pub open spec fn wf(self) -> bool {
        self.stage matches MapStage::Rendering { pass } ==> pass.wf()
    }

    /// The mapping closed without an error.
    pub open spec fn closed(
        self,
        windows: Map<u32, TrackedWindow>,
        action: MapActionView,
    ) -> MapTransition {
        MapTransition { windows, stage: MapStage::Closed, title: self.title@, action }
    }

    /// The mapping given up with `error`.
    pub open spec fn given_up(
        self,
        windows: Map<u32, TrackedWindow>,
        error: BridgeError,
        damage: Option<u32>,
    ) -> MapTransition {
        MapTransition {
            windows,
            stage: MapStage::Closed,
            title: self.title@,
            action: MapActionView::Abort {
                error,
                created_scene: self.stage.scene(),
                created_damage: damage,
                rollback: self.stage.held(),
            },
        }
    }

    /// The mapping after a step of its first render pass.
    pub open spec fn rendered(
        self,
        pass: RenderPass,
        windows: Map<u32, TrackedWindow>,
        outcome: Outcome,
    ) -> MapTransition {
        let step = pass.next(windows, outcome);
        match step.action {
            ActionView::Finished => self.closed(
                step.windows,
                MapActionView::Mapped { window: pass.window },
            ),
            ActionView::Abort { error, rollback } => self.closed(
                step.windows,
                MapActionView::Abort { error, created_scene: None, created_damage: None, rollback },
            ),
            other => MapTransition {
                windows: step.windows,
                stage: MapStage::Rendering {
                    pass: RenderPass { window: pass.window, stage: step.stage },
                },
                title: self.title@,
                action: MapActionView::Render(other),
            },
        }
    }

    /// The step that a mapping takes on an outcome.
    ///
    /// A window that is not mapped, not of type "normal" or entirely
    /// outside the screen is passed over. An id that stands for no handle
    /// is an error of the compositor's answer. A tracked window gets its
    /// scene representation, its place and its damage tracking, is filed
    /// in the registry unless its handle is taken, and is rendered once.
    pub open spec fn next(
        self,
        windows: Map<u32, TrackedWindow>,
        outcome: MapOutcome,
    ) -> MapTransition {
        match (self.stage, outcome) {
            (MapStage::Inquiring { handle }, MapOutcome::Info(info)) => {
                if !info.mapped {
                    self.closed(windows, MapActionView::Ignored(IgnoreReason::Unmapped))
                } else if !info.normal() {
                    self.closed(windows, MapActionView::Ignored(IgnoreReason::NotNormal))
                } else {
                    match handle {
                        Some(window) => MapTransition {
                            windows,
                            stage: MapStage::MeasuringRoot { window },
                            title: info.title@,
                            action: MapActionView::QueryRootGeometry,
                        },
                        None => self.given_up(windows, BridgeError::Registry, None),
                    }
                }
            },
            (MapStage::MeasuringRoot { window }, MapOutcome::Geometry(root)) => MapTransition {
                windows,
                stage: MapStage::MeasuringWindow { window, root },
                title: self.title@,
                action: MapActionView::QueryGeometry { window },
            },
            (MapStage::MeasuringWindow { window, root }, MapOutcome::Geometry(geometry)) => {
                if geometry.offscreen(root) {
                    self.closed(windows, MapActionView::Ignored(IgnoreReason::Offscreen))
                } else {
                    MapTransition {
                        windows,
                        stage: MapStage::Creating {
                            window,
                            geometry,
                            placement: geometry.placement(root, windows.len()),
                        },
                        title: self.title@,
                        action: MapActionView::CreateSceneWindow {
                            window,
                            title: self.title@,
                            request: scene_request_for(geometry),
                        },
                    }
                }
            },
            (MapStage::Creating { window, geometry, placement }, MapOutcome::Scene(scene)) => {
                MapTransition {
                    windows,
                    stage: MapStage::Placing { window, geometry, scene },
                    title: self.title@,
                    action: MapActionView::Place { scene, placement },
                }
            },
            (MapStage::Placing { window, geometry, scene }, MapOutcome::Done) => MapTransition {
                windows,
                stage: MapStage::Subscribing { window, geometry, scene },
                title: self.title@,
                action: MapActionView::RegisterDamage { window, level: ReportLevel::NonEmpty },
            },
            (MapStage::Subscribing { window, geometry, scene }, MapOutcome::Damage(damage)) => {
                if windows.contains_key(window) {
                    self.given_up(windows, BridgeError::DuplicateWindow, Some(damage))
                } else {
                    MapTransition {
                        windows: windows.insert(window, newcomer(window, damage, geometry, scene)),
                        stage: MapStage::Rendering {
                            pass: RenderPass { window, stage: PassStage::Measuring },
                        },
                        title: self.title@,
                        action: MapActionView::Render(ActionView::QueryGeometry { window }),
                    }
                }
            },
            (MapStage::Rendering { pass }, MapOutcome::Render(outcome)) => self.rendered(
                pass,
                windows,
                outcome,
            ),
            (_, MapOutcome::Failed(error)) => self.given_up(windows, error, None),
            _ => self.given_up(windows, BridgeError::Logic, None),
        }
    }

    /// Begins the mapping of the window that the compositor lists under
    /// `id`. The compositor is asked about it first.
    pub fn begin(id: &str) -> (out: (MapPass, MapAction))
        ensures
            out.0.stage == (MapStage::Inquiring {
                handle: match handle_of(has_minus(id.spec_bytes()), parsed_handle(id@)) {
                    Ok(handle) => Some(handle),
                    Err(_) => None,
                },
            }),
            out.0.title@ == Seq::<char>::empty(),
            out.1@ == MapActionView::FetchInfo,
            out.0.wf(),
    {
        MapPass::begin_with(window_handle(id))
    }

    /// Begins a mapping with what the window's id was read as.
    pub fn begin_with(handle: Result<u32, BridgeError>) -> (out: (MapPass, MapAction))
        ensures
            out.0.stage == (MapStage::Inquiring {
                handle: match handle {
                    Ok(handle) => Some(handle),
                    Err(_) => None,
                },
            }),
            out.0.title@ == Seq::<char>::empty(),
            out.1@ == MapActionView::FetchInfo,
            out.0.wf(),
    {
        let handle = match handle {
            Ok(handle) => Some(handle),
            Err(_) => None,
        };
        (MapPass { stage: MapStage::Inquiring { handle }, title: String::new() }, MapAction::FetchInfo)
    }

    fn close(title: String, action: MapAction) -> (out: (MapPass, MapAction))
        ensures
            out.0.stage == MapStage::Closed,
            out.0.title == title,
            out.1 == action,
    {
        (MapPass { stage: MapStage::Closed, title }, action)
    }

    fn give_up(self, error: BridgeError, damage: Option<u32>) -> (out: (MapPass, MapAction))
        ensures
            out.0.stage == MapStage::Closed,
            out.0.title == self.title,
            out.1@ == (MapActionView::Abort {
                error,
                created_scene: self.stage.scene(),
                created_damage: damage,
                rollback: self.stage.held(),
            }),
    {
        let scene = match self.stage {
            MapStage::Placing { scene, .. } => Some(scene),
            MapStage::Subscribing { scene, .. } => Some(scene),
            _ => None,
        };
        let rollback: Vec<Release> = match self.stage {
            MapStage::Rendering { pass } => match pass.stage {
                PassStage::Building { builder } => builder.stage.holdings(),
                _ => Vec::new(),
            },
            _ => Vec::new(),
        };
        assert(rollback@ =~= self.stage.held());
        (
            MapPass { stage: MapStage::Closed, title: self.title },
            MapAction::Abort { error, created_scene: scene, created_damage: damage, rollback },
        )
    }

    /// Takes the outcome of the action that the mapping asked for last,
    /// brings the registry up to date and says what to do next.
    pub fn advance(self, registry: &mut WindowRegistry, outcome: MapOutcome) -> (out: (
        MapPass,
        MapAction,
    ))
        requires
            old(registry).wf(),
            self.wf(),
        ensures
            final(registry).wf(),
            out.0.wf(),
            out.0.stage == self.next(old(registry)@, outcome).stage,
            out.0.title@ == self.next(old(registry)@, outcome).title,
            out.1@ == self.next(old(registry)@, outcome).action,
            final(registry)@ == self.next(old(registry)@, outcome).windows,
    {
        let stage = self.stage;
        match (stage, outcome) {
            (MapStage::Inquiring { handle }, MapOutcome::Info(info)) => {
                match info.ruled_out() {
                    Some(reason) => MapPass::close(self.title, MapAction::Ignored(reason)),
                    None => match handle {
                        Some(window) => (
                            MapPass { stage: MapStage::MeasuringRoot { window }, title: info.title },
                            MapAction::QueryRootGeometry,
                        ),
                        None => self.give_up(BridgeError::Registry, None),
                    },
                }
            },
            (MapStage::MeasuringRoot { window }, MapOutcome::Geometry(root)) => (
                MapPass { stage: MapStage::MeasuringWindow { window, root }, title: self.title },
                MapAction::QueryGeometry { window },
            ),
            (MapStage::MeasuringWindow { window, root }, MapOutcome::Geometry(geometry)) => {
                if geometry.is_offscreen(&root) {
                    MapPass::close(self.title, MapAction::Ignored(IgnoreReason::Offscreen))
                } else {
                    proof {
                        lemma_handles_are_bounded(registry@.dom());
                    }
                    let placement = geometry.initial_placement(&root, registry.len());
                    let title = self.title.clone();
                    (
                        MapPass {
                            stage: MapStage::Creating { window, geometry, placement },
                            title: self.title,
                        },
                        MapAction::CreateSceneWindow {
                            window,
                            title,
                            request: SceneRequest {
                                width: geometry.width as u32,
                                height: geometry.height as u32,
                                pixels_per_meter: PIXELS_PER_METER,
                            },
                        },
                    )
                }
            },
            (MapStage::Creating { window, geometry, placement }, MapOutcome::Scene(scene)) => (
                MapPass { stage: MapStage::Placing { window, geometry, scene }, title: self.title },
                MapAction::Place { scene, placement },
            ),
            (MapStage::Placing { window, geometry, scene }, MapOutcome::Done) => (
                MapPass {
                    stage: MapStage::Subscribing { window, geometry, scene },
                    title: self.title,
                },
                MapAction::RegisterDamage { window, level: ReportLevel::NonEmpty },
            ),
            (MapStage::Subscribing { window, geometry, scene }, MapOutcome::Damage(damage)) => {
                match registry.enter(TrackedWindow::new(window, damage, geometry, scene)) {
                    Ok(()) => (
                        MapPass {
                            stage: MapStage::Rendering {
                                pass: RenderPass { window, stage: PassStage::Measuring },
                            },
                            title: self.title,
                        },
                        MapAction::Render(Action::QueryGeometry { window }),
                    ),
                    Err(_) => self.give_up(BridgeError::DuplicateWindow, Some(damage)),
                }
            },
            (MapStage::Rendering { pass }, MapOutcome::Render(outcome)) => {
                let (further, action) = pass.advance(registry, outcome);
                match action {
                    Action::Finished => MapPass::close(
                        self.title,
                        MapAction::Mapped { window: pass.window },
                    ),
                    Action::Abort { error, rollback } => MapPass::close(
                        self.title,
                        MapAction::Abort { error, created_scene: None, created_damage: None, rollback },
                    ),
                    other => (
                        MapPass { stage: MapStage::Rendering { pass: further }, title: self.title },
                        MapAction::Render(other),
                    ),
                }
            },
            (_, MapOutcome::Failed(error)) => self.give_up(error, None),
            _ => self.give_up(BridgeError::Logic, None),
        }
    }
}

/// A candidate that is not mapped, not of type "normal" or entirely
/// outside the screen is never filed: the mapping closes, nothing is
/// created for the window, and the registry is as it was.
pub proof fn lemma_ignored_candidate_is_not_filed(
    pass: MapPass,
    windows: Map<u32, TrackedWindow>,
    outcome: MapOutcome,
)
    requires
        match (pass.stage, outcome) {
            (MapStage::Inquiring { .. }, MapOutcome::Info(info)) => !info.mapped || info.kind@
                != "normal"@,
            (MapStage::MeasuringWindow { root, .. }, MapOutcome::Geometry(geometry)) => {
                geometry.offscreen(root)
            },
            _ => false,
        },
    ensures
        pass.next(windows, outcome).windows == windows,
        pass.next(windows, outcome).stage == MapStage::Closed,
        pass.next(windows, outcome).action is Ignored,
{
}

/// A handle that is tracked already is refused with `DuplicateWindow` and
/// the registry is as it was, in content and in size; what was created for
/// the second window is handed back to be dropped.
pub proof fn lemma_duplicate_is_refused(
    pass: MapPass,
    windows: Map<u32, TrackedWindow>,
    damage: u32,
)
    requires
        pass.stage is Subscribing,
        windows.contains_key(pass.stage->Subscribing_window),
    ensures
        ({
            let scene = pass.stage->Subscribing_scene;
            let step = pass.next(windows, MapOutcome::Damage(damage));
            &&& step.windows == windows
            &&& step.windows.len() == windows.len()
            &&& step.stage == MapStage::Closed
            &&& step.action == (MapActionView::Abort {
                error: BridgeError::DuplicateWindow,
                created_scene: Some(scene),
                created_damage: Some(damage),
                rollback: Seq::empty(),
            })
        }),
{
}

/// A mapping files a window at one step only, when the damage tracking of
/// a new handle is registered; the window filed has its scene handle and
/// no texture chain, and no other window is touched.
pub proof fn lemma_window_is_filed_once(
    pass: MapPass,
    windows: Map<u32, TrackedWindow>,
    outcome: MapOutcome,
)
    requires
        !(pass.stage is Rendering),
    ensures
        ({
            let step = pass.next(windows, outcome);
            if pass.stage is Subscribing && outcome is Damage && !windows.contains_key(
                pass.stage->Subscribing_window,
            ) {
                let window = pass.stage->Subscribing_window;
                &&& step.windows == windows.insert(
                    window,
                    newcomer(
                        window,
                        outcome->Damage_0,
                        pass.stage->Subscribing_geometry,
                        pass.stage->Subscribing_scene,
                    ),
                )
                &&& step.windows[window].scene == pass.stage->Subscribing_scene
                &&& step.windows[window].textures is None
            } else {
                step.windows == windows
            }
        }),
{
}

/// A failure at any stage before the first render pass closes the mapping
/// with that error and touches no tracked window.
pub proof fn lemma_failure_costs_one_candidate(
    pass: MapPass,
    windows: Map<u32, TrackedWindow>,
    error: BridgeError,
)
    ensures
        pass.next(windows, MapOutcome::Failed(error)).windows == windows,
        pass.next(windows, MapOutcome::Failed(error)).stage == MapStage::Closed,
        pass.next(windows, MapOutcome::Failed(error)).action matches MapActionView::Abort {
            error: reported,
            ..
        } && reported == error,
{
}

} // verus!

use window_bridge::chain::{ChainReply, ChainRequest};
use window_bridge::compositor::{service_name, window_path, windows_path};
use window_bridge::error::BridgeError;
use window_bridge::geometry::{Geometry, Placement};
use window_bridge::mapping::{MapAction, MapOutcome, MapPass, MapStage, ReportLevel};
use window_bridge::pass::{Action, Outcome, PassStage, RenderPass};
use window_bridge::registry::{IgnoreReason, SceneRequest, WindowInfo, WindowRegistry};
use window_bridge::render::{Event, LoopStep};
use window_bridge::texture::{Release, Texture, TextureState};
use window_bridge::window::Submission;

// A display server, GPU bridge, compositor and scene graph that answer as
// working ones would, and keep count of what they were asked.
struct World {
    root: Geometry,
    geometry: Geometry,
    info: WindowInfo,
    next_handle: u64,
    allocations: u32,
    imports: u32,
    released: Vec<Release>,
    acknowledged: Vec<u32>,
    blits: Vec<(Texture, Texture)>,
    submissions: Vec<Submission>,
    scenes: Vec<(u32, SceneRequest)>,
    titles: Vec<String>,
    placements: Vec<(u64, Placement)>,
    fail_allocation: bool,
}

impl World {
    fn new(geometry: Geometry) -> World {
        World {
            root: Geometry { x: 0, y: 0, width: 1920, height: 1080 },
            geometry,
            info: WindowInfo { mapped: true, kind: "normal".to_string(), title: "t".to_string() },
            next_handle: 10,
            allocations: 0,
            imports: 0,
            released: Vec::new(),
            acknowledged: Vec::new(),
            blits: Vec::new(),
            submissions: Vec::new(),
            scenes: Vec::new(),
            titles: Vec::new(),
            placements: Vec::new(),
            fail_allocation: false,
        }
    }

    fn fresh(&mut self) -> u64 {
        self.next_handle += 1;
        self.next_handle
    }

    fn texture(&mut self, width: u32, height: u32) -> Texture {
        Texture { handle: self.fresh(), width, height }
    }

    fn chain(&mut self, request: ChainRequest) -> ChainReply {
        match request {
            ChainRequest::CreateCaptureSurface { .. } => {
                ChainReply::Surface { surface: self.fresh() as u32, visual: 33 }
            }
            ChainRequest::BindCaptureTexture { .. } => {
                let (w, h) = (self.geometry.width as u32, self.geometry.height as u32);
                ChainReply::Captured(self.texture(w, h))
            }
            ChainRequest::AllocateExportable { width, height } => {
                if self.fail_allocation {
                    return ChainReply::Failed(BridgeError::Gpu);
                }
                self.allocations += 1;
                ChainReply::Exported {
                    remote: self.texture(width, height),
                    shared_handle: 9,
                    size: 4 * width as u64 * height as u64,
                }
            }
            ChainRequest::ImportShared { width, height, .. } => {
                self.imports += 1;
                ChainReply::Imported(self.texture(width, height))
            }
        }
    }

    // Performs an action of a render pass. `None` says that the pass is over.
    fn perform(&mut self, action: Action) -> Option<Result<Outcome, BridgeError>> {
        Some(Ok(match action {
            Action::AcknowledgeDamage { damage } => {
                self.acknowledged.push(damage);
                Outcome::Done
            }
            Action::QueryGeometry { .. } => Outcome::Geometry(self.geometry),
            Action::Teardown { releases } => {
                self.released.extend(releases);
                Outcome::Done
            }
            Action::Chain(request) => Outcome::Chain(self.chain(request)),
            Action::Blit { source, target } => {
                assert_eq!((source.width, source.height), (target.width, target.height));
                self.blits.push((source, target));
                Outcome::Done
            }
            Action::Submit(submission) => {
                self.submissions.push(submission);
                Outcome::Done
            }
            Action::Finished => return None,
            Action::Abort { error, rollback } => {
                self.released.extend(rollback);
                return Some(Err(error));
            }
        }))
    }

    fn render(&mut self, registry: &mut WindowRegistry, window: u32) -> Result<(), BridgeError> {
        let (mut pass, mut action) = registry.open_pass(window, true)?;
        loop {
            match self.perform(action) {
                None => return Ok(()),
                Some(Err(error)) => return Err(error),
                Some(Ok(outcome)) => {
                    let (next, then) = pass.advance(registry, outcome);
                    pass = next;
                    action = then;
                }
            }
        }
    }

    fn map(&mut self, registry: &mut WindowRegistry, id: &str) -> MapAction {
        let (mut pass, mut action) = MapPass::begin(id);
        loop {
            let outcome = match action {
                MapAction::FetchInfo => MapOutcome::Info(self.info.clone()),
                MapAction::QueryRootGeometry => MapOutcome::Geometry(self.root),
                MapAction::QueryGeometry { .. } => MapOutcome::Geometry(self.geometry),
                MapAction::CreateSceneWindow { window, title, request } => {
                    self.scenes.push((window, request));
                    self.titles.push(title);
                    MapOutcome::Scene(7000 + window as u64)
                }
                MapAction::Place { scene, placement } => {
                    self.placements.push((scene, placement));
                    MapOutcome::Done
                }
                MapAction::RegisterDamage { window, level } => {
                    assert_eq!(level, ReportLevel::NonEmpty);
                    MapOutcome::Damage(500 + window)
                }
                MapAction::Render(inner) => match self.perform(inner) {
                    Some(Ok(outcome)) => MapOutcome::Render(outcome),
                    other => panic!("render pass ended inside the mapping: {:?}", other.is_some()),
                },
                done => return done,
            };
            let (next, then) = pass.advance(registry, outcome);
            pass = next;
            action = then;
        }
    }
}

fn window_at(width: u16, height: u16) -> Geometry {
    Geometry { x: 100, y: 100, width, height }
}

#[test]
fn one_window_is_mapped_and_rendered_end_to_end() {
    let mut registry = WindowRegistry::new();
    let mut world = World::new(window_at(300, 200));
    let done = world.map(&mut registry, "1234");
    assert_eq!(done, MapAction::Mapped { window: 1234 });
    assert_eq!(registry.len(), 1);
    let window = registry.get(1234).unwrap();
    assert_eq!(window.scene, 8234);
    assert_eq!(window.damage, 1734);
    assert_eq!(window.state(), TextureState::Ready);
    let set = window.textures.unwrap();
    for member in [set.capture_texture, set.remote_texture, set.imported_texture] {
        assert_eq!((member.width, member.height), (300, 200));
    }
    assert_eq!(
        world.scenes,
        vec![(1234, SceneRequest { width: 300, height: 200, pixels_per_meter: 900 })]
    );
    assert_eq!(world.titles, vec!["t".to_string()]);
    assert_eq!(
        world.placements,
        vec![(8234, Placement { x_pixels: -710, y_pixels: -610, depth_steps: -24 })]
    );
    assert_eq!((world.allocations, world.imports), (1, 1));
    assert_eq!(world.blits, vec![(set.capture_texture, set.imported_texture)]);
    assert_eq!(
        world.submissions,
        vec![Submission::SetAndSubmit { scene: 8234, remote: set.remote_texture }]
    );
    assert!(world.acknowledged.is_empty());
    assert!(world.released.is_empty());
}

#[test]
fn untracked_damage_ends_the_loop_with_a_logic_error() {
    let mut registry = WindowRegistry::new();
    let mut world = World::new(window_at(300, 200));
    world.map(&mut registry, "1234");
    assert_eq!(registry.dispatch(Event::DamageNotify { window: 99 }), Err(BridgeError::Logic));
    assert_eq!(registry.open_pass(99, true), Err(BridgeError::Logic));
    assert_eq!(world.render(&mut registry, 99), Err(BridgeError::Logic));
    assert!(world.acknowledged.is_empty());
    assert_eq!(registry.len(), 1);
}

#[test]
fn damage_at_the_same_size_copies_and_resubmits() {
    let mut registry = WindowRegistry::new();
    let mut world = World::new(window_at(300, 200));
    world.map(&mut registry, "1234");
    let before = registry.get(1234).unwrap();
    assert_eq!(
        registry.dispatch(Event::DamageNotify { window: 1234 }),
        Ok(LoopStep::Render { window: 1234, damage: 1734 })
    );
    assert_eq!(world.render(&mut registry, 1234), Ok(()));
    assert_eq!(world.render(&mut registry, 1234), Ok(()));
    assert_eq!(world.acknowledged, vec![1734, 1734]);
    assert_eq!((world.allocations, world.imports), (1, 1));
    assert!(world.released.is_empty());
    assert_eq!(world.blits.len(), 3);
    assert_eq!(world.submissions[1], Submission::Resubmit { scene: 8234 });
    assert_eq!(world.submissions[2], Submission::Resubmit { scene: 8234 });
    assert_eq!(registry.get(1234).unwrap(), before);
}

#[test]
fn resize_between_two_damage_events() {
    let mut registry = WindowRegistry::new();
    let mut world = World::new(window_at(300, 200));
    world.map(&mut registry, "1234");
    world.render(&mut registry, 1234).unwrap();
    let old = registry.get(1234).unwrap().textures.unwrap();
    world.geometry = window_at(400, 200);
    world.render(&mut registry, 1234).unwrap();
    assert_eq!(world.released, old.release_order());
    assert_eq!((world.allocations, world.imports), (2, 2));
    let window = registry.get(1234).unwrap();
    assert_eq!((window.width, window.height), (400, 200));
    let set = window.textures.unwrap();
    for member in [set.capture_texture, set.remote_texture, set.imported_texture] {
        assert_eq!((member.width, member.height), (400, 200));
    }
    assert_eq!(
        world.submissions.last(),
        Some(&Submission::SetAndSubmit { scene: 8234, remote: set.remote_texture })
    );
    assert_eq!(window.scene, 8234);
}

#[test]
fn pass_actions_come_in_order() {
    let mut registry = WindowRegistry::new();
    let mut world = World::new(window_at(300, 200));
    world.map(&mut registry, "1234");
    world.geometry = window_at(400, 200);
    let old = registry.get(1234).unwrap().textures.unwrap();
    let (pass, action) = registry.open_pass(1234, true).unwrap();
    assert_eq!(pass, RenderPass { window: 1234, stage: PassStage::Acknowledging });
    assert_eq!(action, Action::AcknowledgeDamage { damage: 1734 });
    let (pass, action) = pass.advance(&mut registry, Outcome::Done);
    assert_eq!(pass.stage, PassStage::Measuring);
    assert_eq!(action, Action::QueryGeometry { window: 1234 });
    let (pass, action) = pass.advance(&mut registry, Outcome::Geometry(world.geometry));
    assert!(matches!(pass.stage, PassStage::Releasing { .. }));
    assert_eq!(action, Action::Teardown { releases: old.release_order() });
    assert_eq!(pass.texture_state(&registry), Some(TextureState::Absent));
    let (pass, action) = pass.advance(&mut registry, Outcome::Done);
    assert_eq!(action, Action::Chain(ChainRequest::CreateCaptureSurface { window: 1234 }));
    assert_eq!(pass.texture_state(&registry), Some(TextureState::Binding));
    let (pass, action) = pass.advance(
        &mut registry,
        Outcome::Chain(ChainReply::Surface { surface: 50, visual: 33 }),
    );
    assert_eq!(
        action,
        Action::Chain(ChainRequest::BindCaptureTexture { surface: 50, visual: 33 })
    );
    let capture = Texture { handle: 51, width: 400, height: 200 };
    let (pass, action) = pass.advance(&mut registry, Outcome::Chain(ChainReply::Captured(capture)));
    assert_eq!(
        action,
        Action::Chain(ChainRequest::AllocateExportable { width: 400, height: 200 })
    );
    let remote = Texture { handle: 52, width: 400, height: 200 };
    let (pass, action) = pass.advance(
        &mut registry,
        Outcome::Chain(ChainReply::Exported { remote, shared_handle: 4, size: 320000 }),
    );
    assert_eq!(
        action,
        Action::Chain(ChainRequest::ImportShared {
            width: 400,
            height: 200,
            shared_handle: 4,
            size: 320000
        })
    );
    let imported = Texture { handle: 53, width: 400, height: 200 };
    let (pass, action) =
        pass.advance(&mut registry, Outcome::Chain(ChainReply::Imported(imported)));
    assert_eq!(pass.stage, PassStage::Copying { refreshed: true });
    assert_eq!(action, Action::Blit { source: capture, target: imported });
    assert_eq!(pass.texture_state(&registry), Some(TextureState::Ready));
    let (pass, action) = pass.advance(&mut registry, Outcome::Done);
    assert_eq!(pass.stage, PassStage::Submitting);
    assert_eq!(action, Action::Submit(Submission::SetAndSubmit { scene: 8234, remote }));
    let (pass, action) = pass.advance(&mut registry, Outcome::Done);
    assert_eq!(pass.stage, PassStage::Closed);
    assert_eq!(action, Action::Finished);
    let (pass, action) = pass.advance(&mut registry, Outcome::Done);
    assert_eq!(pass.stage, PassStage::Closed);
    assert_eq!(action, Action::Abort { error: BridgeError::Logic, rollback: vec![] });
}

#[test]
fn failed_allocation_rolls_back_and_the_next_damage_tries_again() {
    let mut registry = WindowRegistry::new();
    let mut world = World::new(window_at(300, 200));
    world.map(&mut registry, "1234");
    let old = registry.get(1234).unwrap().textures.unwrap();
    world.geometry = window_at(400, 200);
    world.fail_allocation = true;
    assert_eq!(world.render(&mut registry, 1234), Err(BridgeError::Gpu));
    assert_eq!(world.released.len(), 6);
    assert_eq!(world.released[..4], old.release_order()[..]);
    assert!(matches!(world.released[4], Release::LocalTexture(t) if t.width == 400));
    assert!(matches!(world.released[5], Release::Surface(_)));
    assert_eq!(registry.get(1234).unwrap().state(), TextureState::Absent);
    world.fail_allocation = false;
    assert_eq!(world.render(&mut registry, 1234), Ok(()));
    assert_eq!(registry.get(1234).unwrap().state(), TextureState::Ready);
    assert_eq!(world.released.len(), 6);
    assert_eq!(world.allocations, 2);
}

#[test]
fn failure_of_an_action_closes_the_pass() {
    let mut registry = WindowRegistry::new();
    let mut world = World::new(window_at(300, 200));
    world.map(&mut registry, "1234");
    let (pass, _) = registry.open_pass(1234, true).unwrap();
    let (pass, action) = pass.advance(&mut registry, Outcome::Failed(BridgeError::Protocol));
    assert_eq!(pass.stage, PassStage::Closed);
    assert_eq!(action, Action::Abort { error: BridgeError::Protocol, rollback: vec![] });
    let (pass, _) = registry.open_pass(1234, false).unwrap();
    assert_eq!(pass.stage, PassStage::Measuring);
    let (pass, action) = pass.advance(&mut registry, Outcome::Done);
    assert_eq!(pass.stage, PassStage::Closed);
    assert_eq!(action, Action::Abort { error: BridgeError::Logic, rollback: vec![] });
}

#[test]
fn candidates_that_are_passed_over_leave_the_registry_empty() {
    let mut registry = WindowRegistry::new();
    let mut world = World::new(Geometry { x: -50, y: 10, width: 40, height: 40 });
    assert_eq!(world.map(&mut registry, "1"), MapAction::Ignored(IgnoreReason::Offscreen));
    world.geometry = window_at(300, 200);
    world.info.mapped = false;
    assert_eq!(world.map(&mut registry, "2"), MapAction::Ignored(IgnoreReason::Unmapped));
    world.info.mapped = true;
    world.info.kind = "dock".to_string();
    assert_eq!(world.map(&mut registry, "3"), MapAction::Ignored(IgnoreReason::NotNormal));
    assert_eq!(registry.len(), 0);
    assert!(world.scenes.is_empty());
}

#[test]
fn unmapped_window_with_a_malformed_id_is_passed_over() {
    let mut registry = WindowRegistry::new();
    let mut world = World::new(window_at(300, 200));
    world.info.mapped = false;
    assert_eq!(world.map(&mut registry, "frame"), MapAction::Ignored(IgnoreReason::Unmapped));
}

#[test]
fn malformed_id_is_a_registry_error() {
    let mut registry = WindowRegistry::new();
    let mut world = World::new(window_at(300, 200));
    let expected =
        MapAction::Abort { error: BridgeError::Registry, created_scene: None, created_damage: None, rollback: vec![] };
    assert_eq!(world.map(&mut registry, "frame"), expected);
    assert_eq!(world.map(&mut registry, "-7"), expected);
    assert_eq!(registry.len(), 0);
}

#[test]
fn mapping_a_window_twice_is_a_duplicate() {
    let mut registry = WindowRegistry::new();
    let mut world = World::new(window_at(300, 200));
    assert_eq!(world.map(&mut registry, "1234"), MapAction::Mapped { window: 1234 });
    let before = registry.get(1234);
    assert_eq!(
        world.map(&mut registry, "1234"),
        MapAction::Abort {
            error: BridgeError::DuplicateWindow,
            created_scene: Some(8234),
            created_damage: Some(1734),
            rollback: vec![],
        }
    );
    assert_eq!(registry.len(), 1);
    assert_eq!(registry.get(1234), before);
    assert_eq!(world.map(&mut registry, "0x4d2"), MapAction::Abort {
        error: BridgeError::DuplicateWindow,
        created_scene: Some(8234),
        created_damage: Some(1734),
        rollback: vec![],
    });
}

#[test]
fn windows_are_stacked_in_the_order_of_enumeration() {
    let mut registry = WindowRegistry::new();
    let mut world = World::new(window_at(300, 200));
    for id in ["5", "3", "9"] {
        assert!(matches!(world.map(&mut registry, id), MapAction::Mapped { .. }));
    }
    let depths: Vec<(u64, i64)> =
        world.placements.iter().map(|(scene, place)| (*scene, place.depth_steps)).collect();
    assert_eq!(depths, vec![(7005, -24), (7003, -23), (7009, -22)]);
    assert_eq!(registry.len(), 3);
}

#[test]
fn failure_while_mapping_names_what_to_drop() {
    let mut registry = WindowRegistry::new();
    let (pass, action) = MapPass::begin("12");
    assert_eq!(pass.stage, MapStage::Inquiring { handle: Some(12) });
    assert_eq!(action, MapAction::FetchInfo);
    let (closed, action) = pass.advance(&mut registry, MapOutcome::Failed(BridgeError::Registry));
    assert_eq!(closed.stage, MapStage::Closed);
    assert_eq!(
        action,
        MapAction::Abort { error: BridgeError::Registry, created_scene: None, created_damage: None, rollback: vec![] }
    );
    let placing = MapPass {
        stage: MapStage::Placing { window: 12, geometry: window_at(300, 200), scene: 70 },
        title: "editor".to_string(),
    };
    let (after, action) = placing.advance(&mut registry, MapOutcome::Done);
    assert_eq!(action, MapAction::RegisterDamage { window: 12, level: ReportLevel::NonEmpty });
    assert_eq!(after.title, "editor");
    let subscribing = MapPass {
        stage: MapStage::Subscribing { window: 12, geometry: window_at(300, 200), scene: 70 },
        title: "editor".to_string(),
    };
    let (_, action) =
        subscribing.clone().advance(&mut registry, MapOutcome::Failed(BridgeError::Protocol));
    assert_eq!(
        action,
        MapAction::Abort {
            error: BridgeError::Protocol,
            created_scene: Some(70),
            created_damage: None,
            rollback: vec![],
        }
    );
    let (_, action) = subscribing.advance(&mut registry, MapOutcome::Scene(3));
    assert_eq!(
        action,
        MapAction::Abort { error: BridgeError::Logic, created_scene: Some(70), created_damage: None, rollback: vec![] }
    );
    assert_eq!(registry.len(), 0);
}

#[test]
fn failed_first_render_leaves_the_window_tracked_without_a_chain() {
    let mut registry = WindowRegistry::new();
    let mut world = World::new(window_at(300, 200));
    world.fail_allocation = true;
    let done = world.map(&mut registry, "1234");
    match done {
        MapAction::Abort { error, created_scene: scene, created_damage: damage, rollback } => {
            assert_eq!(error, BridgeError::Gpu);
            assert_eq!((scene, damage), (None, None));
            assert_eq!(rollback.len(), 2);
        }
        other => panic!("{:?}", other),
    }
    assert_eq!(registry.get(1234).unwrap().state(), TextureState::Absent);
    world.fail_allocation = false;
    assert_eq!(world.render(&mut registry, 1234), Ok(()));
    assert_eq!(registry.get(1234).unwrap().state(), TextureState::Ready);
}

#[test]
fn compositor_names() {
    assert_eq!(service_name("_0"), "com.github.chjj.compton._0");
    assert_eq!(windows_path(), "/com/github/chjj/compton/windows");
    assert_eq!(window_path("0x1a0000b"), "/com/github/chjj/compton/windows/0x1a0000b");
}

#[test]
fn scene_window_is_created_under_the_title_the_compositor_told() {
    let mut registry = WindowRegistry::new();
    let (pass, _) = MapPass::begin("12");
    assert_eq!(pass.title, "");
    let info = WindowInfo { mapped: true, kind: "normal".to_string(), title: "editor".to_string() };
    let (pass, action) = pass.advance(&mut registry, MapOutcome::Info(info));
    assert_eq!(action, MapAction::QueryRootGeometry);
    assert_eq!(pass.title, "editor");
    let root = Geometry { x: 0, y: 0, width: 1920, height: 1080 };
    let (pass, action) = pass.advance(&mut registry, MapOutcome::Geometry(root));
    assert_eq!(action, MapAction::QueryGeometry { window: 12 });
    let (pass, action) = pass.advance(&mut registry, MapOutcome::Geometry(window_at(300, 200)));
    assert_eq!(
        action,
        MapAction::CreateSceneWindow {
            window: 12,
            title: "editor".to_string(),
            request: SceneRequest { width: 300, height: 200, pixels_per_meter: 900 },
        }
    );
    let (pass, action) = pass.advance(&mut registry, MapOutcome::Scene(70));
    assert_eq!(
        action,
        MapAction::Place {
            scene: 70,
            placement: Placement { x_pixels: -710, y_pixels: -610, depth_steps: -24 },
        }
    );
    let (pass, action) = pass.advance(&mut registry, MapOutcome::Done);
    assert_eq!(action, MapAction::RegisterDamage { window: 12, level: ReportLevel::NonEmpty });
    let (pass, action) = pass.advance(&mut registry, MapOutcome::Damage(80));
    assert_eq!(action, MapAction::Render(Action::QueryGeometry { window: 12 }));
    assert!(matches!(pass.stage, MapStage::Rendering { .. }));
    assert_eq!(registry.get(12).unwrap().damage, 80);
    assert_eq!(registry.get(12).unwrap().scene, 70);
}

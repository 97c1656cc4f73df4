use vstd::prelude::*;
use std::collections::HashMap;
use crate::error::BridgeError;
use crate::geometry::{Geometry, Placement, PIXELS_PER_METER};
use crate::texture::{Release, TextureSet};
use crate::window::{RefreshPlan, TrackedWindow};

verus! {

broadcast use vstd::std_specs::hash::group_hash_axioms;

/// What the compositor says of a window.
#[derive(Clone, Debug)]
pub struct WindowInfo {
    pub mapped: bool,
    pub kind: String,
    pub title: String,
}

/// Why a candidate window is not tracked.
#[derive(Clone, Copy, Debug, PartialEq, Eq, Structural)]
pub enum IgnoreReason {
    /// The compositor reports it as not mapped.
    Unmapped,
    /// Its type is not "normal".
    NotNormal,
    /// It lies entirely outside the screen.
    Offscreen,
}

/// Leave to register one window. Only `WindowRegistry::decide` gives it,
/// and only for a window that is to be tracked.
#[derive(Debug)]
pub struct Admission {
    id: u32,
    geometry: Geometry,
    placement: Placement,
}

/// What becomes of a candidate window.
#[derive(Debug)]
pub enum MapDecision {
    /// The window is passed over. This is no error.
    Ignore(IgnoreReason),
    /// The window is to be tracked.
    Track(Admission),
}

/// What the scene graph needs to create a window's representation.
#[derive(Clone, Copy, Debug, PartialEq, Eq, Structural)]
pub struct SceneRequest {
    pub width: u32,
    pub height: u32,
    pub pixels_per_meter: u32,
}

/// What is left of a window that is no longer tracked.
#[derive(Debug, PartialEq, Eq)]
pub struct Removal {
    /// The scene representation to drop.
    pub scene: u64,
    /// The damage tracking to end.
    pub damage: u32,
    /// The resources of the window's chain, in the order of their release.
    pub releases: Vec<Release>,
}

/// The live windows, by handle.
pub struct WindowRegistry {
    windows: HashMap<u32, TrackedWindow>,
}

/// The first reason to pass a candidate over, if there is one: it is not
/// mapped, else its type is not "normal", else it is off the screen.
pub open spec fn ignore_reason(info: WindowInfo, geometry: Geometry, root: Geometry) -> Option<
    IgnoreReason,
> {
    if !info.mapped {
        Some(IgnoreReason::Unmapped)
    } else if !info.normal() {
        Some(IgnoreReason::NotNormal)
    } else if geometry.offscreen(root) {
        Some(IgnoreReason::Offscreen)
    } else {
        None
    }
}

/// A window as it is when it has just been registered.
pub open spec fn newcomer(id: u32, damage: u32, geometry: Geometry, scene: u64) -> TrackedWindow {
    TrackedWindow {
        id,
        damage,
        width: geometry.width,
        height: geometry.height,
        scene,
        textures: None,
    }
}

/// Whether a window can be registered under `id`.
pub open spec fn registration(windows: Map<u32, TrackedWindow>, id: u32) -> Result<
    (),
    BridgeError,
> {
    if windows.contains_key(id) {
        Err(BridgeError::DuplicateWindow)
    } else {
        Ok(())
    }
}

/// The tracked windows after an attempt to register `window`.
pub open spec fn with_window(
    windows: Map<u32, TrackedWindow>,
    window: TrackedWindow,
) -> Map<u32, TrackedWindow> {
    if windows.contains_key(window.id) {
        windows
    } else {
        windows.insert(window.id, window)
    }
}

impl WindowInfo {
    /// The window's type is "normal".
    pub open spec fn normal(self) -> bool {
        self.kind@ == "normal"@
    }

    pub fn is_normal(&self) -> (out: bool)
        ensures
            out == self.normal(),
    {
        let normal: String = "normal".to_owned();
        self.kind == normal
    }

    /// Whether the compositor's answer alone rules the window out, before
    /// its geometry is asked for.
    pub fn ruled_out(&self) -> (out: Option<IgnoreReason>)
        ensures
            out == (if !self.mapped {
                Some(IgnoreReason::Unmapped)
            } else if !self.normal() {
                Some(IgnoreReason::NotNormal)
            } else {
                None
            }),
    {
        if !self.mapped {
            Some(IgnoreReason::Unmapped)
        } else if !self.is_normal() {
            Some(IgnoreReason::NotNormal)
        } else {
            None
        }
    }
}

impl Admission {
    pub closed spec fn window(self) -> u32 {
        self.id
    }

    pub closed spec fn reported(self) -> Geometry {
        self.geometry
    }

    pub closed spec fn place(self) -> Placement {
        self.placement
    }

    /// The handle of the window to register.
    pub fn id(&self) -> (out: u32)
        ensures
            out == self.window(),
    {
        self.id
    }

    /// The geometry at which the window was admitted.
    pub fn geometry(&self) -> (out: Geometry)
        ensures
            out == self.reported(),
    {
        self.geometry
    }

    /// Where the window goes in the scene.
    pub fn placement(&self) -> (out: Placement)
        ensures
            out == self.place(),
    {
        self.placement
    }

    /// Size and scale with which the window's scene representation is made.
    pub fn scene_request(&self) -> (out: SceneRequest)
        ensures
            out == (SceneRequest {
                width: self.reported().width as u32,
                height: self.reported().height as u32,
                pixels_per_meter: PIXELS_PER_METER,
            }),
    {
        SceneRequest {
            width: self.geometry.width as u32,
            height: self.geometry.height as u32,
            pixels_per_meter: PIXELS_PER_METER,
        }
    }
}

impl View for WindowRegistry {
    type V = Map<u32, TrackedWindow>;

    closed spec fn view(&self) -> Map<u32, TrackedWindow> {
        self.windows@
    }
}

impl WindowRegistry {
    /// Every window is filed under its own handle and is sound, so no two
    /// tracked windows share a handle.
    pub open spec fn wf(self) -> bool {
        &&& self@.dom().finite()
        &&& forall|id: u32| #[trigger]
            self@.contains_key(id) ==> self@[id].id == id && self@[id].wf()
    }

    pub fn new() -> (out: WindowRegistry)
        ensures
            out@ == Map::<u32, TrackedWindow>::empty(),
            out.wf(),
    {
        WindowRegistry { windows: HashMap::new() }
    }

    pub fn len(&self) -> (out: usize)
        ensures
            out == self@.len(),
    {
        self.windows.len()
    }

    pub fn is_empty(&self) -> (out: bool)
        requires
            self.wf(),
        ensures
            out == (self@.len() == 0),
            out == (self@ =~= Map::<u32, TrackedWindow>::empty()),
    {
        let count: usize = self.windows.len();
        proof {
            if self@.len() == 0 {
                self@.dom().lemma_len0_is_empty();
                assert(self@ =~= Map::<u32, TrackedWindow>::empty());
            }
        }
        count == 0
    }

    pub fn contains(&self, id: u32) -> (out: bool)
        ensures
            out == self@.contains_key(id),
    {
        self.windows.contains_key(&id)
    }

    /// The window tracked under `id`, if there is one.
    pub fn get(&self, id: u32) -> (out: Option<TrackedWindow>)
        ensures
            out == (if self@.contains_key(id) {
                Some(self@[id])
            } else {
                None
            }),
    {
        match self.windows.get(&id) {
            Some(window) => Some(*window),
            None => None,
        }
    }

    /// Decides whether a candidate window is tracked. A window that is not
    /// mapped, whose type is not "normal" or that lies entirely outside
    /// the screen is passed over. One that is tracked gets its placement
    /// from its position and from the number of windows registered so far.
    pub fn decide(&self, id: u32, info: &WindowInfo, geometry: Geometry, root: Geometry) -> (out:
        MapDecision)
        requires
            self.wf(),
        ensures
            match out {
                MapDecision::Ignore(reason) => ignore_reason(*info, geometry, root) == Some(
                    reason,
                ),
                MapDecision::Track(admission) => {
                    &&& ignore_reason(*info, geometry, root) is None
                    &&& admission.window() == id
                    &&& admission.reported() == geometry
                    &&& admission.place() == geometry.placement(root, self@.len())
                },
            },
    {
        match info.ruled_out() {
            Some(reason) => MapDecision::Ignore(reason),
            None => {
                if geometry.is_offscreen(&root) {
                    MapDecision::Ignore(IgnoreReason::Offscreen)
                } else {
                    proof {
                        lemma_handles_are_bounded(self@.dom());
                    }
                    let placement = geometry.initial_placement(&root, self.windows.len());
                    MapDecision::Track(Admission { id, geometry, placement })
                }
            },
        }
    }

    /// Registers an admitted window with the handles of its scene
    /// representation and of its damage tracking. A handle that is tracked
    /// already is refused, and the registry stays as it was.
    pub fn register(&mut self, admission: Admission, scene: u64, damage: u32) -> (out: Result<
        (),
        BridgeError,
    >)
        requires
            old(self).wf(),
        ensures
            final(self).wf(),
            out == registration(old(self)@, admission.window()),
            final(self)@ == with_window(
                old(self)@,
                newcomer(admission.window(), damage, admission.reported(), scene),
            ),
            out is Err ==> final(self)@ == old(self)@,
            out is Ok ==> final(self)@.len() == old(self)@.len() + 1,
    {
        self.enter(TrackedWindow::new(admission.id, damage, admission.geometry, scene))
    }

    /// Files a window without a chain under its handle, unless the handle
    /// is taken.
    pub(crate) fn enter(&mut self, window: TrackedWindow) -> (out: Result<(), BridgeError>)
        requires
            old(self).wf(),
            window.textures is None,
        ensures
            final(self).wf(),
            out == registration(old(self)@, window.id),
            final(self)@ == with_window(old(self)@, window),
            out is Ok ==> final(self)@.len() == old(self)@.len() + 1,
    {
        if self.windows.contains_key(&window.id) {
            Err(BridgeError::DuplicateWindow)
        } else {
            self.windows.insert(window.id, window);
            Ok(())
        }
    }

    /// Takes a window out of the registry when the display server reports
    /// it destroyed. The window comes back so that its chain can be torn
    /// down.
    pub fn remove(&mut self, id: u32) -> (out: Option<TrackedWindow>)
        requires
            old(self).wf(),
        ensures
            final(self).wf(),
            final(self)@ == old(self)@.remove(id),
            out == (if old(self)@.contains_key(id) {
                Some(old(self)@[id])
            } else {
                None
            }),
    {
        self.windows.remove(&id)
    }

    /// Ends the tracking of a window: takes it out of the registry and says
    /// what is to be given back for it, its chain first, in the order of a
    /// teardown. A window that is not tracked is a logic error.
    pub fn remove_window(&mut self, id: u32) -> (out: Result<Removal, BridgeError>)
        requires
            old(self).wf(),
        ensures
            final(self).wf(),
            final(self)@ == old(self)@.remove(id),
            match out {
                Ok(removal) => {
                    &&& old(self)@.contains_key(id)
                    &&& removal.scene == old(self)@[id].scene
                    &&& removal.damage == old(self)@[id].damage
                    &&& removal.releases@ == match old(self)@[id].textures {
                        Some(set) => set.releases(),
                        None => Seq::<Release>::empty(),
                    }
                },
                Err(error) => !old(self)@.contains_key(id) && error == BridgeError::Logic,
            },
    {
        match self.windows.remove(&id) {
            Some(window) => {
                let mut window = window;
                let releases = window.teardown();
                Ok(Removal { scene: window.scene, damage: window.damage, releases })
            },
            None => Err(BridgeError::Logic),
        }
    }

    /// Begins the refresh of a tracked window. A window that is not tracked
    /// is a logic error.
    pub fn begin_refresh(&mut self, id: u32, geometry: Geometry) -> (out: Result<
        RefreshPlan,
        BridgeError,
    >)
        requires
            old(self).wf(),
        ensures
            final(self).wf(),
            match out {
                Ok(plan) => {
                    &&& old(self)@.contains_key(id)
                    &&& plan == old(self)@[id].plan(geometry.width, geometry.height)
                    &&& final(self)@ == old(self)@.insert(
                        id,
                        old(self)@[id].begun(geometry.width, geometry.height),
                    )
                    &&& plan matches RefreshPlan::Build { teardown, builder } ==> builder.wf()
                        && (teardown matches Some(set) ==> set.wf())
                },
                Err(error) => {
                    &&& !old(self)@.contains_key(id)
                    &&& error == BridgeError::Logic
                    &&& final(self)@ == old(self)@
                },
            },
    {
        match self.windows.remove(&id) {
            Some(window) => {
                let mut window = window;
                let plan = window.begin_refresh(geometry);
                self.windows.insert(id, window);
                assert(final(self)@ =~= old(self)@.insert(id, window));
                Ok(plan)
            },
            None => {
                assert(self@ =~= old(self)@);
                Err(BridgeError::Logic)
            },
        }
    }

    /// Ends the refresh of a tracked window with the chain that was built
    /// for it. It is a logic error if the window is not tracked or has a
    /// chain already, and a GPU error if the members of the chain differ
    /// in size; the registry then stays as it was.
    pub fn complete_refresh(&mut self, id: u32, set: TextureSet) -> (out: Result<(), BridgeError>)
        requires
            old(self).wf(),
        ensures
            final(self).wf(),
            out == (if !old(self)@.contains_key(id) || old(self)@[id].textures is Some {
                Err::<(), BridgeError>(BridgeError::Logic)
            } else if !set.wf() {
                Err::<(), BridgeError>(BridgeError::Gpu)
            } else {
                Ok(())
            }),
            out is Err ==> final(self)@ == old(self)@,
            out is Ok ==> final(self)@ == old(self)@.insert(
                id,
                (TrackedWindow { textures: Some(set), ..old(self)@[id] }),
            ),
    {
        let found = self.get(id);
        match found {
            Some(window) => {
                if window.textures.is_some() {
                    Err(BridgeError::Logic)
                } else if !set.is_consistent() {
                    Err(BridgeError::Gpu)
                } else {
                    let mut window = window;
                    window.complete_refresh(set);
                    self.windows.insert(id, window);
                    Ok(())
                }
            },
            None => Err(BridgeError::Logic),
        }
    }
}

/// There are no more handles than 32 bits can tell apart, so the number of
/// tracked windows is bounded.
pub proof fn lemma_handles_are_bounded(handles: Set<u32>)
    requires
        handles.finite(),
    ensures
        handles.len() <= 0x1_0000_0000,
{
    let number = |handle: u32| handle as int;
    let numbers = handles.map(number);
    let all = vstd::set_lib::set_int_range(0, 0x1_0000_0000);
    assert(vstd::relations::injective_on(number, handles));
    vstd::set_lib::lemma_map_size(handles, numbers, number);
    vstd::set_lib::lemma_int_range(0, 0x1_0000_0000);
    assert(numbers.subset_of(all)) by {
        assert forall|n: int| numbers.contains(n) implies all.contains(n) by {
            let handle = choose|handle: u32| handles.contains(handle) && number(handle) == n;
            assert(0 <= n < 0x1_0000_0000);
        }
    }
    vstd::set_lib::lemma_len_subset(numbers, all);
}

/// A window that lies entirely outside the screen is never admitted,
/// whatever the compositor says of it.
pub proof fn lemma_offscreen_is_ignored(info: WindowInfo, geometry: Geometry, root: Geometry)
    requires
        geometry.offscreen(root),
    ensures
        ignore_reason(info, geometry, root) is Some,
{
}

/// A window that the compositor reports as not mapped, or whose type is
/// not "normal", is never admitted, wherever it lies.
pub proof fn lemma_unmapped_or_special_is_ignored(
    info: WindowInfo,
    geometry: Geometry,
    root: Geometry,
)
    requires
        !info.mapped || info.kind@ != "normal"@,
    ensures
        ignore_reason(info, geometry, root) is Some,
        ignore_reason(info, geometry, root) != Some(IgnoreReason::Offscreen),
{
}

/// A window is admitted exactly when it is mapped, of type "normal" and
/// at least partly on the screen.
pub proof fn lemma_admitted_exactly(info: WindowInfo, geometry: Geometry, root: Geometry)
    ensures
        ignore_reason(info, geometry, root) is None <==> (info.mapped && info.normal()
            && !geometry.offscreen(root)),
{
}

/// Registering a handle twice fails the second time with
/// `DuplicateWindow`, and the second attempt changes neither the windows
/// tracked nor their number.
pub proof fn lemma_second_registration_is_refused(
    windows: Map<u32, TrackedWindow>,
    first: TrackedWindow,
    second: TrackedWindow,
)
    requires
        first.id == second.id,
    ensures
        registration(with_window(windows, first), second.id) == Err::<(), BridgeError>(
            BridgeError::DuplicateWindow,
        ),
        with_window(with_window(windows, first), second) == with_window(windows, first),
        with_window(with_window(windows, first), second).len() == with_window(
            windows,
            first,
        ).len(),
{
}

} // verus!

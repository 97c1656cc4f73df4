use vstd::prelude::*;
use crate::chain::ChainBuilder;
use crate::geometry::Geometry;
use crate::texture::{Release, Texture, TextureSet, TextureState};

verus! {

/// One desktop window that is mirrored into the scene.
#[derive(Clone, Copy, Debug, PartialEq, Eq, Structural)]
pub struct TrackedWindow {
    /// The display server's handle of the window.
    pub id: u32,
    /// The handle under which damage to the window is acknowledged.
    pub damage: u32,
    /// Size of the window at the last refresh.
    pub width: u16,
    pub height: u16,
    /// The window's representation in the scene graph.
    pub scene: u64,
    /// The texture chain, while one is live.
    pub textures: Option<TextureSet>,
}

/// What a refresh has to do.
#[derive(Clone, Copy, Debug, PartialEq, Eq, Structural)]
pub enum RefreshPlan {
    /// The chain has the window's size: nothing is allocated, the content
    /// is copied again.
    Reuse,
    /// A chain is to be built with `builder`, after the set in `teardown`,
    /// if there is one, has been released.
    Build { teardown: Option<TextureSet>, builder: ChainBuilder },
}

/// How a rendered frame reaches the scene graph.
#[derive(Clone, Copy, Debug, PartialEq, Eq, Structural)]
pub enum Submission {
    /// Register `remote` as the window's texture and submit it.
    SetAndSubmit { scene: u64, remote: Texture },
    /// Submit the texture that is registered already.
    Resubmit { scene: u64 },
}

impl RefreshPlan {
    /// Whether the refresh brings a new chain.
    pub open spec fn refreshed(self) -> bool {
        self is Build
    }

    /// Whether the refresh releases a chain.
    pub open spec fn tears_down(self) -> bool {
        self matches RefreshPlan::Build { teardown, .. } && teardown is Some
    }

    pub fn is_refresh(&self) -> (out: bool)
        ensures
            out == self.refreshed(),
    {
        match self {
            RefreshPlan::Reuse => false,
            RefreshPlan::Build { .. } => true,
        }
    }
}

impl TrackedWindow {
    /// A live chain is never partial and all its members share one size.
    pub open spec fn wf(self) -> bool {
        self.textures matches Some(set) ==> set.wf()
    }

    pub open spec fn texture_state(self) -> TextureState {
        if self.textures is Some {
            TextureState::Ready
        } else {
            TextureState::Absent
        }
    }

    /// The live chain was captured at the given size.
    pub open spec fn captured_at(self, width: u16, height: u16) -> bool {
        self.textures matches Some(set) && set.capture_texture.sized(width as int, height as int)
    }

    /// The plan of a refresh when the window is reported at the given size.
    pub open spec fn plan(self, width: u16, height: u16) -> RefreshPlan {
        if self.captured_at(width, height) {
            RefreshPlan::Reuse
        } else {
            RefreshPlan::Build {
                teardown: self.textures,
                builder: ChainBuilder::fresh(self.id, width, height),
            }
        }
    }

    /// The window once a refresh at the given size has begun.
    pub open spec fn begun(self, width: u16, height: u16) -> TrackedWindow {
        TrackedWindow {
            width,
            height,
            textures: if self.captured_at(width, height) {
                self.textures
            } else {
                None
            },
            ..self
        }
    }

    /// A window that has just been registered: it has its scene handle and
    /// no texture chain.
    pub fn new(id: u32, damage: u32, geometry: Geometry, scene: u64) -> (out: TrackedWindow)
        ensures
            out == (TrackedWindow {
                id,
                damage,
                width: geometry.width,
                height: geometry.height,
                scene,
                textures: None,
            }),
            out.wf(),
            out.texture_state() == TextureState::Absent,
    {
        TrackedWindow {
            id,
            damage,
            width: geometry.width,
            height: geometry.height,
            scene,
            textures: None,
        }
    }

    pub fn state(&self) -> (out: TextureState)
        ensures
            out == self.texture_state(),
    {
        if self.textures.is_some() {
            TextureState::Ready
        } else {
            TextureState::Absent
        }
    }

    /// Begins a refresh with the geometry that the display server reports
    /// now. The size compared with it is that of the last capture. Where
    /// they differ the old chain leaves the window and is handed out for
    /// release, and a builder for the new chain comes with it; where the
    /// window has no chain, only the builder.
    pub fn begin_refresh(&mut self, geometry: Geometry) -> (plan: RefreshPlan)
        requires
            old(self).wf(),
        ensures
            plan == old(self).plan(geometry.width, geometry.height),
            *final(self) == old(self).begun(geometry.width, geometry.height),
            final(self).wf(),
            plan matches RefreshPlan::Build { teardown, builder } ==> builder.wf() && (
            teardown matches Some(set) ==> set.wf()),
    {
        let reuse = match &self.textures {
            Some(set) => set.has_size(geometry.width, geometry.height),
            None => false,
        };
        self.width = geometry.width;
        self.height = geometry.height;
        if reuse {
            RefreshPlan::Reuse
        } else {
            let teardown = self.textures;
            self.textures = None;
            RefreshPlan::Build {
                teardown,
                builder: ChainBuilder::start(self.id, geometry.width, geometry.height),
            }
        }
    }

    /// Ends a refresh: the chain that was built becomes the window's.
    pub fn complete_refresh(&mut self, set: TextureSet)
        requires
            old(self).textures is None,
            set.wf(),
        ensures
            *final(self) == (TrackedWindow { textures: Some(set), ..*old(self) }),
            final(self).wf(),
            final(self).texture_state() == TextureState::Ready,
    {
        self.textures = Some(set);
    }

    /// Takes the window's chain away and says what to release, in order.
    /// Without a chain there is nothing to release.
    pub fn teardown(&mut self) -> (out: Vec<Release>)
        ensures
            *final(self) == (TrackedWindow { textures: None, ..*old(self) }),
            out@ == match old(self).textures {
                Some(set) => set.releases(),
                None => Seq::<Release>::empty(),
            },
    {
        let out = match &self.textures {
            Some(set) => set.release_order(),
            None => Vec::new(),
        };
        self.textures = None;
        out
    }

    /// Source and destination of the copy of the window's content, where
    /// the window has a chain.
    pub fn blit(&self) -> (out: Option<(Texture, Texture)>)
        requires
            self.wf(),
        ensures
            out == match self.textures {
                Some(set) => Some((set.capture_texture, set.imported_texture)),
                None => None,
            },
            out matches Some(pair) ==> pair.0.width == pair.1.width && pair.0.height
                == pair.1.height,
    {
        match &self.textures {
            Some(set) => Some(set.blit_pair()),
            None => None,
        }
    }

    /// How the frame is submitted after the copy: a new chain's remote
    /// texture is registered with the scene graph, an old one is submitted
    /// again as it is. Without a chain there is nothing to submit.
    pub fn submission(&self, refreshed: bool) -> (out: Option<Submission>)
        ensures
            out == match self.textures {
                Some(set) => Some(
                    if refreshed {
                        Submission::SetAndSubmit { scene: self.scene, remote: set.remote_texture }
                    } else {
                        Submission::Resubmit { scene: self.scene }
                    },
                ),
                None => None,
            },
    {
        match &self.textures {
            Some(set) => Some(
                if refreshed {
                    Submission::SetAndSubmit { scene: self.scene, remote: set.remote_texture }
                } else {
                    Submission::Resubmit { scene: self.scene }
                },
            ),
            None => None,
        }
    }
}

} // verus!

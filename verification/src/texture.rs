use vstd::prelude::*;
use crate::error::BridgeError;

verus! {

/// A GPU texture: the handle under which its context knows it, and its size
/// in pixels.
#[derive(Clone, Copy, Debug, PartialEq, Eq, Structural)]
pub struct Texture {
    pub handle: u64,
    pub width: u32,
    pub height: u32,
}

/// One resource to give back, and to whom.
#[derive(Clone, Copy, Debug, PartialEq, Eq, Structural)]
pub enum Release {
    /// A texture of the capturing GPU context.
    LocalTexture(Texture),
    /// A capture surface of the display server.
    Surface(u32),
    /// A texture of the scene's GPU context.
    RemoteTexture(Texture),
}

/// The state of a window's texture chain.
#[derive(Clone, Copy, Debug, PartialEq, Eq, Structural)]
pub enum TextureState {
    Absent,
    Binding,
    Ready,
}

/// The resources that carry one window's content into the scene.
#[derive(Clone, Copy, Debug, PartialEq, Eq, Structural)]
pub struct TextureSet {
    /// Display-server surface bound to the window's live content.
    pub capture_surface: u32,
    /// Texture of the capturing context over the capture surface.
    pub capture_texture: Texture,
    /// Texture of the scene's context, backed by shareable memory.
    pub remote_texture: Texture,
    /// Texture of the capturing context over that same memory.
    pub imported_texture: Texture,
}

impl Texture {
    pub open spec fn sized(self, width: int, height: int) -> bool {
        self.width == width && self.height == height
    }

    pub fn has_size(&self, width: u32, height: u32) -> (out: bool)
        ensures
            out == self.sized(width as int, height as int),
    {
        self.width == width && self.height == height
    }
}

impl TextureSet {
    /// Every texture of the set has the given size.
    pub open spec fn sized(self, width: int, height: int) -> bool {
        &&& self.capture_texture.sized(width, height)
        &&& self.remote_texture.sized(width, height)
        &&& self.imported_texture.sized(width, height)
    }

    /// All members share one size.
    pub open spec fn wf(self) -> bool {
        self.sized(self.capture_texture.width as int, self.capture_texture.height as int)
    }

    /// Everything the set owns, in the order in which it is given back.
    pub open spec fn releases(self) -> Seq<Release> {
        seq![
            Release::LocalTexture(self.capture_texture),
            Release::Surface(self.capture_surface),
            Release::RemoteTexture(self.remote_texture),
            Release::LocalTexture(self.imported_texture),
        ]
    }

    /// Puts a set together from its four members. A set whose textures
    /// differ in size is refused.
    pub fn assemble(
        capture_surface: u32,
        capture_texture: Texture,
        remote_texture: Texture,
        imported_texture: Texture,
    ) -> (out: Result<TextureSet, BridgeError>)
        ensures
            out == (if (TextureSet {
                capture_surface,
                capture_texture,
                remote_texture,
                imported_texture,
            }).wf() {
                Ok(
                    (TextureSet {
                        capture_surface,
                        capture_texture,
                        remote_texture,
                        imported_texture,
                    }),
                )
            } else {
                Err::<TextureSet, BridgeError>(BridgeError::Gpu)
            }),
    {
        let set = TextureSet { capture_surface, capture_texture, remote_texture, imported_texture };
        if set.is_consistent() {
            Ok(set)
        } else {
            Err(BridgeError::Gpu)
        }
    }

    pub fn is_consistent(&self) -> (out: bool)
        ensures
            out == self.wf(),
    {
        let width: u32 = self.capture_texture.width;
        let height: u32 = self.capture_texture.height;
        self.remote_texture.has_size(width, height) && self.imported_texture.has_size(
            width,
            height,
        )
    }

    /// Whether the set was captured at the given size. The size compared is
    /// that of the capture texture.
    pub fn has_size(&self, width: u16, height: u16) -> (out: bool)
        ensures
            out == self.capture_texture.sized(width as int, height as int),
            self.wf() ==> out == self.sized(width as int, height as int),
    {
        self.capture_texture.has_size(width as u32, height as u32)
    }

    /// The releases that tear the set down: capture texture, capture
    /// surface, remote texture, imported texture.
    pub fn release_order(&self) -> (out: Vec<Release>)
        ensures
            out@ == self.releases(),
    {
        let mut out: Vec<Release> = Vec::new();
        out.push(Release::LocalTexture(self.capture_texture));
        out.push(Release::Surface(self.capture_surface));
        out.push(Release::RemoteTexture(self.remote_texture));
        out.push(Release::LocalTexture(self.imported_texture));
        assert(out@ =~= self.releases());
        out
    }

    /// Source and destination of the copy that brings the window's content
    /// into the shared memory. Both have the same size.
    pub fn blit_pair(&self) -> (out: (Texture, Texture))
        requires
            self.wf(),
        ensures
            out.0 == self.capture_texture,
            out.1 == self.imported_texture,
            out.0.width == out.1.width,
            out.0.height == out.1.height,
    {
        (self.capture_texture, self.imported_texture)
    }
}

/// No resource is released twice by a teardown, provided that the set's
/// two local textures are different textures.
pub proof fn lemma_teardown_releases_each_once(set: TextureSet)
    requires
        set.capture_texture.handle != set.imported_texture.handle,
    ensures
        set.releases().len() == 4,
        set.releases().no_duplicates(),
{
}

} // verus!

use vstd::prelude::*;
use crate::error::BridgeError;
use crate::texture::{Release, Texture, TextureSet};

verus! {

/// How far the construction of a texture chain has come, with what it
/// holds so far.
#[derive(Clone, Copy, Debug, PartialEq, Eq, Structural)]
pub enum ChainStage {
    /// Nothing is held; a capture surface is to be created.
    NeedSurface,
    /// The surface exists; a texture is to be bound over it.
    NeedCapture { surface: u32, visual: u32 },
    /// The capture texture is bound; shareable memory is to be allocated.
    NeedRemote { surface: u32, capture: Texture },
    /// The memory is exported; it is to be imported into the capturing context.
    NeedImport { surface: u32, capture: Texture, remote: Texture, shared_handle: i32, size: u64 },
}

/// A texture chain under construction for one window at one size.
#[derive(Clone, Copy, Debug, PartialEq, Eq, Structural)]
pub struct ChainBuilder {
    pub window: u32,
    pub width: u16,
    pub height: u16,
    pub stage: ChainStage,
}

/// What the builder asks of the display server or of the GPU bridge next.
#[derive(Clone, Copy, Debug, PartialEq, Eq, Structural)]
pub enum ChainRequest {
    CreateCaptureSurface { window: u32 },
    BindCaptureTexture { surface: u32, visual: u32 },
    AllocateExportable { width: u32, height: u32 },
    ImportShared { width: u32, height: u32, shared_handle: i32, size: u64 },
}

/// What came back for a request.
#[derive(Clone, Copy, Debug, PartialEq, Eq, Structural)]
pub enum ChainReply {
    Surface { surface: u32, visual: u32 },
    Captured(Texture),
    Exported { remote: Texture, shared_handle: i32, size: u64 },
    Imported(Texture),
    Failed(BridgeError),
}

/// The builder after a reply.
#[derive(Debug)]
pub enum ChainProgress {
    /// The chain is not complete: the builder has more to ask.
    Pending(ChainBuilder),
    /// The chain is complete.
    Built(TextureSet),
    /// The chain cannot be built. Everything that was obtained for it is
    /// listed in `rollback`, to be released in that order.
    Aborted { error: BridgeError, rollback: Vec<Release> },
}

/// The mathematical value of a `ChainProgress`.
pub enum ProgressView {
    Pending(ChainBuilder),
    Built(TextureSet),
    Aborted { error: BridgeError, rollback: Seq<Release> },
}

impl View for ChainProgress {
    type V = ProgressView;

    open spec fn view(&self) -> ProgressView {
        match *self {
            ChainProgress::Pending(builder) => ProgressView::Pending(builder),
            ChainProgress::Built(set) => ProgressView::Built(set),
            ChainProgress::Aborted { error, rollback } => ProgressView::Aborted {
                error,
                rollback: rollback@,
            },
        }
    }
}

impl ChainStage {
    /// The resources held at this stage, in the order of a teardown.
    pub open spec fn held(self) -> Seq<Release> {
        match self {
            ChainStage::NeedSurface => seq![],
            ChainStage::NeedCapture { surface, .. } => seq![Release::Surface(surface)],
            ChainStage::NeedRemote { surface, capture } => seq![
                Release::LocalTexture(capture),
                Release::Surface(surface),
            ],
            ChainStage::NeedImport { surface, capture, remote, .. } => seq![
                Release::LocalTexture(capture),
                Release::Surface(surface),
                Release::RemoteTexture(remote),
            ],
        }
    }
}

impl ChainStage {
    /// Lists the resources held at this stage, in the order of a teardown.
    pub fn holdings(&self) -> (out: Vec<Release>)
        ensures
            out@ == self.held(),
    {
        let mut out: Vec<Release> = Vec::new();
        match *self {
            ChainStage::NeedSurface => {},
            ChainStage::NeedCapture { surface, .. } => {
                out.push(Release::Surface(surface));
            },
            ChainStage::NeedRemote { surface, capture } => {
                out.push(Release::LocalTexture(capture));
                out.push(Release::Surface(surface));
            },
            ChainStage::NeedImport { surface, capture, remote, .. } => {
                out.push(Release::LocalTexture(capture));
                out.push(Release::Surface(surface));
                out.push(Release::RemoteTexture(remote));
            },
        }
        assert(out@ =~= self.held());
        out
    }
}

impl ChainReply {
    /// The resource that a reply brings, if any.
    pub open spec fn delivered(self) -> Seq<Release> {
        match self {
            ChainReply::Surface { surface, .. } => seq![Release::Surface(surface)],
            ChainReply::Captured(texture) => seq![Release::LocalTexture(texture)],
            ChainReply::Exported { remote, .. } => seq![Release::RemoteTexture(remote)],
            ChainReply::Imported(texture) => seq![Release::LocalTexture(texture)],
            ChainReply::Failed(_) => seq![],
        }
    }
}

impl ChainBuilder {
    /// A builder that holds nothing yet.
    pub open spec fn fresh(window: u32, width: u16, height: u16) -> ChainBuilder {
        ChainBuilder { window, width, height, stage: ChainStage::NeedSurface }
    }

    pub open spec fn fits(self, texture: Texture) -> bool {
        texture.sized(self.width as int, self.height as int)
    }

    /// The request that belongs to the builder's stage.
    pub open spec fn request_spec(self) -> ChainRequest {
        match self.stage {
            ChainStage::NeedSurface => ChainRequest::CreateCaptureSurface { window: self.window },
            ChainStage::NeedCapture { surface, visual } => ChainRequest::BindCaptureTexture {
                surface,
                visual,
            },
            ChainStage::NeedRemote { .. } => ChainRequest::AllocateExportable {
                width: self.width as u32,
                height: self.height as u32,
            },
            ChainStage::NeedImport { shared_handle, size, .. } => ChainRequest::ImportShared {
                width: self.width as u32,
                height: self.height as u32,
                shared_handle,
                size,
            },
        }
    }

    /// Why a reply is refused at this stage, or `None` where it is taken.
    /// A reported failure is passed on; a texture of another size than the
    /// one asked for is a GPU error; a reply to a request that was not made
    /// is a logic error.
    pub open spec fn refusal(self, reply: ChainReply) -> Option<BridgeError> {
        match (self.stage, reply) {
            (_, ChainReply::Failed(error)) => Some(error),
            (ChainStage::NeedSurface, ChainReply::Surface { .. }) => None,
            (ChainStage::NeedCapture { .. }, ChainReply::Captured(texture)) => if self.fits(
                texture,
            ) {
                None
            } else {
                Some(BridgeError::Gpu)
            },
            (ChainStage::NeedRemote { .. }, ChainReply::Exported { remote, .. }) => if self.fits(
                remote,
            ) {
                None
            } else {
                Some(BridgeError::Gpu)
            },
            (ChainStage::NeedImport { .. }, ChainReply::Imported(texture)) => if self.fits(
                texture,
            ) {
                None
            } else {
                Some(BridgeError::Gpu)
            },
            _ => Some(BridgeError::Logic),
        }
    }

    /// What is to be released when a reply is refused: all that the builder
    /// holds and what the reply brought, a texture before the surface it is
    /// bound over.
    pub open spec fn rollback(self, reply: ChainReply) -> Seq<Release> {
        match (self.stage, reply) {
            (ChainStage::NeedCapture { surface, .. }, ChainReply::Captured(texture)) => seq![
                Release::LocalTexture(texture),
                Release::Surface(surface),
            ],
            _ => self.stage.held() + reply.delivered(),
        }
    }

    /// The builder's progress after a reply.
    pub open spec fn after(self, reply: ChainReply) -> ProgressView {
        match self.refusal(reply) {
            Some(error) => ProgressView::Aborted { error, rollback: self.rollback(reply) },
            None => match (self.stage, reply) {
                (ChainStage::NeedSurface, ChainReply::Surface { surface, visual }) => {
                    ProgressView::Pending(
                        ChainBuilder { stage: ChainStage::NeedCapture { surface, visual }, ..self },
                    )
                },
                (ChainStage::NeedCapture { surface, .. }, ChainReply::Captured(capture)) => {
                    ProgressView::Pending(
                        ChainBuilder { stage: ChainStage::NeedRemote { surface, capture }, ..self },
                    )
                },
                (
                    ChainStage::NeedRemote { surface, capture },
                    ChainReply::Exported { remote, shared_handle, size },
                ) => ProgressView::Pending(
                    ChainBuilder {
                        stage: ChainStage::NeedImport {
                            surface,
                            capture,
                            remote,
                            shared_handle,
                            size,
                        },
                        ..self
                    },
                ),
                (
                    ChainStage::NeedImport { surface, capture, remote, .. },
                    ChainReply::Imported(imported),
                ) => ProgressView::Built(
                    TextureSet {
                        capture_surface: surface,
                        capture_texture: capture,
                        remote_texture: remote,
                        imported_texture: imported,
                    },
                ),
                _ => arbitrary(),
            },
        }
    }

    /// The builder is sound: every texture it holds has the size that the
    /// chain is built for.
    pub open spec fn wf(self) -> bool {
        match self.stage {
            ChainStage::NeedSurface => true,
            ChainStage::NeedCapture { .. } => true,
            ChainStage::NeedRemote { capture, .. } => self.fits(capture),
            ChainStage::NeedImport { capture, remote, .. } => self.fits(capture) && self.fits(
                remote,
            ),
        }
    }

    /// Starts the construction of a chain for `window` at the given size.
    pub fn start(window: u32, width: u16, height: u16) -> (out: ChainBuilder)
        ensures
            out == ChainBuilder::fresh(window, width, height),
            out.wf(),
    {
        ChainBuilder { window, width, height, stage: ChainStage::NeedSurface }
    }

    /// The request to perform next.
    pub fn request(&self) -> (out: ChainRequest)
        ensures
            out == self.request_spec(),
    {
        match self.stage {
            ChainStage::NeedSurface => ChainRequest::CreateCaptureSurface { window: self.window },
            ChainStage::NeedCapture { surface, visual } => ChainRequest::BindCaptureTexture {
                surface,
                visual,
            },
            ChainStage::NeedRemote { .. } => ChainRequest::AllocateExportable {
                width: self.width as u32,
                height: self.height as u32,
            },
            ChainStage::NeedImport { shared_handle, size, .. } => ChainRequest::ImportShared {
                width: self.width as u32,
                height: self.height as u32,
                shared_handle,
                size,
            },
        }
    }

    /// Gives the chain up: lists what is held and what the reply brought.
    fn abort(&self, error: BridgeError, reply: ChainReply) -> (out: ChainProgress)
        ensures
            out@ == (ProgressView::Aborted { error, rollback: self.rollback(reply) }),
    {
        let mut rollback: Vec<Release> = Vec::new();
        match (self.stage, reply) {
            (ChainStage::NeedCapture { surface, .. }, ChainReply::Captured(texture)) => {
                rollback.push(Release::LocalTexture(texture));
                rollback.push(Release::Surface(surface));
            },
            _ => {
                rollback = self.stage.holdings();
                match reply {
                    ChainReply::Surface { surface, .. } => {
                        rollback.push(Release::Surface(surface));
                    },
                    ChainReply::Captured(texture) => {
                        rollback.push(Release::LocalTexture(texture));
                    },
                    ChainReply::Exported { remote, .. } => {
                        rollback.push(Release::RemoteTexture(remote));
                    },
                    ChainReply::Imported(texture) => {
                        rollback.push(Release::LocalTexture(texture));
                    },
                    ChainReply::Failed(_) => {},
                }
            },
        }
        assert(rollback@ =~= self.rollback(reply));
        ChainProgress::Aborted { error, rollback }
    }

    /// Takes the reply to the builder's request. The chain advances by one
    /// stage, is complete, or is given up with the list of what to release.
    pub fn supply(self, reply: ChainReply) -> (out: ChainProgress)
        requires
            self.wf(),
        ensures
            out@ == self.after(reply),
            out matches ChainProgress::Pending(next) ==> next.wf() && next.window == self.window
                && next.width == self.width && next.height == self.height,
            out matches ChainProgress::Built(set) ==> set.wf() && set.sized(
                self.width as int,
                self.height as int,
            ),
    {
        let width: u32 = self.width as u32;
        let height: u32 = self.height as u32;
        match (self.stage, reply) {
            (_, ChainReply::Failed(error)) => self.abort(error, reply),
            (ChainStage::NeedSurface, ChainReply::Surface { surface, visual }) => {
                ChainProgress::Pending(
                    ChainBuilder {
                        window: self.window,
                        width: self.width,
                        height: self.height,
                        stage: ChainStage::NeedCapture { surface, visual },
                    },
                )
            },
            (ChainStage::NeedCapture { surface, .. }, ChainReply::Captured(capture)) => {
                if capture.has_size(width, height) {
                    ChainProgress::Pending(
                        ChainBuilder {
                            window: self.window,
                            width: self.width,
                            height: self.height,
                            stage: ChainStage::NeedRemote { surface, capture },
                        },
                    )
                } else {
                    self.abort(BridgeError::Gpu, reply)
                }
            },
            (
                ChainStage::NeedRemote { surface, capture },
                ChainReply::Exported { remote, shared_handle, size },
            ) => {
                if remote.has_size(width, height) {
                    ChainProgress::Pending(
                        ChainBuilder {
                            window: self.window,
                            width: self.width,
                            height: self.height,
                            stage: ChainStage::NeedImport {
                                surface,
                                capture,
                                remote,
                                shared_handle,
                                size,
                            },
                        },
                    )
                } else {
                    self.abort(BridgeError::Gpu, reply)
                }
            },
            (
                ChainStage::NeedImport { surface, capture, remote, .. },
                ChainReply::Imported(imported),
            ) => {
                if imported.has_size(width, height) {
                    ChainProgress::Built(
                        TextureSet {
                            capture_surface: surface,
                            capture_texture: capture,
                            remote_texture: remote,
                            imported_texture: imported,
                        },
                    )
                } else {
                    self.abort(BridgeError::Gpu, reply)
                }
            },
            _ => self.abort(BridgeError::Logic, reply),
        }
    }
}

/// A chain is complete after exactly four accepted replies, one per stage:
/// the surface is created, the capture texture bound, the shareable memory
/// allocated once and imported once, in that order. The set that results
/// has the size asked for on every member.
pub proof fn lemma_chain_completes(
    window: u32,
    width: u16,
    height: u16,
    surface: u32,
    visual: u32,
    capture: Texture,
    remote: Texture,
    shared_handle: i32,
    size: u64,
    imported: Texture,
)
    requires
        capture.sized(width as int, height as int),
        remote.sized(width as int, height as int),
        imported.sized(width as int, height as int),
    ensures
        ({
            let first = ChainBuilder::fresh(window, width, height).after(
                ChainReply::Surface { surface, visual },
            );
            let second = first->Pending_0.after(ChainReply::Captured(capture));
            let third = second->Pending_0.after(
                ChainReply::Exported { remote, shared_handle, size },
            );
            let last = third->Pending_0.after(ChainReply::Imported(imported));
            &&& first is Pending
            &&& second is Pending
            &&& third is Pending
            &&& ChainBuilder::fresh(window, width, height).request_spec()
                == (ChainRequest::CreateCaptureSurface { window })
            &&& first->Pending_0.request_spec() == (ChainRequest::BindCaptureTexture {
                surface,
                visual,
            })
            &&& second->Pending_0.request_spec() == (ChainRequest::AllocateExportable {
                width: width as u32,
                height: height as u32,
            })
            &&& third->Pending_0.request_spec() == (ChainRequest::ImportShared {
                width: width as u32,
                height: height as u32,
                shared_handle,
                size,
            })
            &&& last == ProgressView::Built(
                TextureSet {
                    capture_surface: surface,
                    capture_texture: capture,
                    remote_texture: remote,
                    imported_texture: imported,
                },
            )
            &&& last->Built_0.sized(width as int, height as int)
        }),
{
}

/// When a chain is given up, nothing that was obtained for it stays
/// allocated: all that the builder held and what the refused reply brought
/// is in the rollback.
pub proof fn lemma_rollback_is_complete(builder: ChainBuilder, reply: ChainReply, item: Release)
    requires
        builder.refusal(reply) is Some,
        builder.stage.held().contains(item) || reply.delivered().contains(item),
    ensures
        builder.after(reply) is Aborted,
        builder.after(reply)->rollback.contains(item),
        builder.after(reply)->rollback.len() == builder.stage.held().len()
            + reply.delivered().len(),
{
    let held = builder.stage.held();
    let brought = reply.delivered();
    let all = builder.rollback(reply);
    if held.contains(item) {
        let i = choose|i: int| 0 <= i < held.len() && held[i] == item;
        if builder.stage is NeedCapture && reply is Captured {
            assert(all[1] == item);
        } else {
            assert(all[i] == item);
        }
    } else {
        let i = choose|i: int| 0 <= i < brought.len() && brought[i] == item;
        if builder.stage is NeedCapture && reply is Captured {
            assert(all[0] == item);
        } else {
            assert(all[held.len() + i] == item);
        }
    }
}

} // verus!

use vstd::prelude::*;
use crate::error::Error;
use crate::gfx::{Size, TextureFormat};
use crate::registry::GlobalKind;

verus! {

/// The DRM fourcc code of the one pixel format the import path supports.
pub const DRM_FORMAT_XRGB8888: u32 = 0x34325258;

/// The lifecycle of one capture: `Pending` from the capture request until the
/// compositor answers; `Ready` and `Failed` are terminal.
#[derive(Debug, Clone, Copy, PartialEq, Eq, Structural)]
pub enum ScreencopyState {
    Pending,
    Ready,
    Failed,
}

/// The target of a capture as most recently advertised by the compositor,
/// compared by equality to detect renegotiation.
#[derive(Debug, Clone, Copy, PartialEq, Eq, Structural)]
pub struct ScreencopyDmabufDescriptor {
    pub format: u32,
    pub width: u32,
    pub height: u32,
}

/// The GPU-side import of one captured frame. The GL texture, the platform
/// image wrapping it, and the protocol buffer object bound to its exported
/// memory are created together and must be destroyed together.
#[derive(Debug, Clone, Copy, PartialEq, Eq, Structural)]
pub struct ScreencopyDmabuf {
    pub gl_texture: u32,
    pub egl_image: u64,
    pub wl_buffer: u64,
}

/// The state after the compositor reports a finished capture: only a pending
/// capture becomes ready; terminal states stay what they are.
pub open spec fn ready_transition(s: ScreencopyState) -> ScreencopyState {
    match s {
        ScreencopyState::Pending => ScreencopyState::Ready,
        _ => s,
    }
}

/// The state after the compositor reports a failed capture: only a pending
/// capture becomes failed; terminal states stay what they are.
pub open spec fn failed_transition(s: ScreencopyState) -> ScreencopyState {
    match s {
        ScreencopyState::Pending => ScreencopyState::Failed,
        _ => s,
    }
}

/// Law: per capture, state transitions are monotonic. A pending capture moves
/// only to ready or failed, a ready capture never becomes pending again, and
/// a failed capture stays failed, whatever the compositor sends next.
pub proof fn lemma_capture_state_monotonic(s: ScreencopyState)
    ensures
        s is Pending ==> ready_transition(s) is Ready && failed_transition(s) is Failed,
        s is Ready ==> ready_transition(s) is Ready && failed_transition(s) is Ready,
        s is Failed ==> ready_transition(s) is Failed && failed_transition(s) is Failed,
        !(ready_transition(s) is Pending),
        !(failed_transition(s) is Pending),
{
}

/// Law: descriptors are equal exactly when all three of format, width and
/// height agree; differing in any field makes them unequal.
pub proof fn lemma_descriptor_equality(a: ScreencopyDmabufDescriptor, b: ScreencopyDmabufDescriptor)
    ensures
        (a == b) <==> (a.format == b.format && a.width == b.width && a.height == b.height),
{
}

/// Law: the import a collaborator can sample exists only once the capture has
/// reached the ready state; a pending or failed capture exposes nothing.
pub proof fn lemma_import_exposed_only_when_ready(s: Screencopy)
    ensures
        s.imported() is Some ==> s.state is Ready && s.dmabuf is Some,
{
}

/// What the next protocol request must be after a buffer-negotiation-complete
/// event.
#[derive(Debug, Clone, Copy, PartialEq, Eq, Structural)]
pub enum BufferDoneAction {
    /// The stored import is still valid: issue the copy request against its
    /// buffer object.
    CopyExisting(u64),
    /// No valid import exists: build one for this descriptor, attach it, and
    /// then copy.
    NeedsImport(ScreencopyDmabufDescriptor),
}

/// The capture request for one output, in wire order. The cursor is always
/// included.
#[derive(Debug, Clone, Copy, PartialEq, Eq, Structural)]
pub struct CaptureRequest {
    pub manager: u64,
    pub include_cursor: u32,
    pub output: u64,
}

/// The GL texture allocation implied by a descriptor: exactly the negotiated
/// width, height, and format triple, nothing else.
#[derive(Debug, Clone, Copy, PartialEq, Eq, Structural)]
pub struct TexturePlan {
    pub width: u32,
    pub height: u32,
    pub format: TextureFormat,
}

/// The arguments of the buffer-params registration, in the order the wire
/// contract fixes: file descriptor, plane index zero, offset, stride, and the
/// 64-bit modifier split into its high and low halves; then the buffer is
/// created with the descriptor's width, height, and format.
#[derive(Debug, Clone, Copy, PartialEq, Eq, Structural)]
pub struct DmabufBufferParams {
    pub fd: i32,
    pub plane_index: u32,
    pub offset: u32,
    pub stride: u32,
    pub modifier_hi: u32,
    pub modifier_lo: u32,
    pub width: u32,
    pub height: u32,
    pub format: u32,
}

/// Maps a descriptor to the GL texture to allocate for it. The only fourcc
/// the import path supports is `XRGB8888`, which imports as `Bgra8Unorm`; any
/// other format is an unsupported-format error carrying the fourcc.
pub fn plan_import_texture(desc: &ScreencopyDmabufDescriptor) -> (r: Result<TexturePlan, Error>)
    ensures
        desc.format == DRM_FORMAT_XRGB8888 ==> r == Ok::<TexturePlan, Error>(
            (TexturePlan {
                width: desc.width,
                height: desc.height,
                format: TextureFormat::Bgra8Unorm,
            }),
        ),
        desc.format != DRM_FORMAT_XRGB8888 ==> r == Err::<TexturePlan, Error>(
            Error::UnsupportedFormat(desc.format as u64),
        ),
{
    if desc.format == DRM_FORMAT_XRGB8888 {
        Ok(TexturePlan { width: desc.width, height: desc.height, format: TextureFormat::Bgra8Unorm })
    } else {
        Err(Error::UnsupportedFormat(desc.format as u64))
    }
}

/// Accepts an exported pixel layout only when it has exactly one plane;
/// anything else is an unsupported-format error carrying the plane count.
pub fn check_plane_count(num_planes: u32) -> (r: Result<(), Error>)
    ensures
        r is Ok <==> num_planes == 1,
        num_planes != 1 ==> r == Err::<(), Error>(Error::UnsupportedFormat(num_planes as u64)),
{
    if num_planes == 1 {
        Ok(())
    } else {
        Err(Error::UnsupportedFormat(num_planes as u64))
    }
}

/// Splits a 64-bit format modifier into the high and low 32-bit halves the
/// wire protocol wants; the halves recombine to the full value.
pub fn split_modifier(modifier: u64) -> (r: (u32, u32))
    ensures
        r.0 == modifier >> 32u64,
        r.1 == modifier & 0xFFFF_FFFFu64,
        (r.0 as u64) * 0x1_0000_0000 + (r.1 as u64) == modifier,
{
    let hi = (modifier >> 32) as u32;
    let lo = (modifier & 0xFFFF_FFFF) as u32;
    proof {
        assert((modifier >> 32u64) <= 0xFFFF_FFFF && (modifier & 0xFFFF_FFFFu64) <= 0xFFFF_FFFF
            && (modifier >> 32u64) * 0x1_0000_0000 + (modifier & 0xFFFF_FFFFu64) == modifier)
            by (bit_vector);
    }
    (hi, lo)
}

/// Assembles the buffer-params registration for a descriptor and the exported
/// file descriptor, offset, stride, and modifier. The texture and buffer use
/// exactly the triple of the most recent descriptor event.
pub fn build_buffer_params(
    desc: &ScreencopyDmabufDescriptor,
    fd: i32,
    offset: u32,
    stride: u32,
    modifier: u64,
) -> (r: DmabufBufferParams)
    ensures
        r == (DmabufBufferParams {
            fd,
            plane_index: 0u32,
            offset,
            stride,
            modifier_hi: (modifier >> 32u64) as u32,
            modifier_lo: (modifier & 0xFFFF_FFFFu64) as u32,
            width: desc.width,
            height: desc.height,
            format: desc.format,
        }),
{
    let (modifier_hi, modifier_lo) = split_modifier(modifier);
    proof {
        assert((modifier >> 32u64) <= 0xFFFF_FFFF && (modifier & 0xFFFF_FFFFu64) <= 0xFFFF_FFFF)
            by (bit_vector);
    }
    DmabufBufferParams {
        fd,
        plane_index: 0,
        offset,
        stride,
        modifier_hi,
        modifier_lo,
        width: desc.width,
        height: desc.height,
        format: desc.format,
    }
}

/// Per-output screen-capture state machine with zero-copy buffer import.
#[derive(Debug)]
pub struct Screencopy {
    /// The compositor output this capture targets.
    pub output: u64,
    pub state: ScreencopyState,
    pub dmabuf_desc: Option<ScreencopyDmabufDescriptor>,
    pub dmabuf: Option<ScreencopyDmabuf>,
}

impl Screencopy {
    /// An import can only exist for a negotiated descriptor.
    pub open spec fn wf(self) -> bool {
        self.dmabuf is Some ==> self.dmabuf_desc is Some
    }

    /// The texture a collaborator may sample: the import is exposed only once
    /// the capture is ready.
    pub open spec fn imported(self) -> Option<ScreencopyDmabuf> {
        if self.state is Ready {
            self.dmabuf
        } else {
            None
        }
    }

    pub fn new_boxed(output: u64) -> (r: Box<Screencopy>)
        ensures
            r.wf(),
            r.output == output,
            r.state is Pending,
            r.dmabuf_desc is None,
            r.dmabuf is None,
    {
        Box::new(
            Screencopy { output, state: ScreencopyState::Pending, dmabuf_desc: None, dmabuf: None },
        )
    }

    /// Builds the capture request for this output, or reports the screencopy
    /// manager missing. Nothing changes here; the compositor's answers drive
    /// the state. Capturing again while ready re-arms the same machine: the
    /// descriptor comparison decides whether the import survives, so an
    /// unchanged format causes no GPU churn.
    pub fn capture(&self, screencopy_manager: Option<u64>) -> (r: Result<CaptureRequest, Error>)
        ensures
            match screencopy_manager {
                Some(m) => r == Ok::<CaptureRequest, Error>(
                    (CaptureRequest { manager: m, include_cursor: 1u32, output: self.output }),
                ),
                None => r == Err::<CaptureRequest, Error>(
                    Error::ProtocolUnavailable(GlobalKind::ScreencopyManager),
                ),
            },
    {
        match screencopy_manager {
            Some(manager) => Ok(CaptureRequest { manager, include_cursor: 1, output: self.output }),
            None => Err(Error::ProtocolUnavailable(GlobalKind::ScreencopyManager)),
        }
    }

    /// Descriptor event: refreshes the capture target. A descriptor equal to
    /// the stored one changes nothing; a differing one replaces it and
    /// invalidates the import, which is rebuilt on the next
    /// buffer-negotiation-complete event, not here.
    pub fn on_linux_dmabuf(&mut self, format: u32, width: u32, height: u32)
        ensures
            final(self).wf(),
            ({
                let next = (ScreencopyDmabufDescriptor { format, width, height });
                if old(self).dmabuf_desc == Some(next) {
                    *final(self) == *old(self)
                } else {
                    *final(self) == (Screencopy {
                        dmabuf_desc: Some(next),
                        dmabuf: None,
                        ..*old(self)
                    })
                }
            }),
    {
        let next_desc = ScreencopyDmabufDescriptor { format, width, height };
        let keep: bool = match &self.dmabuf_desc {
            Some(prev_desc) => prev_desc.format == next_desc.format && prev_desc.width
                == next_desc.width && prev_desc.height == next_desc.height,
            None => false,
        };
        if keep {
            return ;
        }
        self.dmabuf_desc = Some(next_desc);
        self.dmabuf = None;
    }

    /// Buffer-negotiation-complete event: decides whether the stored import
    /// can be copied into directly or a new one must be built for the current
    /// descriptor. A buffer-done without a preceding descriptor event is a
    /// protocol violation and is excluded.
    pub fn on_buffer_done(&self) -> (r: BufferDoneAction)
        requires
            self.dmabuf_desc is Some,
        ensures
            match self.dmabuf {
                Some(d) => r == BufferDoneAction::CopyExisting(d.wl_buffer),
                None => r == BufferDoneAction::NeedsImport(self.dmabuf_desc->0),
            },
    {
        match &self.dmabuf {
            Some(d) => BufferDoneAction::CopyExisting(d.wl_buffer),
            None => {
                let desc = match &self.dmabuf_desc {
                    Some(desc) => *desc,
                    None => unreached(),
                };
                BufferDoneAction::NeedsImport(desc)
            },
        }
    }

    /// Stores a freshly built import for the current descriptor.
    pub fn attach_dmabuf(&mut self, dmabuf: ScreencopyDmabuf)
        requires
            old(self).dmabuf is None,
            old(self).dmabuf_desc is Some,
        ensures
            final(self).wf(),
            *final(self) == (Screencopy { dmabuf: Some(dmabuf), ..*old(self) }),
    {
        self.dmabuf = Some(dmabuf);
    }

    /// Ready event: the terminal success state, reached only from a pending
    /// capture.
    pub fn on_ready(&mut self)
        ensures
            *final(self) == (Screencopy { state: ready_transition(old(self).state), ..*old(self) }),
    {
        if let ScreencopyState::Pending = self.state {
            self.state = ScreencopyState::Ready;
        }
    }

    /// Failed event: the terminal failure state, reached only from a pending
    /// capture. It propagates as a hard error to the orchestrator; nothing
    /// retries.
    pub fn on_failed(&mut self)
        ensures
            *final(self) == (Screencopy { state: failed_transition(old(self).state), ..*old(self) }),
    {
        if let ScreencopyState::Pending = self.state {
            self.state = ScreencopyState::Failed;
        }
    }

    /// The captured texture and its size, available exactly when the capture
    /// is ready and an import exists.
    pub fn captured_texture(&self) -> (r: Option<(u32, Size)>)
        requires
            self.wf(),
        ensures
            match self.imported() {
                Some(d) => r == Some(
                    (
                        d.gl_texture,
                        (Size {
                            width: self.dmabuf_desc->0.width,
                            height: self.dmabuf_desc->0.height,
                        }),
                    ),
                ),
                None => r is None,
            },
    {
        match self.state {
            ScreencopyState::Ready => match (&self.dmabuf, &self.dmabuf_desc) {
                (Some(d), Some(desc)) => Some(
                    (d.gl_texture, Size { width: desc.width, height: desc.height }),
                ),
                _ => None,
            },
            _ => None,
        }
    }
}

} // verus!

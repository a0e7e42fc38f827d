use vstd::prelude::*;
use vstd::string::StrSliceExecFns;
use crate::error::Error;

verus! {

/// The registry globals this pipeline knows how to bind. Anything else is
/// ignored.
#[derive(Debug, Clone, Copy, PartialEq, Eq, Structural)]
pub enum GlobalKind {
    Compositor,
    DataDeviceManager,
    Output,
    Seat,
    Shm,
    FractionalScaleManager,
    Viewporter,
    LayerShell,
    ScreencopyManager,
    LinuxDmabuf,
    Unknown,
}

/// Which global an advertised interface name denotes.
pub open spec fn spec_classify_interface(name: Seq<char>) -> GlobalKind {
    if name == "wl_compositor"@ {
        GlobalKind::Compositor
    } else if name == "wl_data_device_manager"@ {
        GlobalKind::DataDeviceManager
    } else if name == "wl_output"@ {
        GlobalKind::Output
    } else if name == "wl_seat"@ {
        GlobalKind::Seat
    } else if name == "wl_shm"@ {
        GlobalKind::Shm
    } else if name == "wp_fractional_scale_manager_v1"@ {
        GlobalKind::FractionalScaleManager
    } else if name == "wp_viewporter"@ {
        GlobalKind::Viewporter
    } else if name == "zwlr_layer_shell_v1"@ {
        GlobalKind::LayerShell
    } else if name == "zwlr_screencopy_manager_v1"@ {
        GlobalKind::ScreencopyManager
    } else if name == "zwp_linux_dmabuf_v1"@ {
        GlobalKind::LinuxDmabuf
    } else {
        GlobalKind::Unknown
    }
}

/// Character-wise string equality.
fn str_eq(a: &str, b: &str) -> (r: bool)
    ensures
        r == (a@ == b@),
{
    let alen = a.unicode_len();
    let blen = b.unicode_len();
    if alen != blen {
        return false;
    }
    let mut i: usize = 0;
    while i < alen
        invariant
            i <= alen,
            alen == a@.len(),
            blen == b@.len(),
            alen == blen,
            forall|j: int| 0 <= j < i ==> a@[j] == b@[j],
        decreases alen - i,
    {
        if a.get_char(i) != b.get_char(i) {
            return false;
        }
        i += 1;
    }
    proof {
        assert(a@ =~= b@);
    }
    true
}

/// Maps an advertised interface name to the global it denotes.
pub fn classify_interface(name: &str) -> (r: GlobalKind)
    ensures
        r == spec_classify_interface(name@),
{
    if str_eq(name, "wl_compositor") {
        GlobalKind::Compositor
    } else if str_eq(name, "wl_data_device_manager") {
        GlobalKind::DataDeviceManager
    } else if str_eq(name, "wl_output") {
        GlobalKind::Output
    } else if str_eq(name, "wl_seat") {
        GlobalKind::Seat
    } else if str_eq(name, "wl_shm") {
        GlobalKind::Shm
    } else if str_eq(name, "wp_fractional_scale_manager_v1") {
        GlobalKind::FractionalScaleManager
    } else if str_eq(name, "wp_viewporter") {
        GlobalKind::Viewporter
    } else if str_eq(name, "zwlr_layer_shell_v1") {
        GlobalKind::LayerShell
    } else if str_eq(name, "zwlr_screencopy_manager_v1") {
        GlobalKind::ScreencopyManager
    } else if str_eq(name, "zwp_linux_dmabuf_v1") {
        GlobalKind::LinuxDmabuf
    } else {
        GlobalKind::Unknown
    }
}

/// The protocol manager handles resolved from the registry, each optional: a
/// required manager missing at first use is a fatal error at that use, never
/// a silent no-op. Outputs are append-only and fixed after the registry
/// roundtrip.
#[derive(Debug)]
pub struct Globals {
    pub compositor: Option<u64>,
    pub data_device_manager: Option<u64>,
    pub outputs: Vec<u64>,
    pub seat: Option<u64>,
    pub shm: Option<u64>,
    pub fractional_scale_manager: Option<u64>,
    pub viewporter: Option<u64>,
    pub layer_shell: Option<u64>,
    pub screencopy_manager: Option<u64>,
    pub linux_dmabuf: Option<u64>,
}

impl Globals {
    pub fn new() -> (r: Globals)
        ensures
            r.compositor is None,
            r.data_device_manager is None,
            r.outputs@.len() == 0,
            r.seat is None,
            r.shm is None,
            r.fractional_scale_manager is None,
            r.viewporter is None,
            r.layer_shell is None,
            r.screencopy_manager is None,
            r.linux_dmabuf is None,
    {
        Globals {
            compositor: None,
            data_device_manager: None,
            outputs: Vec::new(),
            seat: None,
            shm: None,
            fractional_scale_manager: None,
            viewporter: None,
            layer_shell: None,
            screencopy_manager: None,
            linux_dmabuf: None,
        }
    }

    /// Records one bound global. A repeated singleton global replaces the
    /// stored handle; an output appends; an unknown interface changes
    /// nothing.
    pub fn register(&mut self, kind: GlobalKind, handle: u64)
        ensures
            final(self).outputs@ == if kind is Output {
                old(self).outputs@.push(handle)
            } else {
                old(self).outputs@
            },
            final(self).compositor == if kind is Compositor {
                Some(handle)
            } else {
                old(self).compositor
            },
            final(self).data_device_manager == if kind is DataDeviceManager {
                Some(handle)
            } else {
                old(self).data_device_manager
            },
            final(self).seat == if kind is Seat {
                Some(handle)
            } else {
                old(self).seat
            },
            final(self).shm == if kind is Shm {
                Some(handle)
            } else {
                old(self).shm
            },
            final(self).fractional_scale_manager == if kind is FractionalScaleManager {
                Some(handle)
            } else {
                old(self).fractional_scale_manager
            },
            final(self).viewporter == if kind is Viewporter {
                Some(handle)
            } else {
                old(self).viewporter
            },
            final(self).layer_shell == if kind is LayerShell {
                Some(handle)
            } else {
                old(self).layer_shell
            },
            final(self).screencopy_manager == if kind is ScreencopyManager {
                Some(handle)
            } else {
                old(self).screencopy_manager
            },
            final(self).linux_dmabuf == if kind is LinuxDmabuf {
                Some(handle)
            } else {
                old(self).linux_dmabuf
            },
    {
        match kind {
            GlobalKind::Compositor => {
                self.compositor = Some(handle);
            },
            GlobalKind::DataDeviceManager => {
                self.data_device_manager = Some(handle);
            },
            GlobalKind::Output => {
                self.outputs.push(handle);
            },
            GlobalKind::Seat => {
                self.seat = Some(handle);
            },
            GlobalKind::Shm => {
                self.shm = Some(handle);
            },
            GlobalKind::FractionalScaleManager => {
                self.fractional_scale_manager = Some(handle);
            },
            GlobalKind::Viewporter => {
                self.viewporter = Some(handle);
            },
            GlobalKind::LayerShell => {
                self.layer_shell = Some(handle);
            },
            GlobalKind::ScreencopyManager => {
                self.screencopy_manager = Some(handle);
            },
            GlobalKind::LinuxDmabuf => {
                self.linux_dmabuf = Some(handle);
            },
            GlobalKind::Unknown => {},
        }
    }
}

/// Demands a manager that the next operation needs: a missing one is a fatal
/// unavailability error naming it, never a silent no-op.
pub fn require_global(handle: Option<u64>, kind: GlobalKind) -> (r: Result<u64, Error>)
    ensures
        match handle {
            Some(h) => r == Ok::<u64, Error>(h),
            None => r == Err::<u64, Error>(Error::ProtocolUnavailable(kind)),
        },
{
    match handle {
        Some(h) => Ok(h),
        None => Err(Error::ProtocolUnavailable(kind)),
    }
}

} // verus!

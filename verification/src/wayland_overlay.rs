use vstd::prelude::*;
use crate::error::Error;
use crate::gfx::{saturate_u32, scaled_to_physical, Size};
use crate::registry::{GlobalKind, Globals};

verus! {

/// Layer-shell protocol constants, as the protocol definition fixes them.
pub const LAYER_OVERLAY: u32 = 3;

pub const ANCHOR_TOP: u32 = 1;

pub const ANCHOR_BOTTOM: u32 = 2;

pub const ANCHOR_LEFT: u32 = 4;

pub const ANCHOR_RIGHT: u32 = 8;

pub const KEYBOARD_INTERACTIVITY_EXCLUSIVE: u32 = 1;

/// Everything the protocol-side construction of one overlay surface needs:
/// the four required managers and the parameters of the layer surface. The
/// layer surface is anchored to all four edges, refuses to be moved for other
/// surfaces, and takes exclusive keyboard focus; after setting it up the
/// caller must perform one initial commit with no buffer attached.
#[derive(Debug, Clone, Copy, PartialEq, Eq, Structural)]
pub struct OverlaySetup {
    pub compositor: u64,
    pub fractional_scale_manager: u64,
    pub layer_shell: u64,
    pub viewporter: u64,
    pub output: u64,
    pub layer: u32,
    pub namespace_overlay: bool,
    pub anchor: u32,
    pub exclusive_zone: i32,
    pub keyboard_interactivity: u32,
}

/// Checks the managers an overlay needs, in the order they are used, and
/// fixes the layer-surface parameters. A missing manager is fatal and names
/// itself; nothing is created partially.
pub fn plan_overlay_setup(globals: &Globals, output: u64) -> (r: Result<OverlaySetup, Error>)
    ensures
        globals.compositor is None ==> r == Err::<OverlaySetup, Error>(
            Error::ProtocolUnavailable(GlobalKind::Compositor),
        ),
        globals.compositor is Some && globals.fractional_scale_manager is None ==> r == Err::<
            OverlaySetup,
            Error,
        >(Error::ProtocolUnavailable(GlobalKind::FractionalScaleManager)),
        globals.compositor is Some && globals.fractional_scale_manager is Some
            && globals.layer_shell is None ==> r == Err::<OverlaySetup, Error>(
            Error::ProtocolUnavailable(GlobalKind::LayerShell),
        ),
        globals.compositor is Some && globals.fractional_scale_manager is Some
            && globals.layer_shell is Some && globals.viewporter is None ==> r == Err::<
            OverlaySetup,
            Error,
        >(Error::ProtocolUnavailable(GlobalKind::Viewporter)),
        globals.compositor is Some && globals.fractional_scale_manager is Some
            && globals.layer_shell is Some && globals.viewporter is Some ==> r == Ok::<
            OverlaySetup,
            Error,
        >(
            (OverlaySetup {
                compositor: globals.compositor->0,
                fractional_scale_manager: globals.fractional_scale_manager->0,
                layer_shell: globals.layer_shell->0,
                viewporter: globals.viewporter->0,
                output,
                layer: LAYER_OVERLAY,
                namespace_overlay: true,
                anchor: ANCHOR_TOP | ANCHOR_RIGHT | ANCHOR_BOTTOM | ANCHOR_LEFT,
                exclusive_zone: -1i32,
                keyboard_interactivity: KEYBOARD_INTERACTIVITY_EXCLUSIVE,
            }),
        ),
{
    let compositor = match globals.compositor {
        Some(c) => c,
        None => {
            return Err(Error::ProtocolUnavailable(GlobalKind::Compositor));
        },
    };
    let fractional_scale_manager = match globals.fractional_scale_manager {
        Some(f) => f,
        None => {
            return Err(Error::ProtocolUnavailable(GlobalKind::FractionalScaleManager));
        },
    };
    let layer_shell = match globals.layer_shell {
        Some(l) => l,
        None => {
            return Err(Error::ProtocolUnavailable(GlobalKind::LayerShell));
        },
    };
    let viewporter = match globals.viewporter {
        Some(v) => v,
        None => {
            return Err(Error::ProtocolUnavailable(GlobalKind::Viewporter));
        },
    };
    Ok(
        OverlaySetup {
            compositor,
            fractional_scale_manager,
            layer_shell,
            viewporter,
            output,
            layer: LAYER_OVERLAY,
            namespace_overlay: true,
            anchor: ANCHOR_TOP | ANCHOR_RIGHT | ANCHOR_BOTTOM | ANCHOR_LEFT,
            exclusive_zone: -1,
            keyboard_interactivity: KEYBOARD_INTERACTIVITY_EXCLUSIVE,
        },
    )
}

/// What the caller must do after a configure-state change.
#[derive(Debug, Clone, Copy, PartialEq, Eq, Structural)]
pub enum ConfigureAction {
    /// The first configure is not acknowledged yet, or no logical size is
    /// known: commit nothing.
    Wait,
    /// Create the native window and the window surface at this physical size,
    /// attach them, then set the viewport destination and commit.
    CreateWindowSurface { physical_size: Size, viewport_destination: Size },
    /// The window surface already exists and is never recreated: only set the
    /// viewport destination and commit.
    UpdateViewport { viewport_destination: Size },
}

/// Per-output overlay surface configuration state machine. Two independent
/// signals converge before the surface is usable: a preferred fractional
/// scale and an acknowledged configure carrying a logical size.
#[derive(Debug, Clone, Copy, PartialEq, Eq, Structural)]
pub struct Overlay {
    /// The compositor output this overlay covers.
    pub output: u64,
    /// The base protocol surface.
    pub surface: u64,
    /// The layer role object; absent once the overlay is hidden.
    pub layer_surface: Option<u64>,
    /// The viewport object positioning the surface.
    pub viewport: u64,
    /// The preferred scale as the numerator of a fraction over 120; absent
    /// until the compositor sends one, in which case the effective scale is
    /// 1.
    pub fractional_scale: Option<u32>,
    /// The logical size from the most recent configure event.
    pub logical_size: Option<Size>,
    /// Whether the first configure event has been acknowledged.
    pub acked_first_configure: bool,
    /// The native window, created exactly once.
    pub window: Option<u64>,
    /// The GPU window surface, created exactly once together with `window`.
    pub window_surface: Option<u64>,
}

/// One step of an overlay teardown.
#[derive(Debug, Clone, Copy, PartialEq, Eq, Structural)]
pub enum DestroyStep {
    WindowSurface(u64),
    Window(u64),
    Viewport(u64),
    LayerSurface(u64),
    Surface(u64),
}

impl Overlay {
    /// The window and its surface exist together, and only after the first
    /// configure was acknowledged with a logical size known.
    pub open spec fn wf(self) -> bool {
        &&& (self.window is Some <==> self.window_surface is Some)
        &&& (self.window is Some ==> self.acked_first_configure && self.logical_size is Some)
    }

    /// Merges whichever configure arguments are present into the stored
    /// state.
    pub open spec fn spec_merge(self, scale: Option<u32>, size: Option<Size>) -> Overlay {
        Overlay {
            fractional_scale: if scale is Some {
                scale
            } else {
                self.fractional_scale
            },
            logical_size: if size is Some {
                size
            } else {
                self.logical_size
            },
            ..self
        }
    }

    /// The scale numerator in effect: the preferred one, or 120 (scale 1) if
    /// none was ever received.
    pub open spec fn effective_scale_num(self) -> u32 {
        match self.fractional_scale {
            Some(n) => n,
            None => 120u32,
        }
    }

    pub fn new_boxed(output: u64, surface: u64, layer_surface: u64, viewport: u64) -> (r: Box<
        Overlay,
    >)
        ensures
            r.wf(),
            *r == (Overlay {
                output,
                surface,
                layer_surface: Some(layer_surface),
                viewport,
                fractional_scale: None,
                logical_size: None,
                acked_first_configure: false,
                window: None,
                window_surface: None,
            }),
    {
        Box::new(
            Overlay {
                output,
                surface,
                layer_surface: Some(layer_surface),
                viewport,
                fractional_scale: None,
                logical_size: None,
                acked_first_configure: false,
                window: None,
                window_surface: None,
            },
        )
    }
}

/// The reply to a configure event: acknowledge this serial, then act.
#[derive(Debug, Clone, Copy, PartialEq, Eq, Structural)]
pub struct ConfigureReply {
    pub ack_serial: u32,
    pub action: ConfigureAction,
}

/// The state and action a configure step produces: the merged state, and the
/// one thing the caller must do for it. A window surface is requested only
/// while none exists; later steps only reposition the viewport.
pub open spec fn configure_outcome(pre: Overlay, scale: Option<u32>, size: Option<Size>) -> (
    Overlay,
    ConfigureAction,
) {
    let m = pre.spec_merge(scale, size);
    if !m.acked_first_configure || m.logical_size is None {
        (m, ConfigureAction::Wait)
    } else {
        let ls = m.logical_size->0;
        let phys = (Size {
            width: saturate_u32(scaled_to_physical(ls.width, m.effective_scale_num())),
            height: saturate_u32(scaled_to_physical(ls.height, m.effective_scale_num())),
        });
        if m.window is None {
            (
                m,
                ConfigureAction::CreateWindowSurface {
                    physical_size: phys,
                    viewport_destination: ls,
                },
            )
        } else {
            (m, ConfigureAction::UpdateViewport { viewport_destination: ls })
        }
    }
}

impl Overlay {
    /// Merges whichever arguments are present and decides what to do: wait
    /// until the first acknowledged configure with a known logical size,
    /// create the window surface exactly once at the physical size the
    /// effective scale gives, and afterwards only reposition the viewport.
    fn configure(&mut self, scale: Option<u32>, size: Option<Size>) -> (r: ConfigureAction)
        requires
            old(self).wf(),
        ensures
            final(self).wf(),
            *final(self) == configure_outcome(*old(self), scale, size).0,
            r == configure_outcome(*old(self), scale, size).1,
    {
        if scale.is_some() {
            self.fractional_scale = scale;
        }
        if size.is_some() {
            self.logical_size = size;
        }

        if !self.acked_first_configure {
            return ConfigureAction::Wait;
        }
        let logical_size = match self.logical_size {
            Some(ls) => ls,
            None => {
                return ConfigureAction::Wait;
            },
        };
        let scale_num = match self.fractional_scale {
            Some(n) => n,
            None => 120,
        };
        let physical_size = logical_size.to_physical(scale_num);

        if self.window.is_none() {
            ConfigureAction::CreateWindowSurface {
                physical_size,
                viewport_destination: logical_size,
            }
        } else {
            ConfigureAction::UpdateViewport { viewport_destination: logical_size }
        }
    }

    /// Preferred-scale event: the numerator of a fraction over 120. A
    /// scale-only update never touches the window surface.
    pub fn on_preferred_scale(&mut self, scale_numerator: u32) -> (r: ConfigureAction)
        requires
            old(self).wf(),
        ensures
            final(self).wf(),
            *final(self) == configure_outcome(*old(self), Some(scale_numerator), None).0,
            r == configure_outcome(*old(self), Some(scale_numerator), None).1,
            final(self).window == old(self).window,
            final(self).window_surface == old(self).window_surface,
    {
        self.configure(Some(scale_numerator), None)
    }

    /// Configure event: acknowledge the serial, record that the first
    /// configure happened, merge the logical size, and decide what to do.
    pub fn on_configure(&mut self, serial: u32, width: u32, height: u32) -> (r: ConfigureReply)
        requires
            old(self).wf(),
        ensures
            final(self).wf(),
            final(self).acked_first_configure,
            r.ack_serial == serial,
            ({
                let pre = (Overlay { acked_first_configure: true, ..*old(self) });
                let (post, action) = configure_outcome(
                    pre,
                    None,
                    Some((Size { width, height })),
                );
                *final(self) == post && r.action == action
            }),
            final(self).window == old(self).window,
            final(self).window_surface == old(self).window_surface,
    {
        self.acked_first_configure = true;
        let action = self.configure(None, Some(Size { width, height }));
        ConfigureReply { ack_serial: serial, action }
    }

    /// Stores the window and window surface just created for this overlay.
    /// This is the only place they are set, so they are created exactly once
    /// per overlay lifetime, and only after the first acknowledged configure
    /// with a known logical size.
    pub fn attach_window_surface(&mut self, window: u64, window_surface: u64)
        requires
            old(self).wf(),
            old(self).window is None,
            old(self).acked_first_configure,
            old(self).logical_size is Some,
        ensures
            final(self).wf(),
            *final(self) == (Overlay {
                window: Some(window),
                window_surface: Some(window_surface),
                ..*old(self)
            }),
    {
        self.window = Some(window);
        self.window_surface = Some(window_surface);
    }

    /// What a collaborator draws against: the window surface, the logical
    /// size, and the effective fractional scale numerator, available exactly
    /// once the window surface exists.
    pub fn configured_overlay(&self) -> (r: Option<(u64, Size, u32)>)
        requires
            self.wf(),
        ensures
            match self.window_surface {
                Some(ws) => r == Some((ws, self.logical_size->0, self.effective_scale_num())),
                None => r is None,
            },
    {
        match (self.window_surface, self.logical_size) {
            (Some(ws), Some(ls)) => {
                let scale_num = match self.fractional_scale {
                    Some(n) => n,
                    None => 120,
                };
                Some((ws, ls, scale_num))
            },
            _ => None,
        }
    }

    /// Hides the overlay: gives up only the layer role object, keeping the
    /// base surface and all GPU resources alive. Returns the handle to
    /// destroy, if the overlay still had its role.
    pub fn hide_layer_surface(&mut self) -> (r: Option<u64>)
        requires
            old(self).wf(),
        ensures
            final(self).wf(),
            r == old(self).layer_surface,
            *final(self) == (Overlay { layer_surface: None, ..*old(self) }),
    {
        let r = self.layer_surface;
        self.layer_surface = None;
        r
    }

    /// The full teardown, in reverse creation order: window surface, native
    /// window, viewport, layer role object (if still present), base surface.
    pub fn teardown_plan(&self) -> (r: Vec<DestroyStep>)
        ensures
            r@ == spec_teardown(*self),
    {
        let mut steps: Vec<DestroyStep> = Vec::new();
        if let Some(ws) = self.window_surface {
            steps.push(DestroyStep::WindowSurface(ws));
        }
        if let Some(w) = self.window {
            steps.push(DestroyStep::Window(w));
        }
        steps.push(DestroyStep::Viewport(self.viewport));
        if let Some(l) = self.layer_surface {
            steps.push(DestroyStep::LayerSurface(l));
        }
        steps.push(DestroyStep::Surface(self.surface));
        proof {
            assert(steps@ =~= spec_teardown(*self));
        }
        steps
    }
}

/// The teardown sequence of an overlay, in reverse creation order.
pub open spec fn spec_teardown(o: Overlay) -> Seq<DestroyStep> {
    let a: Seq<DestroyStep> = if o.window_surface is Some {
        seq![DestroyStep::WindowSurface(o.window_surface->0)]
    } else {
        seq![]
    };
    let b: Seq<DestroyStep> = if o.window is Some {
        seq![DestroyStep::Window(o.window->0)]
    } else {
        seq![]
    };
    let c: Seq<DestroyStep> = if o.layer_surface is Some {
        seq![DestroyStep::LayerSurface(o.layer_surface->0)]
    } else {
        seq![]
    };
    a + b + seq![DestroyStep::Viewport(o.viewport)] + c + seq![DestroyStep::Surface(o.surface)]
}

/// The overlay state after a sequence of preferred-scale events.
pub open spec fn apply_scale_updates(o: Overlay, scales: Seq<u32>) -> Overlay
    decreases scales.len(),
{
    if scales.len() == 0 {
        o
    } else {
        apply_scale_updates(
            configure_outcome(o, Some(scales[0]), None).0,
            scales.drop_first(),
        )
    }
}

/// Law: any number of scale-only updates never changes the window surface,
/// the native window, the base surface, or any other object identity; only
/// the stored scale moves.
pub proof fn lemma_scale_updates_keep_window_identity(o: Overlay, scales: Seq<u32>)
    ensures
        apply_scale_updates(o, scales).window_surface == o.window_surface,
        apply_scale_updates(o, scales).window == o.window,
        apply_scale_updates(o, scales).surface == o.surface,
        apply_scale_updates(o, scales).layer_surface == o.layer_surface,
        apply_scale_updates(o, scales).viewport == o.viewport,
        apply_scale_updates(o, scales).logical_size == o.logical_size,
        apply_scale_updates(o, scales).acked_first_configure == o.acked_first_configure,
    decreases scales.len(),
{
    if scales.len() > 0 {
        lemma_scale_updates_keep_window_identity(
            configure_outcome(o, Some(scales[0]), None).0,
            scales.drop_first(),
        );
    }
}

/// Law: a well-formed overlay never has a window surface before the first
/// configure is acknowledged and a logical size is known.
pub proof fn lemma_window_surface_gated(o: Overlay)
    requires
        o.wf(),
    ensures
        o.window_surface is Some ==> o.acked_first_configure && o.logical_size is Some,
{
}

} // verus!

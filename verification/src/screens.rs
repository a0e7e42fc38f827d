use vstd::prelude::*;
use crate::error::Error;
use crate::wayland_overlay::Overlay;
use crate::wayland_screencopy::{Screencopy, ScreencopyState};

verus! {

/// Per-output state, held in a vector and addressed by index: the orchestrator
/// re-fetches a screen by index after any call that can re-enter dispatch and
/// never holds a borrow across one.
#[derive(Debug)]
pub struct Screen {
    pub output: u64,
    pub screencopy: Option<Box<Screencopy>>,
    pub overlay: Option<Box<Overlay>>,
}

/// Builds one screen per discovered output, in discovery order, with no
/// capture and no overlay yet.
pub fn init_screens(outputs: &Vec<u64>) -> (r: Vec<Screen>)
    ensures
        r@.len() == outputs@.len(),
        forall|i: int|
            0 <= i < r@.len() ==> (#[trigger] r@[i]).output == outputs@[i] && r@[i].screencopy
                is None && r@[i].overlay is None,
{
    let mut screens: Vec<Screen> = Vec::new();
    let mut i: usize = 0;
    while i < outputs.len()
        invariant
            i <= outputs@.len(),
            screens@.len() == i,
            forall|j: int|
                0 <= j < i ==> (#[trigger] screens@[j]).output == outputs@[j]
                    && screens@[j].screencopy is None && screens@[j].overlay is None,
        decreases outputs@.len() - i,
    {
        screens.push(Screen { output: outputs[i], screencopy: None, overlay: None });
        i += 1;
    }
    screens
}

/// Every screen has a capture attached.
pub open spec fn all_captures_present(screens: Seq<Screen>) -> bool {
    forall|i: int| 0 <= i < screens.len() ==> (#[trigger] screens[i]).screencopy is Some
}

/// The capture state of the screen at `i`.
pub open spec fn capture_state_at(screens: Seq<Screen>, i: int) -> ScreencopyState {
    screens[i].screencopy->0.state
}

/// How many of the first `upto` screens still have a pending capture.
pub open spec fn pending_captures_upto(screens: Seq<Screen>, upto: int) -> int
    decreases upto,
{
    if upto <= 0 {
        0
    } else {
        pending_captures_upto(screens, upto - 1) + if capture_state_at(screens, upto - 1)
            is Pending {
            1int
        } else {
            0int
        }
    }
}

/// One evaluation of the capture convergence barrier: scans all screens in
/// index order and fails on the first one whose capture reached the terminal
/// failed state, identifying it by index and rolling nothing back; otherwise
/// reports how many captures are still pending. The barrier is done when the
/// count reaches zero.
pub fn capture_poll_status(screens: &Vec<Screen>) -> (r: Result<usize, Error>)
    requires
        all_captures_present(screens@),
    ensures
        match r {
            Ok(pending) => pending == pending_captures_upto(screens@, screens@.len() as int)
                && forall|i: int|
                0 <= i < screens@.len() ==> !((#[trigger] screens@[i]).screencopy->0.state
                    is Failed),
            Err(e) => exists|i: int|
                0 <= i < screens@.len() && e == Error::CaptureFailed(i as usize)
                    && capture_state_at(screens@, i) is Failed && forall|j: int|
                    0 <= j < i ==> !((#[trigger] screens@[j]).screencopy->0.state is Failed),
        },
{
    let mut pending: usize = 0;
    let mut idx: usize = 0;
    while idx < screens.len()
        invariant
            all_captures_present(screens@),
            idx <= screens@.len(),
            pending == pending_captures_upto(screens@, idx as int),
            pending <= idx,
            forall|j: int| 0 <= j < idx ==> !((#[trigger] screens@[j]).screencopy->0.state is Failed),
        decreases screens@.len() - idx,
    {
        let state: &ScreencopyState = match &screens[idx].screencopy {
            Some(sc) => &sc.state,
            None => unreached(),
        };
        match state {
            ScreencopyState::Pending => {
                pending += 1;
            },
            ScreencopyState::Ready => {},
            ScreencopyState::Failed => {
                proof {
                    let wi = idx as int;
                    assert(capture_state_at(screens@, wi) is Failed);
                    assert(exists|i: int|
                        0 <= i < screens@.len() && Error::CaptureFailed(idx)
                            == Error::CaptureFailed(i as usize) && capture_state_at(screens@, i)
                            is Failed && forall|j: int|
                            0 <= j < i ==> !((#[trigger] screens@[j]).screencopy->0.state
                                is Failed)) by {
                        assert(0 <= wi < screens@.len() && Error::CaptureFailed(idx)
                            == Error::CaptureFailed(wi as usize) && capture_state_at(screens@, wi)
                            is Failed && forall|j: int|
                            0 <= j < wi ==> !((#[trigger] screens@[j]).screencopy->0.state
                                is Failed));
                    }
                }
                return Err(Error::CaptureFailed(idx));
            },
        }
        idx += 1;
    }
    Ok(pending)
}

/// Every screen has an overlay attached.
pub open spec fn all_overlays_present(screens: Seq<Screen>) -> bool {
    forall|i: int| 0 <= i < screens.len() ==> (#[trigger] screens[i]).overlay is Some
}

/// How many of the first `upto` screens have not acknowledged their first
/// configure yet.
pub open spec fn unconfigured_overlays_upto(screens: Seq<Screen>, upto: int) -> int
    decreases upto,
{
    if upto <= 0 {
        0
    } else {
        unconfigured_overlays_upto(screens, upto - 1) + if screens[upto - 1].overlay->0.acked_first_configure {
            0int
        } else {
            1int
        }
    }
}

/// One evaluation of the overlay convergence barrier: how many overlays still
/// wait for their first acknowledged configure. The barrier is done when the
/// count reaches zero.
pub fn overlay_poll_pending(screens: &Vec<Screen>) -> (r: usize)
    requires
        all_overlays_present(screens@),
    ensures
        r == unconfigured_overlays_upto(screens@, screens@.len() as int),
{
    let mut pending: usize = 0;
    let mut idx: usize = 0;
    while idx < screens.len()
        invariant
            all_overlays_present(screens@),
            idx <= screens@.len(),
            pending == unconfigured_overlays_upto(screens@, idx as int),
            pending <= idx,
        decreases screens@.len() - idx,
    {
        let acked: bool = match &screens[idx].overlay {
            Some(ov) => ov.acked_first_configure,
            None => unreached(),
        };
        if !acked {
            pending += 1;
        }
        idx += 1;
    }
    pending
}

/// Hides every overlay before a readback: takes each layer role object away,
/// in index order, returning the handles to destroy. Base surfaces, windows,
/// and GPU resources stay alive.
pub fn hide_all_overlays(screens: &mut Vec<Screen>) -> (r: Vec<u64>)
    requires
        all_overlays_present(old(screens)@),
        forall|i: int| 0 <= i < old(screens)@.len() ==> (#[trigger] old(screens)@[i]).overlay->0.wf(),
    ensures
        final(screens)@.len() == old(screens)@.len(),
        all_overlays_present(final(screens)@),
        forall|i: int|
            0 <= i < old(screens)@.len() ==> {
                let pre = (#[trigger] old(screens)@[i]);
                let post = final(screens)@[i];
                post.output == pre.output && post.screencopy == pre.screencopy && post.overlay
                    is Some && *post.overlay->0 == (Overlay {
                    layer_surface: None,
                    ..*pre.overlay->0
                })
            },
{
    let ghost orig = screens@;
    let mut handles: Vec<u64> = Vec::new();
    let mut idx: usize = 0;
    while idx < screens.len()
        invariant
            orig == old(screens)@,
            screens@.len() == orig.len(),
            idx <= orig.len(),
            forall|i: int| idx <= i < orig.len() ==> #[trigger] screens@[i] == orig[i],
            all_overlays_present(orig),
            forall|i: int| 0 <= i < orig.len() ==> (#[trigger] orig[i]).overlay->0.wf(),
            forall|i: int|
                0 <= i < idx ==> {
                    let pre = #[trigger] orig[i];
                    let post = screens@[i];
                    post.output == pre.output && post.screencopy == pre.screencopy && post.overlay
                        is Some && *post.overlay->0 == (Overlay {
                        layer_surface: None,
                        ..*pre.overlay->0
                    })
                },
        decreases orig.len() - idx,
    {
        let mut taken = screens[idx].overlay.take();
        match &mut taken {
            Some(overlay) => {
                if let Some(layer_surface) = overlay.hide_layer_surface() {
                    handles.push(layer_surface);
                }
            },
            None => {
                proof {
                    assert(orig[idx as int].overlay is Some);
                }
                unreached()
            },
        }
        screens[idx].overlay = taken;
        idx += 1;
    }
    proof {
        assert forall|i: int| 0 <= i < screens@.len() implies (#[trigger] screens@[i]).overlay
            is Some by {
            assert(orig[i].overlay is Some);
        }
    }
    handles
}

} // verus!

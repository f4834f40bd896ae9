use vstd::prelude::*;

use crate::handle::{dims_after_events, translate, HostEvent, ServoEvent, ServoHandle};
use crate::window::{target_after, FramebufferRequest, TextureResource};

verus! {

/// An event from the host's event queue.
#[derive(Clone, Copy, Debug, PartialEq, Eq, Structural)]
pub enum FrameEvent {
    /// The host's event loop was woken.
    Awakened,
    /// An event of the window.
    Window(HostEvent),
    /// An event of a device, not of the window.
    Device,
}

/// What one tick asks of the host: the framebuffer to allocate, if any, and
/// the events to hand the browser engine. The host hands them over on every
/// tick, an empty batch too, so that the engine runs even without input.
pub struct Tick {
    pub setup: Option<FramebufferRequest>,
    pub forwarded: Vec<ServoEvent>,
}

/// The window events among a tick's events, in order.
pub open spec fn window_events(events: Seq<FrameEvent>) -> Seq<HostEvent>
    decreases events.len(),
{
    if events.len() == 0 {
        Seq::empty()
    } else {
        let before = window_events(events.drop_last());
        match events.last() {
            FrameEvent::Window(e) => before.push(e),
            _ => before,
        }
    }
}

/// The target after a tick on which the host's texture asset is `asset`
/// (`None` while it is still loading).
pub open spec fn target_on_tick(target: Option<u32>, stale: bool, asset: Option<TextureResource>) -> Option<u32> {
    match asset {
        Some(t) => target_after(target, stale, t),
        None => target,
    }
}

/// The per-tick driver of the bridge. Until a framebuffer exists (unbound)
/// it sets the target from the texture asset and asks for the framebuffer,
/// one request at a time; on every tick it translates the window events.
pub struct ServoUiSystem {
    pub servo: ServoHandle,
    /// A framebuffer request is out, and its outcome not yet reported.
    pub setup_pending: bool,
}

impl ServoUiSystem {
    pub open spec fn wf(&self) -> bool {
        self.servo.window.wf()
    }

    /// Whether a tick with texture asset `asset` asks for a framebuffer:
    /// exactly when the driver is unbound, no request is out, and a target is
    /// set after the tick.
    pub open spec fn setup_requested(&self, asset: Option<TextureResource>) -> bool {
        &&& !self.setup_pending
        &&& self.servo.window.framebuffer() is None
        &&& target_on_tick(
            self.servo.window.target(),
            self.servo.window.target_stale(),
            asset,
        ) is Some
    }

    /// A driver for `servo`, with no request out.
    pub fn new(servo: ServoHandle) -> (r: ServoUiSystem)
        requires
            servo.window.wf(),
        ensures
            r.wf(),
            r.servo == servo,
            !r.setup_pending,
    {
        ServoUiSystem { servo, setup_pending: false }
    }

    /// One tick, with the texture asset as the host has it and the events
    /// queued since the last tick.
    pub fn run(&mut self, asset: Option<TextureResource>, events: Vec<FrameEvent>) -> (r: Tick)
        requires
            old(self).wf(),
        ensures
            final(self).wf(),
            r.setup is Some <==> old(self).setup_requested(asset),
            r.setup is Some ==> r.setup->Some_0 == (FramebufferRequest {
                texture: final(self).servo.window.target()->Some_0,
                width: old(self).servo.window.dims().0,
                height: old(self).servo.window.dims().1,
            }),
            final(self).setup_pending == (old(self).setup_pending || r.setup is Some),
            final(self).servo.window.target() == target_on_tick(
                old(self).servo.window.target(),
                old(self).servo.window.target_stale(),
                asset,
            ),
            r.forwarded@ == window_events(events@).map_values(|e: HostEvent| translate(e)),
            final(self).servo.window.dims() == dims_after_events(
                old(self).servo.window.dims(),
                old(self).servo.window.dims_stale(),
                window_events(events@),
            ),
            final(self).servo.window.dims_stale() == old(self).servo.window.dims_stale(),
            final(self).servo.window.target_stale() == old(self).servo.window.target_stale(),
            final(self).servo.window.framebuffer() == old(self).servo.window.framebuffer(),
            final(self).servo.window.framebuffer_stale() == old(
                self,
            ).servo.window.framebuffer_stale(),
            final(self).servo.window.bound() == old(self).servo.window.bound(),
    {
        let mut setup: Option<FramebufferRequest> = None;
        if let Some(t) = asset {
            if let Ok(false) = self.servo.window.has_target() {
                self.servo.window.set_target(t);
            }
        }
        if !self.setup_pending {
            setup = self.servo.window.framebuffer_request();
            if setup.is_some() {
                self.setup_pending = true;
            }
        }
        let mut window: Vec<HostEvent> = Vec::new();
        let mut i: usize = 0;
        while i < events.len()
            invariant
                i <= events@.len(),
                window@ == window_events(events@.take(i as int)),
            decreases events@.len() - i,
        {
            proof {
                assert(events@.take(i as int + 1).drop_last() =~= events@.take(i as int));
            }
            if let FrameEvent::Window(e) = events[i] {
                window.push(e);
            }
            i = i + 1;
        }
        proof {
            assert(events@.take(i as int) =~= events@);
        }
        let forwarded = self.servo.forward_events(window);
        Tick { setup, forwarded }
    }

    /// Takes the outcome of the framebuffer request of an earlier tick, as
    /// `ServoWindow::setup_framebuffer` does, and lets later ticks ask again
    /// where it failed.
    pub fn complete_setup(&mut self, framebuffer: u32, status: u32) -> (r: Result<(), u32>)
        requires
            old(self).wf(),
        ensures
            final(self).wf(),
            !final(self).setup_pending,
            r is Ok <==> (status == crate::window::FRAMEBUFFER_COMPLETE
                && old(self).servo.window.target() is Some
                && old(self).servo.window.framebuffer() is None
                && !old(self).servo.window.framebuffer_stale()),
            r is Ok ==> final(self).servo.window.framebuffer() == Some(framebuffer),
            r is Err ==> final(self).servo.window.framebuffer() == old(
                self,
            ).servo.window.framebuffer(),
            r is Err ==> r->Err_0 == (if status == crate::window::FRAMEBUFFER_COMPLETE {
                0
            } else {
                status
            }),
            final(self).servo.window.dims_stale() == old(self).servo.window.dims_stale(),
            final(self).servo.window.target_stale() == old(self).servo.window.target_stale(),
            final(self).servo.window.framebuffer_stale() == old(
                self,
            ).servo.window.framebuffer_stale(),
            final(self).servo.window.dims() == old(self).servo.window.dims(),
            final(self).servo.window.target() == old(self).servo.window.target(),
            final(self).servo.window.bound() == old(self).servo.window.bound(),
    {
        self.setup_pending = false;
        self.servo.window.setup_framebuffer(framebuffer, status)
    }
}

/// Framebuffer setup is asked for at most once at a time, and never again
/// once a framebuffer exists: a driver with a request out, or bound, asks
/// for none, whatever the texture asset.
pub proof fn lemma_setup_at_most_once(sys: ServoUiSystem, asset: Option<TextureResource>)
    ensures
        sys.setup_pending ==> !sys.setup_requested(asset),
        sys.servo.window.framebuffer() is Some ==> !sys.setup_requested(asset),
{
}

} // verus!

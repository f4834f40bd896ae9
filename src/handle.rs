use vstd::prelude::*;

use crate::window::{dims_after, ServoWindow};

verus! {

/// A window event of the host, as far as the bridge tells them apart.
#[derive(Clone, Copy, Debug, PartialEq, Eq, Structural)]
pub enum HostEvent {
    /// The window was resized to this width and height.
    Resized(u32, u32),
    /// Any other window event: input, focus, movement.
    Other,
}

/// A window event in the browser engine's vocabulary.
#[derive(Clone, Copy, Debug, PartialEq, Eq, Structural)]
pub enum ServoEvent {
    /// A heartbeat for a host event that the engine does not handle itself.
    Idle,
    /// The screen dimensions changed.
    Resize,
}

/// The browser engine's event for a host event.
pub open spec fn translate(e: HostEvent) -> ServoEvent {
    match e {
        HostEvent::Resized(_, _) => ServoEvent::Resize,
        HostEvent::Other => ServoEvent::Idle,
    }
}

/// The dimensions after `events` are applied in order to `dims`, in a slot
/// whose staleness is `stale`.
pub open spec fn dims_after_events(dims: (u32, u32), stale: bool, events: Seq<HostEvent>) -> (u32, u32)
    decreases events.len(),
{
    if events.len() == 0 {
        dims
    } else {
        let before = dims_after_events(dims, stale, events.drop_last());
        match events.last() {
            HostEvent::Resized(w, h) => dims_after(before, stale, (w, h)),
            HostEvent::Other => before,
        }
    }
}

/// Last write wins: after a run of host events, the dimensions are those of
/// the last resize among them, or the starting ones where there is none. A
/// stale slot keeps the starting ones.
pub proof fn lemma_last_resize_wins(dims: (u32, u32), stale: bool, events: Seq<HostEvent>)
    ensures
        stale ==> dims_after_events(dims, stale, events) == dims,
        (forall|j: int| 0 <= j < events.len() ==> events[j] is Other) ==> dims_after_events(
            dims,
            stale,
            events,
        ) == dims,
        forall|k: int|
            #![trigger events[k]]
            0 <= k < events.len() && events[k] is Resized && (forall|j: int|
                k < j < events.len() ==> events[j] is Other) && !stale ==> dims_after_events(
                dims,
                stale,
                events,
            ) == (events[k]->Resized_0, events[k]->Resized_1),
    decreases events.len(),
{
    if events.len() > 0 {
        let prefix = events.drop_last();
        lemma_last_resize_wins(dims, stale, prefix);
        assert forall|k: int|
            #![trigger events[k]]
            0 <= k < events.len() && events[k] is Resized && (forall|j: int|
                k < j < events.len() ==> events[j] is Other) && !stale implies dims_after_events(
                dims,
                stale,
                events,
            ) == (events[k]->Resized_0, events[k]->Resized_1) by {
            if k < events.len() - 1 {
                assert(prefix[k] == events[k]);
                assert forall|j: int| k < j < prefix.len() implies prefix[j] is Other by {
                    assert(prefix[j] == events[j]);
                }
            }
        }
        if forall|j: int| 0 <= j < events.len() ==> events[j] is Other {
            assert forall|j: int| 0 <= j < prefix.len() implies prefix[j] is Other by {
                assert(prefix[j] == events[j]);
            }
        }
    }
}

/// The bridge to the browser engine: the window that the engine renders
/// through, and the translation of host events for it.
pub struct ServoHandle {
    pub window: ServoWindow,
}

impl ServoHandle {
    /// The bridge's side of startup: a window whose dimensions are the host's
    /// screen size, with no target or framebuffer yet.
    pub fn start_servo(screen_width: u32, screen_height: u32) -> (r: ServoHandle)
        ensures
            r.window.wf(),
            r.window.dims() == (screen_width, screen_height),
            r.window.target() is None,
            r.window.framebuffer() is None,
            r.window.bound() == crate::window::DEFAULT_FRAMEBUFFER,
            !r.window.dims_stale(),
            !r.window.target_stale(),
            !r.window.framebuffer_stale(),
    {
        ServoHandle { window: ServoWindow::new(screen_width, screen_height) }
    }

    /// The events for a tick with no host input: none, so that the engine's
    /// scheduler runs without anything queued.
    pub fn update(&self) -> (r: Vec<ServoEvent>)
        ensures
            r@ == Seq::<ServoEvent>::empty(),
    {
        Vec::new()
    }

    /// Translates host events for the engine, one for one: a resize updates
    /// the shared dimensions and becomes `Resize`, any other event `Idle`.
    pub fn forward_events(&mut self, events: Vec<HostEvent>) -> (r: Vec<ServoEvent>)
        ensures
            r@ == events@.map_values(|e: HostEvent| translate(e)),
            final(self).window.dims() == dims_after_events(
                old(self).window.dims(),
                old(self).window.dims_stale(),
                events@,
            ),
            final(self).window.dims_stale() == old(self).window.dims_stale(),
            final(self).window.same_gpu_state(&old(self).window),
    {
        let mut out: Vec<ServoEvent> = Vec::new();
        let mut i: usize = 0;
        while i < events.len()
            invariant
                i <= events@.len(),
                out@ == events@.take(i as int).map_values(|e: HostEvent| translate(e)),
                self.window.dims() == dims_after_events(
                    old(self).window.dims(),
                    old(self).window.dims_stale(),
                    events@.take(i as int),
                ),
                self.window.dims_stale() == old(self).window.dims_stale(),
                self.window.same_gpu_state(&old(self).window),
            decreases events@.len() - i,
        {
            let e = events[i];
            proof {
                assert(events@.take(i as int + 1).drop_last() =~= events@.take(i as int));
            }
            match e {
                HostEvent::Resized(w, h) => {
                    self.window.set_dimensions(w, h);
                    out.push(ServoEvent::Resize);
                },
                HostEvent::Other => {
                    out.push(ServoEvent::Idle);
                },
            }
            i = i + 1;
            proof {
                assert(events@.take(i as int).map_values(|e: HostEvent| translate(e))
                    =~= out@);
            }
        }
        proof {
            assert(events@.take(i as int) =~= events@);
        }
        out
    }
}

} // verus!

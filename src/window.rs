use vstd::prelude::*;

verus! {

/// The status a GL framebuffer completeness check reports on success.
pub const FRAMEBUFFER_COMPLETE: u32 = 0x8CD5;

/// The id of the default render target, bound whenever no framebuffer is.
pub const DEFAULT_FRAMEBUFFER: u32 = 0;

/// The GPU resource behind a host texture asset.
#[derive(Clone, Copy, Debug, PartialEq, Eq, Structural)]
pub enum TextureResource {
    /// An ordinary texture object, named by its GL id.
    Texture(u32),
    /// A surface, which cannot be attached as a colour target.
    Surface(u32),
}

/// One of the independently locked slots of a window.
#[derive(Clone, Copy, Debug, PartialEq, Eq, Structural)]
pub enum SlotKind {
    Dimensions,
    Target,
    Framebuffer,
}

/// What the host must allocate to give the browser engine a framebuffer: a
/// framebuffer and a depth buffer of the given size, with `texture` as colour.
#[derive(Clone, Copy, Debug, PartialEq, Eq, Structural)]
pub struct FramebufferRequest {
    pub texture: u32,
    pub width: u32,
    pub height: u32,
}

/// A value behind a lock. `stale` marks a lock whose writer failed while
/// holding it: the value may still be read, but is no longer written.
struct Guarded<T> {
    value: T,
    stale: bool,
}

/// The host side of the browser engine's window: the shared screen
/// dimensions, the texture the engine paints into, the framebuffer built on
/// it, and which render target is bound.
pub struct ServoWindow {
    dimensions: Guarded<(u32, u32)>,
    target_texture: Guarded<Option<u32>>,
    frame_buffer: Guarded<Option<u32>>,
    bound: u32,
}

/// Where a target slot goes when `texture` is offered: a texture id is taken
/// once, into an empty slot that is not stale; anything else leaves it as it is.
pub open spec fn target_after(target: Option<u32>, stale: bool, texture: TextureResource) -> Option<u32> {
    match texture {
        TextureResource::Texture(t) => if !stale && target is None { Some(t) } else { target },
        TextureResource::Surface(_) => target,
    }
}

/// Where the dimensions go on a resize to `size`: a stale slot keeps its value.
pub open spec fn dims_after(dims: (u32, u32), stale: bool, size: (u32, u32)) -> (u32, u32) {
    if stale { dims } else { size }
}

/// The message `has_target` gives when the target slot is stale.
pub open spec fn lock_poisoned_message() -> Seq<char> {
    "Lock poisoned"@
}

impl ServoWindow {
    pub closed spec fn dims(&self) -> (u32, u32) {
        self.dimensions.value
    }

    pub closed spec fn dims_stale(&self) -> bool {
        self.dimensions.stale
    }

    pub closed spec fn target(&self) -> Option<u32> {
        self.target_texture.value
    }

    pub closed spec fn target_stale(&self) -> bool {
        self.target_texture.stale
    }

    pub closed spec fn framebuffer(&self) -> Option<u32> {
        self.frame_buffer.value
    }

    pub closed spec fn framebuffer_stale(&self) -> bool {
        self.frame_buffer.stale
    }

    /// The render target that is bound.
    pub closed spec fn bound(&self) -> u32 {
        self.bound
    }

    /// A framebuffer exists only on a target, and only the default target or
    /// that framebuffer is ever bound.
    pub open spec fn wf(&self) -> bool {
        &&& self.framebuffer() is Some ==> self.target() is Some
        &&& self.bound() == DEFAULT_FRAMEBUFFER || Some(self.bound()) == self.framebuffer()
    }

    /// Everything but the dimensions is the same in `self` and `other`.
    pub open spec fn same_gpu_state(&self, other: &ServoWindow) -> bool {
        &&& self.target() == other.target()
        &&& self.target_stale() == other.target_stale()
        &&& self.framebuffer() == other.framebuffer()
        &&& self.framebuffer_stale() == other.framebuffer_stale()
        &&& self.bound() == other.bound()
    }

    /// Everything but the bound render target is the same in `self` and `other`.
    pub open spec fn same_slots(&self, other: &ServoWindow) -> bool {
        &&& self.dims() == other.dims()
        &&& self.dims_stale() == other.dims_stale()
        &&& self.target() == other.target()
        &&& self.target_stale() == other.target_stale()
        &&& self.framebuffer() == other.framebuffer()
        &&& self.framebuffer_stale() == other.framebuffer_stale()
    }

    /// A window of the host's screen size, with no target, no framebuffer and
    /// the default target bound.
    pub fn new(width: u32, height: u32) -> (r: ServoWindow)
        ensures
            r.wf(),
            r.dims() == (width, height),
            r.target() is None,
            r.framebuffer() is None,
            r.bound() == DEFAULT_FRAMEBUFFER,
            !r.dims_stale(),
            !r.target_stale(),
            !r.framebuffer_stale(),
    {
        ServoWindow {
            dimensions: Guarded { value: (width, height), stale: false },
            target_texture: Guarded { value: None, stale: false },
            frame_buffer: Guarded { value: None, stale: false },
            bound: DEFAULT_FRAMEBUFFER,
        }
    }

    /// Marks one slot stale, as after a writer failed while holding its lock.
    pub fn mark_stale(&mut self, slot: SlotKind)
        ensures
            final(self).dims() == old(self).dims(),
            final(self).target() == old(self).target(),
            final(self).framebuffer() == old(self).framebuffer(),
            final(self).bound() == old(self).bound(),
            final(self).dims_stale() == (old(self).dims_stale() || slot == SlotKind::Dimensions),
            final(self).target_stale() == (old(self).target_stale() || slot == SlotKind::Target),
            final(self).framebuffer_stale() == (old(self).framebuffer_stale() || slot
                == SlotKind::Framebuffer),
    {
        match slot {
            SlotKind::Dimensions => self.dimensions.stale = true,
            SlotKind::Target => self.target_texture.stale = true,
            SlotKind::Framebuffer => self.frame_buffer.stale = true,
        }
    }

    /// The current dimensions; a stale slot gives its last value.
    pub fn get_dimensions(&self) -> (r: (u32, u32))
        ensures
            r == self.dims(),
    {
        self.dimensions.value
    }

    /// Records a resize; a stale slot is left as it is.
    pub fn set_dimensions(&mut self, width: u32, height: u32)
        ensures
            final(self).dims() == dims_after(old(self).dims(), old(self).dims_stale(), (width, height)),
            final(self).dims_stale() == old(self).dims_stale(),
            final(self).same_gpu_state(old(self)),
    {
        if !self.dimensions.stale {
            self.dimensions.value = (width, height);
        }
    }

    /// Offers the texture the browser engine should paint into. Only a texture
    /// object is taken, and only while no target is set: once set, the target
    /// never changes.
    pub fn set_target(&mut self, texture: TextureResource)
        requires
            old(self).wf(),
        ensures
            final(self).wf(),
            final(self).target() == target_after(
                old(self).target(),
                old(self).target_stale(),
                texture,
            ),
            final(self).target_stale() == old(self).target_stale(),
            final(self).framebuffer() == old(self).framebuffer(),
            final(self).framebuffer_stale() == old(self).framebuffer_stale(),
            final(self).dims() == old(self).dims(),
            final(self).dims_stale() == old(self).dims_stale(),
            final(self).bound() == old(self).bound(),
    {
        if let TextureResource::Texture(t) = texture {
            if !self.target_texture.stale && self.target_texture.value.is_none() {
                self.target_texture.value = Some(t);
            }
        }
    }

    /// Whether a target is set; an error when the target slot is stale.
    pub fn has_target(&self) -> (r: Result<bool, String>)
        ensures
            r is Err <==> self.target_stale(),
            r is Ok ==> r->Ok_0 == (self.target() is Some),
            r is Err ==> r->Err_0@ == lock_poisoned_message(),
    {
        if self.target_texture.stale {
            Err("Lock poisoned".to_owned())
        } else {
            Ok(self.target_texture.value.is_some())
        }
    }

    /// The target texture id; a stale slot gives its last value.
    pub fn get_target(&self) -> (r: Option<u32>)
        ensures
            r == self.target(),
    {
        self.target_texture.value
    }

    /// What to allocate for the framebuffer: present exactly when a target is
    /// set and no framebuffer exists yet, sized to the current dimensions.
    pub fn framebuffer_request(&self) -> (r: Option<FramebufferRequest>)
        ensures
            r is Some <==> (self.target() is Some && self.framebuffer() is None),
            r is Some ==> r->Some_0 == (FramebufferRequest {
                texture: self.target()->Some_0,
                width: self.dims().0,
                height: self.dims().1,
            }),
    {
        match (self.target_texture.value, self.frame_buffer.value) {
            (Some(texture), None) => Some(
                FramebufferRequest {
                    texture,
                    width: self.dimensions.value.0,
                    height: self.dimensions.value.1,
                },
            ),
            _ => None,
        }
    }

    /// Takes the outcome of allocating a framebuffer for the target: the new
    /// framebuffer's id and the status its completeness check gave. A
    /// complete framebuffer is stored when a target is set, no framebuffer
    /// exists yet and the slot is not stale. Otherwise the window is left as
    /// it is, and the error is the failed status, or 0 where the status was
    /// complete; the host then releases what it allocated.
    pub fn setup_framebuffer(&mut self, framebuffer: u32, status: u32) -> (r: Result<(), u32>)
        requires
            old(self).wf(),
        ensures
            final(self).wf(),
            r is Ok <==> (status == FRAMEBUFFER_COMPLETE && old(self).target() is Some
                && old(self).framebuffer() is None && !old(self).framebuffer_stale()),
            r is Ok ==> final(self).framebuffer() == Some(framebuffer),
            r is Err ==> final(self).framebuffer() == old(self).framebuffer(),
            r is Err ==> r->Err_0 == (if status == FRAMEBUFFER_COMPLETE { 0 } else { status }),
            final(self).framebuffer_stale() == old(self).framebuffer_stale(),
            final(self).target() == old(self).target(),
            final(self).target_stale() == old(self).target_stale(),
            final(self).dims() == old(self).dims(),
            final(self).dims_stale() == old(self).dims_stale(),
            final(self).bound() == old(self).bound(),
    {
        if status != FRAMEBUFFER_COMPLETE {
            return Err(status);
        }
        if self.target_texture.value.is_none() || self.frame_buffer.value.is_some()
            || self.frame_buffer.stale {
            return Err(0);
        }
        self.frame_buffer.value = Some(framebuffer);
        Ok(())
    }

    /// Binds the framebuffer, where one exists and its slot is not stale.
    pub fn enable_fb(&mut self) -> (r: Result<(), ()>)
        requires
            old(self).wf(),
        ensures
            final(self).wf(),
            r is Ok <==> (old(self).framebuffer() is Some && !old(self).framebuffer_stale()),
            r is Ok ==> Some(final(self).bound()) == old(self).framebuffer(),
            r is Err ==> final(self).bound() == old(self).bound(),
            final(self).same_slots(old(self)),
    {
        if self.frame_buffer.stale {
            return Err(());
        }
        match self.frame_buffer.value {
            Some(fb) => {
                self.bound = fb;
                Ok(())
            },
            None => Err(()),
        }
    }

    /// Binds the default render target.
    pub fn disable_fb(&mut self)
        requires
            old(self).wf(),
        ensures
            final(self).wf(),
            final(self).bound() == DEFAULT_FRAMEBUFFER,
            final(self).same_slots(old(self)),
    {
        self.bound = DEFAULT_FRAMEBUFFER;
    }

    /// Called by the browser engine before it paints: binds the framebuffer
    /// and says whether it may paint this frame.
    pub fn prepare_for_composite(&mut self, _width: usize, _height: usize) -> (r: bool)
        requires
            old(self).wf(),
        ensures
            final(self).wf(),
            prepared(old(self), final(self), r),
    {
        self.enable_fb().is_ok()
    }

    /// Called by the browser engine after a successful paint: binds the
    /// default render target again.
    pub fn present(&mut self)
        requires
            old(self).wf(),
        ensures
            final(self).wf(),
            presented(old(self), final(self)),
    {
        self.disable_fb();
    }

    /// The render target that is bound.
    pub fn bound_framebuffer(&self) -> (r: u32)
        ensures
            r == self.bound(),
    {
        self.bound
    }

    /// The screen size the browser engine sees: the shared dimensions.
    pub fn screen_size(&self) -> (r: (u32, u32))
        ensures
            r == self.dims(),
    {
        self.get_dimensions()
    }

    /// The screen area available to the browser engine: the whole screen.
    pub fn screen_avail_size(&self) -> (r: (u32, u32))
        ensures
            r == self.dims(),
    {
        self.get_dimensions()
    }

    /// The host offers the browser engine a clipboard.
    pub fn supports_clipboard(&self) -> (r: bool)
        ensures
            r,
    {
        true
    }
}

/// `after` is `before` once `prepare_for_composite` has returned `r`: the
/// framebuffer is bound exactly when one exists and its slot is not stale.
pub open spec fn prepared(before: &ServoWindow, after: &ServoWindow, r: bool) -> bool {
    &&& r <==> (before.framebuffer() is Some && !before.framebuffer_stale())
    &&& r ==> Some(after.bound()) == before.framebuffer()
    &&& !r ==> after.bound() == before.bound()
    &&& after.same_slots(before)
}

/// `after` is `before` once `present` has run: the default target is bound.
pub open spec fn presented(before: &ServoWindow, after: &ServoWindow) -> bool {
    &&& after.bound() == DEFAULT_FRAMEBUFFER
    &&& after.same_slots(before)
}

/// A paint leaves the window as it found it: where the default target is
/// bound, a successful `prepare_for_composite` followed by `present` binds it
/// again and changes nothing else, and a failed one changes nothing at all.
pub proof fn lemma_composite_round_trip(
    before: &ServoWindow,
    during: &ServoWindow,
    after: &ServoWindow,
    r: bool,
)
    requires
        before.wf(),
        before.bound() == DEFAULT_FRAMEBUFFER,
        prepared(before, during, r),
        r ==> presented(during, after),
    ensures
        r ==> after.bound() == before.bound() && after.same_slots(before),
        !r ==> during.bound() == before.bound() && during.same_slots(before),
{
}

/// The framebuffer size of a window whose inner size is `inner`, at a whole
/// device pixels per logical pixel `scale_factor`.
pub fn framebuffer_size(inner: (u32, u32), scale_factor: u32) -> (r: (u32, u32))
    requires
        inner.0 * scale_factor <= u32::MAX,
        inner.1 * scale_factor <= u32::MAX,
    ensures
        r.0 == inner.0 * scale_factor,
        r.1 == inner.1 * scale_factor,
{
    (inner.0 * scale_factor, inner.1 * scale_factor)
}

/// A rectangle of device pixels.
#[derive(Clone, Copy, Debug, PartialEq, Eq, Structural)]
pub struct DeviceRect {
    pub x: u32,
    pub y: u32,
    pub width: u32,
    pub height: u32,
}

/// The window's rectangle in device pixels: its framebuffer, at the origin.
pub fn window_rect(inner: (u32, u32), scale_factor: u32) -> (r: DeviceRect)
    requires
        inner.0 * scale_factor <= u32::MAX,
        inner.1 * scale_factor <= u32::MAX,
    ensures
        r == (DeviceRect { x: 0, y: 0, width: (inner.0 * scale_factor) as u32, height: (inner.1
            * scale_factor) as u32 }),
{
    let size = framebuffer_size(inner, scale_factor);
    DeviceRect { x: 0, y: 0, width: size.0, height: size.1 }
}

} // verus!

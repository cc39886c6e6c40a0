use vstd::prelude::*;

verus! {

/// The single way in which creating or resizing a surface fails: the
/// attachments asked for could not be had, because the size is not one a
/// device can allocate, because the device refused, or because what it
/// delivered is not of the size asked for.
#[derive(Clone, Copy, Debug, PartialEq, Eq, Structural)]
pub struct AllocationError;

/// One image on the device that can be bound as a render target: the device's
/// handle for it, and the pixel size it was allocated with.
#[derive(Debug)]
pub struct Attachment<T> {
    pub handle: T,
    pub width: u32,
    pub height: u32,
}

impl<T> Attachment<T> {
    /// Width and height of the attachment, in this order.
    pub open spec fn size(self) -> (u32, u32) {
        (self.width, self.height)
    }
}

/// Whether a device may be asked for attachments of this size: neither side
/// is zero.
pub open spec fn allocatable(width: u32, height: u32) -> bool {
    width > 0 && height > 0
}

/// Whether the answer of the device serves a request for a surface of
/// `width` by `height`: the size can be allocated, both attachments came, and
/// each has exactly the size asked for. `None` stands for an attachment the
/// device could not allocate.
pub open spec fn delivered<C, D>(
    width: u32,
    height: u32,
    color: Option<Attachment<C>>,
    depth: Option<Attachment<D>>,
) -> bool {
    &&& allocatable(width, height)
    &&& color matches Some(c) && c.size() == (width, height)
    &&& depth matches Some(d) && d.size() == (width, height)
}

/// What a surface owns at one moment: its color and its depth attachment.
pub struct Attachments<C, D> {
    pub color: Attachment<C>,
    pub depth: Attachment<D>,
}

impl<C, D> Attachments<C, D> {
    /// Color and depth have one and the same size, and it is a size a device
    /// can allocate.
    pub open spec fn consistent(self) -> bool {
        &&& self.color.size() == self.depth.size()
        &&& allocatable(self.color.width, self.color.height)
    }

    /// The size of the surface, which is that of its color attachment.
    pub open spec fn size(self) -> (u32, u32) {
        self.color.size()
    }

    /// The pair owned after a resize to `width` by `height` for which the
    /// device answered with `color` and `depth`: the new pair if the answer
    /// serves the request, the old pair untouched if it does not.
    pub open spec fn resized(
        self,
        width: u32,
        height: u32,
        color: Option<Attachment<C>>,
        depth: Option<Attachment<D>>,
    ) -> Self {
        if delivered(width, height, color, depth) {
            Attachments { color: color.unwrap(), depth: depth.unwrap() }
        } else {
            self
        }
    }
}

/// A color and a depth attachment to be bound together as the target of one
/// render pass, borrowed from the surface that owns them.
pub struct FrameBufferView<'a, C, D> {
    pub color: &'a C,
    pub depth: &'a D,
    pub width: u32,
    pub height: u32,
}

/// An offscreen render target: a color and a depth attachment of one size,
/// owned together and only ever replaced together. The surface does not talk
/// to the device itself: its caller asks the device for attachments and hands
/// over what came back.
#[derive(Debug)]
pub struct RenderSurface<C, D> {
    texture: Attachment<C>,
    depth: Attachment<D>,
}

impl<C, D> View for RenderSurface<C, D> {
    type V = Attachments<C, D>;

    closed spec fn view(&self) -> Attachments<C, D> {
        Attachments { color: self.texture, depth: self.depth }
    }
}

impl<C, D> RenderSurface<C, D> {
    #[verifier::type_invariant]
    spec fn attachments_agree(self) -> bool {
        self@.consistent()
    }

    /// Whether a device may be asked for attachments of this size.
    pub fn can_allocate(width: u32, height: u32) -> (ok: bool)
        ensures
            ok == allocatable(width, height),
    {
        width > 0 && height > 0
    }

    /// Creates a surface of `width` by `height` from what the device
    /// answered when asked for a color and a depth attachment of that size.
    /// All or nothing: unless the answer serves the request, no surface comes
    /// into being and whatever was delivered is released.
    pub fn new(
        width: u32,
        height: u32,
        color: Option<Attachment<C>>,
        depth: Option<Attachment<D>>,
    ) -> (created: Result<Self, AllocationError>)
        ensures
            created is Ok <==> delivered(width, height, color, depth),
            created matches Ok(surface) ==> surface@ == (Attachments {
                color: color.unwrap(),
                depth: depth.unwrap(),
            }) && surface@.consistent(),
    {
        if width == 0 || height == 0 {
            return Err(AllocationError);
        }
        match (color, depth) {
            (Some(texture), Some(depth)) => {
                if texture.width == width && texture.height == height && depth.width == width
                    && depth.height == height {
                    Ok(RenderSurface { texture, depth })
                } else {
                    Err(AllocationError)
                }
            },
            _ => Err(AllocationError),
        }
    }

    /// Whether the surface has another size than `width` by `height`, so that
    /// a resize to it calls for new attachments.
    pub fn needs_resize(&self, width: u32, height: u32) -> (needed: bool)
        ensures
            needed == (self@.size() != (width, height)),
    {
        self.texture.width != width || self.texture.height != height
    }

    /// Resizes the surface to `width` by `height` with what the device
    /// answered when asked for attachments of that size. If the answer serves
    /// the request, both attachments are replaced and the old ones released;
    /// if not, the surface keeps both old attachments and the call fails.
    pub fn resize(
        &mut self,
        width: u32,
        height: u32,
        color: Option<Attachment<C>>,
        depth: Option<Attachment<D>>,
    ) -> (resized: Result<(), AllocationError>)
        ensures
            resized is Ok <==> delivered(width, height, color, depth),
            final(self)@ == old(self)@.resized(width, height, color, depth),
            final(self)@.consistent(),
    {
        proof {
            use_type_invariant(&*self);
        }
        match RenderSurface::new(width, height, color, depth) {
            Ok(surface) => {
                *self = surface;
                Ok(())
            },
            Err(error) => Err(error),
        }
    }

    /// The current color and depth attachment, to be bound as the target of
    /// the next render pass. To be asked for anew before each pass, since a
    /// resize replaces both.
    pub fn frame_buffer(&self) -> (target: FrameBufferView<'_, C, D>)
        ensures
            *target.color == self@.color.handle,
            *target.depth == self@.depth.handle,
            (target.width, target.height) == self@.size(),
    {
        FrameBufferView {
            color: &self.texture.handle,
            depth: &self.depth.handle,
            width: self.texture.width,
            height: self.texture.height,
        }
    }

    /// The handle of the current color attachment.
    pub fn texture(&self) -> (handle: &C)
        ensures
            *handle == self@.color.handle,
    {
        &self.texture.handle
    }

    /// The handle of the current depth attachment.
    pub fn depth(&self) -> (handle: &D)
        ensures
            *handle == self@.depth.handle,
    {
        &self.depth.handle
    }

    /// Width and height of both attachments.
    pub fn size(&self) -> (size: (u32, u32))
        ensures
            size == self@.size(),
            size == self@.depth.size(),
            allocatable(size.0, size.1),
    {
        proof {
            use_type_invariant(self);
        }
        (self.texture.width, self.texture.height)
    }

    /// Width of both attachments.
    pub fn width(&self) -> (width: u32)
        ensures
            width == self@.color.width,
            width == self@.depth.width,
            width > 0,
    {
        proof {
            use_type_invariant(self);
        }
        self.texture.width
    }

    /// Height of both attachments.
    pub fn height(&self) -> (height: u32)
        ensures
            height == self@.color.height,
            height == self@.depth.height,
            height > 0,
    {
        proof {
            use_type_invariant(self);
        }
        self.texture.height
    }
}

/// The pair owned after the resizes `steps`, oldest first, were applied in
/// turn to a surface that owned `start`. Each step is the size asked for and
/// the color and depth attachment the device answered with.
pub open spec fn after_resizes<C, D>(
    start: Attachments<C, D>,
    steps: Seq<(u32, u32, Option<Attachment<C>>, Option<Attachment<D>>)>,
) -> Attachments<C, D>
    decreases steps.len(),
{
    if steps.len() == 0 {
        start
    } else {
        let step = steps.last();
        after_resizes(start, steps.drop_last()).resized(step.0, step.1, step.2, step.3)
    }
}

/// Whatever resizes a surface goes through, and whichever of them succeed,
/// its color and its depth attachment have one and the same size.
pub proof fn lemma_resizes_keep_sizes_equal<C, D>(
    start: Attachments<C, D>,
    steps: Seq<(u32, u32, Option<Attachment<C>>, Option<Attachment<D>>)>,
)
    requires
        start.consistent(),
    ensures
        after_resizes(start, steps).consistent(),
        after_resizes(start, steps).color.size() == after_resizes(start, steps).depth.size(),
    decreases steps.len(),
{
    if steps.len() > 0 {
        lemma_resizes_keep_sizes_equal(start, steps.drop_last());
    }
}

/// A resize to the size the surface already has leaves its size as it is,
/// whether the device delivers or not.
pub proof fn lemma_resize_to_current_size_keeps_size<C, D>(
    state: Attachments<C, D>,
    color: Option<Attachment<C>>,
    depth: Option<Attachment<D>>,
)
    ensures
        state.resized(state.size().0, state.size().1, color, depth).size() == state.size(),
{
}

} // verus!

//! The presentable image chain as a state machine: resize requests,
//! rebuilds, and the generation-tagged image views they produce.

use crate::error::GpuError;
use vstd::prelude::*;

verus! {

#[derive(Clone, Copy, Debug, PartialEq, Eq, Structural)]
pub struct Extent2D {
    pub width: u32,
    pub height: u32,
}

/// The part of a surface's capabilities that sizing the swapchain reads.
#[derive(Clone, Copy, Debug, PartialEq, Eq, Structural)]
pub struct SurfaceCapabilities {
    pub min_image_extent: Extent2D,
    pub max_image_extent: Extent2D,
}

/// A surface format as the driver reports it: raw format and color space.
#[derive(Clone, Copy, Debug, PartialEq, Eq, Structural)]
pub struct SurfaceFormat {
    pub format: i32,
    pub color_space: i32,
}

/// The surface format the swapchain is built with: the first one the surface
/// reports. A surface that reports none cannot be presented to.
pub fn choose_surface_format(formats: &Vec<SurfaceFormat>) -> (r: Result<SurfaceFormat, GpuError>)
    ensures
        formats@.len() > 0 ==> r == Ok::<SurfaceFormat, GpuError>(formats@[0]),
        formats@.len() == 0 ==> r == Err::<SurfaceFormat, GpuError>(GpuError::CreationFailure),
{
    if formats.len() == 0 {
        Err(GpuError::CreationFailure)
    } else {
        Ok(formats[0])
    }
}

/// A view of one swapchain image: the driver's handle, and the generation of
/// the swapchain it was built for. Every rebuild starts a new generation, so
/// a view kept across a rebuild never equals a current one.
#[derive(Clone, Copy, Debug, PartialEq, Eq, Structural)]
pub struct ImageView {
    pub raw: u64,
    pub generation: u64,
}

/// `v.max(lo).min(hi)`.
pub open spec fn clamp(v: u32, lo: u32, hi: u32) -> u32 {
    let raised = if v < lo {
        lo
    } else {
        v
    };
    if raised > hi {
        hi
    } else {
        raised
    }
}

pub open spec fn clamped(requested: Extent2D, caps: SurfaceCapabilities) -> Extent2D {
    Extent2D {
        width: clamp(requested.width, caps.min_image_extent.width, caps.max_image_extent.width),
        height: clamp(requested.height, caps.min_image_extent.height, caps.max_image_extent.height),
    }
}

/// Clamps a requested extent to the extent range the surface reports.
pub fn clamp_extent(requested: Extent2D, caps: SurfaceCapabilities) -> (r: Extent2D)
    ensures
        r == clamped(requested, caps),
{
    let mut width = requested.width;
    if width < caps.min_image_extent.width {
        width = caps.min_image_extent.width;
    }
    if width > caps.max_image_extent.width {
        width = caps.max_image_extent.width;
    }
    let mut height = requested.height;
    if height < caps.min_image_extent.height {
        height = caps.min_image_extent.height;
    }
    if height > caps.max_image_extent.height {
        height = caps.max_image_extent.height;
    }
    Extent2D { width, height }
}

/// The mathematical state of a swapchain.
pub struct SwapchainView {
    /// The driver's swapchain handle; 0 before the first build.
    pub raw: u64,
    pub format: SurfaceFormat,
    pub extent: Extent2D,
    pub images: Seq<u64>,
    pub views: Seq<ImageView>,
    pub generation: nat,
    /// The image count fixed by the first build; 0 before it.
    pub image_count: nat,
    /// The extent of a rebuild that has been requested and not yet completed.
    pub pending: Option<Extent2D>,
}

impl SwapchainView {
    pub open spec fn wf(self) -> bool {
        &&& self.generation <= u64::MAX
        &&& forall|i: int|
            0 <= i < self.views.len() ==> (#[trigger] self.views[i]).generation == self.generation
        &&& self.pending is None ==> self.views.len() == self.images.len()
        &&& self.pending is None ==> self.images.len() == self.image_count
        &&& self.pending is Some ==> self.views.len() == 0
    }
}

/// The state after asking for a swapchain of `width` x `height`: nothing
/// changes when either is 0 (a minimized window); otherwise every view is
/// retired and a rebuild at the clamped extent is pending.
pub open spec fn after_request(
    s: SwapchainView,
    width: u32,
    height: u32,
    caps: SurfaceCapabilities,
) -> SwapchainView {
    if width == 0 || height == 0 {
        s
    } else {
        SwapchainView {
            views: Seq::empty(),
            pending: Some(clamped(Extent2D { width, height }, caps)),
            ..s
        }
    }
}

/// The state after a sequence of resize requests.
pub open spec fn after_requests(
    s: SwapchainView,
    requests: Seq<(u32, u32)>,
    caps: SurfaceCapabilities,
) -> SwapchainView
    decreases requests.len(),
{
    if requests.len() == 0 {
        s
    } else {
        after_request(
            after_requests(s, requests.drop_last(), caps),
            requests.last().0,
            requests.last().1,
            caps,
        )
    }
}

/// Whether a rebuilt chain is adopted: a rebuild must be pending, every image
/// needs its view, and the image count is the one fixed by the first build
/// (at least 2 for that first build).
pub open spec fn rebuild_accepted(s: SwapchainView, images: Seq<u64>, views: Seq<u64>) -> bool {
    &&& s.pending is Some
    &&& images.len() == views.len()
    &&& if s.image_count == 0 {
        images.len() >= 2
    } else {
        images.len() == s.image_count
    }
}

pub open spec fn after_rebuild(
    s: SwapchainView,
    raw: u64,
    images: Seq<u64>,
    views: Seq<u64>,
) -> SwapchainView {
    SwapchainView {
        raw,
        extent: s.pending->0,
        images,
        views: Seq::new(
            views.len(),
            |i: int| ImageView { raw: views[i], generation: (s.generation + 1) as u64 },
        ),
        generation: s.generation + 1,
        image_count: images.len(),
        pending: None,
        ..s
    }
}

/// The state after a rejected rebuild: the new handle is kept so that it is
/// destroyed with the rest, no image is usable, and the rebuild stays pending.
pub open spec fn after_rejected_rebuild(s: SwapchainView, raw: u64) -> SwapchainView {
    SwapchainView { raw, images: Seq::empty(), views: Seq::empty(), ..s }
}

/// What the caller does with the driver to carry out a requested rebuild:
/// destroy the retired views, create a swapchain of `extent` passing
/// `old_swapchain` as the previous one, destroy the old one, and build one
/// view per new image.
pub struct ResizePlan {
    pub extent: Extent2D,
    pub format: SurfaceFormat,
    pub old_swapchain: u64,
    pub retired_views: Vec<ImageView>,
}

/// What is left to destroy when the swapchain goes: the views first, then
/// the swapchain itself (0 when none was ever built).
pub struct SwapchainTeardown {
    pub views: Vec<ImageView>,
    pub swapchain: u64,
}

/// The presentable image chain, tracked as driver handles.
pub struct Swapchain {
    raw: u64,
    format: SurfaceFormat,
    extent: Extent2D,
    images: Vec<u64>,
    views: Vec<ImageView>,
    generation: u64,
    image_count: usize,
    pending: Option<Extent2D>,
}

impl View for Swapchain {
    type V = SwapchainView;

    closed spec fn view(&self) -> SwapchainView {
        SwapchainView {
            raw: self.raw,
            format: self.format,
            extent: self.extent,
            images: self.images@,
            views: self.views@,
            generation: self.generation as nat,
            image_count: self.image_count as nat,
            pending: self.pending,
        }
    }
}

impl Swapchain {
    /// A swapchain that has not been built yet.
    pub fn new(format: SurfaceFormat) -> (r: Self)
        ensures
            r@.wf(),
            r@.raw == 0,
            r@.format == format,
            r@.extent == (Extent2D { width: 0, height: 0 }),
            r@.images.len() == 0,
            r@.views.len() == 0,
            r@.generation == 0,
            r@.image_count == 0,
            r@.pending is None,
    {
        Swapchain {
            raw: 0,
            format,
            extent: Extent2D { width: 0, height: 0 },
            images: Vec::new(),
            views: Vec::new(),
            generation: 0,
            image_count: 0,
            pending: None,
        }
    }

    /// Asks for a swapchain of `width` x `height`. Returns `None`, and leaves
    /// everything as it was, when either is 0; otherwise hands back the views
    /// to destroy and the rebuild to perform.
    pub fn resize(&mut self, width: u32, height: u32, caps: SurfaceCapabilities) -> (r: Option<
        ResizePlan,
    >)
        requires
            old(self)@.wf(),
        ensures
            final(self)@.wf(),
            final(self)@ == after_request(old(self)@, width, height, caps),
            r is None <==> (width == 0 || height == 0),
            r matches Some(p) ==> {
                &&& p.extent == clamped(Extent2D { width, height }, caps)
                &&& p.format == old(self)@.format
                &&& p.old_swapchain == old(self)@.raw
                &&& p.retired_views@ == old(self)@.views
            },
    {
        if width == 0 || height == 0 {
            return None;
        }
        let extent = clamp_extent(Extent2D { width, height }, caps);
        let mut retired_views: Vec<ImageView> = Vec::new();
        std::mem::swap(&mut retired_views, &mut self.views);
        self.pending = Some(extent);
        proof {
            assert(self@ =~= after_request(old(self)@, width, height, caps));
        }
        Some(ResizePlan { extent, format: self.format, old_swapchain: self.raw, retired_views })
    }

    /// Completes a rebuild with the new swapchain handle, its images and one
    /// view per image; a rebuild must have been requested. A chain whose
    /// image count differs from the one fixed by the first build, or that
    /// lacks views, is refused with `CreationFailure`.
    pub fn finish_resize(&mut self, raw: u64, images: Vec<u64>, views: Vec<u64>) -> (r: Result<
        (),
        GpuError,
    >)
        requires
            old(self)@.wf(),
            old(self)@.pending is Some,
            old(self)@.generation < u64::MAX,
        ensures
            final(self)@.wf(),
            r is Ok <==> rebuild_accepted(old(self)@, images@, views@),
            r is Ok ==> final(self)@ == after_rebuild(old(self)@, raw, images@, views@),
            r is Err ==> r == Err::<(), GpuError>(GpuError::CreationFailure) && final(self)@
                == after_rejected_rebuild(old(self)@, raw),
    {
        let accepted = match self.pending {
            Some(_) => images.len() == views.len() && if self.image_count == 0 {
                images.len() >= 2
            } else {
                images.len() == self.image_count
            },
            None => false,
        };
        if !accepted {
            self.raw = raw;
            self.images = Vec::new();
            self.views = Vec::new();
            proof {
                assert(self@ =~= after_rejected_rebuild(old(self)@, raw));
            }
            return Err(GpuError::CreationFailure);
        }
        let generation = self.generation + 1;
        let mut tagged: Vec<ImageView> = Vec::new();
        let mut i: usize = 0;
        while i < views.len()
            invariant
                i <= views@.len(),
                tagged@.len() == i,
                forall|k: int|
                    0 <= k < i ==> #[trigger] tagged@[k] == (ImageView {
                        raw: views@[k],
                        generation,
                    }),
            decreases views@.len() - i,
        {
            tagged.push(ImageView { raw: views[i], generation });
            i = i + 1;
        }
        self.extent = match self.pending {
            Some(e) => e,
            None => self.extent,
        };
        self.raw = raw;
        self.image_count = images.len();
        self.images = images;
        self.views = tagged;
        self.generation = generation;
        self.pending = None;
        proof {
            assert(self@.views =~= after_rebuild(old(self)@, raw, images@, views@).views);
            assert(self@ =~= after_rebuild(old(self)@, raw, images@, views@));
        }
        Ok(())
    }

    pub fn image_count(&self) -> (r: usize)
        ensures
            r == self@.images.len(),
    {
        self.images.len()
    }

    pub fn image(&self, index: usize) -> (r: u64)
        requires
            index < self@.images.len(),
        ensures
            r == self@.images[index as int],
    {
        self.images[index]
    }

    pub fn image_view(&self, index: usize) -> (r: ImageView)
        requires
            index < self@.views.len(),
        ensures
            r == self@.views[index as int],
    {
        self.views[index]
    }

    pub fn extent(&self) -> (r: Extent2D)
        ensures
            r == self@.extent,
    {
        self.extent
    }

    pub fn format(&self) -> (r: SurfaceFormat)
        ensures
            r == self@.format,
    {
        self.format
    }

    pub fn generation(&self) -> (r: u64)
        ensures
            r == self@.generation,
    {
        self.generation
    }

    /// The current swapchain handle (0 before the first build).
    pub fn raw(&self) -> (r: u64)
        ensures
            r == self@.raw,
    {
        self.raw
    }

    /// Whether a rebuild was requested and is not yet complete.
    pub fn is_rebuilding(&self) -> (r: bool)
        ensures
            r == self@.pending is Some,
    {
        self.pending.is_some()
    }

    /// Gives up the swapchain: what is left to destroy, views first.
    pub fn destroy(self) -> (r: SwapchainTeardown)
        ensures
            r.views@ == self@.views,
            r.swapchain == self@.raw,
    {
        SwapchainTeardown { views: self.views, swapchain: self.raw }
    }
}

/// Resize requests with a zero width or height, in any number and order,
/// leave the swapchain exactly as it was.
pub proof fn lemma_degenerate_resizes_keep_state(
    s: SwapchainView,
    requests: Seq<(u32, u32)>,
    caps: SurfaceCapabilities,
)
    requires
        forall|i: int|
            0 <= i < requests.len() ==> (#[trigger] requests[i]).0 == 0 || requests[i].1 == 0,
    ensures
        after_requests(s, requests, caps) == s,
    decreases requests.len(),
{
    if requests.len() > 0 {
        let init = requests.drop_last();
        assert forall|i: int| 0 <= i < init.len() implies (#[trigger] init[i]).0 == 0
            || init[i].1 == 0 by {
            assert(init[i] == requests[i]);
        }
        lemma_degenerate_resizes_keep_state(s, init, caps);
        assert(requests.last() == requests[requests.len() - 1]);
    }
}

/// A resize to a non-zero size followed by an accepted rebuild keeps the
/// number of images, and replaces every image view by one that differs from
/// the view it replaces.
pub proof fn lemma_rebuild_replaces_every_view(
    s: SwapchainView,
    width: u32,
    height: u32,
    caps: SurfaceCapabilities,
    raw: u64,
    images: Seq<u64>,
    views: Seq<u64>,
)
    requires
        s.wf(),
        s.pending is None,
        s.image_count > 0,
        s.generation < u64::MAX,
        width > 0,
        height > 0,
        rebuild_accepted(after_request(s, width, height, caps), images, views),
    ensures
        ({
            let t = after_rebuild(after_request(s, width, height, caps), raw, images, views);
            &&& t.wf()
            &&& t.images.len() == s.images.len()
            &&& t.views.len() == s.views.len()
            &&& forall|i: int| 0 <= i < s.views.len() ==> t.views[i] != s.views[i]
        }),
{
    let t = after_rebuild(after_request(s, width, height, caps), raw, images, views);
    assert forall|i: int| 0 <= i < s.views.len() implies t.views[i] != s.views[i] by {
        assert(s.views[i].generation == s.generation);
        assert(t.views[i].generation == s.generation + 1);
    }
}

} // verus!

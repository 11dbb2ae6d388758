//! The presentation chain model: how the image count and resolution are
//! chosen from the surface's capabilities, what the resize rebuild yields,
//! and the order in which the chain-dependent resources are torn down.

use vstd::prelude::*;

verus! {

/// The image count requested from the surface: one more than the surface's
/// minimum, capped at its maximum when the surface states one (zero means
/// unbounded). It depends on the capabilities alone, never on the
/// resolution.
pub open spec fn image_count_spec(min_image_count: u32, max_image_count: u32) -> u32 {
    if max_image_count > 0 && min_image_count + 1 > max_image_count {
        max_image_count
    } else {
        (min_image_count + 1) as u32
    }
}

/// Chooses the image count from the surface capabilities.
pub fn choose_image_count(min_image_count: u32, max_image_count: u32) -> (r: u32)
    requires
        min_image_count < u32::MAX,
    ensures
        r == image_count_spec(min_image_count, max_image_count),
{
    let desired = min_image_count + 1;
    if max_image_count > 0 && desired > max_image_count {
        max_image_count
    } else {
        desired
    }
}

/// Chooses the surface resolution: the surface's current extent, unless the
/// surface leaves it undetermined (the sentinel all-ones width), in which
/// case the caller's own resolution stands.
pub fn choose_surface_resolution(
    current_width: u32,
    current_height: u32,
    own_width: u32,
    own_height: u32,
) -> (r: (u32, u32))
    ensures
        r == if current_width == u32::MAX {
            (own_width, own_height)
        } else {
            (current_width, current_height)
        },
{
    if current_width == u32::MAX {
        (own_width, own_height)
    } else {
        (current_width, current_height)
    }
}


/// How the presentation engine paces frames: triple-buffered mailbox when
/// the surface offers it, else the universally supported queue.
#[derive(Clone, Copy, Debug, PartialEq, Eq, Structural)]
pub enum PresentPacing {
    Mailbox,
    Fifo,
}

/// Picks the presentation mode: mailbox when supported, else the queue.
pub fn choose_present_pacing(mailbox_supported: bool) -> (r: PresentPacing)
    ensures
        r == if mailbox_supported { PresentPacing::Mailbox } else { PresentPacing::Fifo },
{
    if mailbox_supported {
        PresentPacing::Mailbox
    } else {
        PresentPacing::Fifo
    }
}

/// The chain-dependent resources, in the roles the teardown order speaks of.
#[derive(Clone, Copy, Debug, PartialEq, Eq, Structural)]
pub enum ChainResource {
    DepthResources,
    CommandBuffers,
    Framebuffers,
    GraphicsPipeline,
    ImageViews,
    PresentationChain,
    UniformBuffers,
    DescriptorPool,
}

/// The teardown order of the resize protocol, after the device has gone
/// idle.
pub open spec fn teardown_order_spec() -> Seq<ChainResource> {
    seq![
        ChainResource::DepthResources,
        ChainResource::CommandBuffers,
        ChainResource::Framebuffers,
        ChainResource::GraphicsPipeline,
        ChainResource::ImageViews,
        ChainResource::PresentationChain,
        ChainResource::UniformBuffers,
        ChainResource::DescriptorPool,
    ]
}

/// Where a resource stands in the teardown order.
pub open spec fn teardown_position(r: ChainResource) -> int {
    match r {
        ChainResource::DepthResources => 0,
        ChainResource::CommandBuffers => 1,
        ChainResource::Framebuffers => 2,
        ChainResource::GraphicsPipeline => 3,
        ChainResource::ImageViews => 4,
        ChainResource::PresentationChain => 5,
        ChainResource::UniformBuffers => 6,
        ChainResource::DescriptorPool => 7,
    }
}

/// Which resource holds a reference into which: command buffers record
/// against framebuffers, framebuffers attach image views and a render pass,
/// image views view the presentation chain's images, and the descriptor
/// pool's sets point at the uniform buffers.
pub open spec fn chain_depends_on(a: ChainResource, b: ChainResource) -> bool {
    ||| (a == ChainResource::CommandBuffers && b == ChainResource::Framebuffers)
    ||| (a == ChainResource::Framebuffers && b == ChainResource::ImageViews)
    ||| (a == ChainResource::Framebuffers && b == ChainResource::GraphicsPipeline)
    ||| (a == ChainResource::ImageViews && b == ChainResource::PresentationChain)
    ||| (a == ChainResource::UniformBuffers && b == ChainResource::DescriptorPool)
}

/// The teardown order of the resize protocol.
pub fn teardown_order() -> (r: Vec<ChainResource>)
    ensures
        r@ =~= teardown_order_spec(),
{
    let mut r: Vec<ChainResource> = Vec::new();
    r.push(ChainResource::DepthResources);
    r.push(ChainResource::CommandBuffers);
    r.push(ChainResource::Framebuffers);
    r.push(ChainResource::GraphicsPipeline);
    r.push(ChainResource::ImageViews);
    r.push(ChainResource::PresentationChain);
    r.push(ChainResource::UniformBuffers);
    r.push(ChainResource::DescriptorPool);
    r
}

/// Teardown never destroys a resource that an earlier-destroyed resource
/// still references: every user stands strictly before what it uses.
pub proof fn lemma_teardown_respects_dependencies(a: ChainResource, b: ChainResource)
    requires
        chain_depends_on(a, b),
    ensures
        teardown_position(a) < teardown_position(b),
        teardown_order_spec()[teardown_position(a)] == a,
        teardown_order_spec()[teardown_position(b)] == b,
{
}

/// The presentation chain's host-visible shape: its image count and the
/// resolution its framebuffers were built for.
pub struct PresentChain {
    image_count: u32,
    fb_width: u32,
    fb_height: u32,
}

impl PresentChain {
    pub closed spec fn image_count_of(&self) -> u32 {
        self.image_count
    }

    pub closed spec fn fb_width_spec(&self) -> u32 {
        self.fb_width
    }

    pub closed spec fn fb_height_spec(&self) -> u32 {
        self.fb_height
    }

    /// A chain built from the surface capabilities at the given resolution.
    pub fn new(min_image_count: u32, max_image_count: u32, width: u32, height: u32) -> (r: PresentChain)
        requires
            min_image_count < u32::MAX,
        ensures
            r.image_count_of() == image_count_spec(min_image_count, max_image_count),
            r.fb_width_spec() == width,
            r.fb_height_spec() == height,
    {
        PresentChain {
            image_count: choose_image_count(min_image_count, max_image_count),
            fb_width: width,
            fb_height: height,
        }
    }

    /// The rebuild protocol at a new resolution against the same surface:
    /// the image count is recomputed from the capabilities alone, so it is
    /// independent of the resolution, and the framebuffers match the new
    /// resolution exactly.
    pub fn rebuild(&mut self, min_image_count: u32, max_image_count: u32, width: u32, height: u32)
        requires
            min_image_count < u32::MAX,
        ensures
            final(self).image_count_of() == image_count_spec(min_image_count, max_image_count),
            final(self).fb_width_spec() == width,
            final(self).fb_height_spec() == height,
    {
        self.image_count = choose_image_count(min_image_count, max_image_count);
        self.fb_width = width;
        self.fb_height = height;
    }

    pub fn image_count(&self) -> (r: u32)
        ensures
            r == self.image_count_of(),
    {
        self.image_count
    }

    pub fn framebuffer_extent(&self) -> (r: (u32, u32))
        ensures
            r == (self.fb_width_spec(), self.fb_height_spec()),
    {
        (self.fb_width, self.fb_height)
    }
}

} // verus!

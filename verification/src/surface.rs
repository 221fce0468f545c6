//! What depends on the size of the window: the depth attachment, the
//! framebuffers and the viewport of the pipeline.

use vstd::prelude::*;
use crate::renderer::Extent;

verus! {

/// One framebuffer: a color image of the surface together with the depth
/// attachment that all framebuffers share.
#[derive(Clone, Copy, Debug, PartialEq, Eq, Structural)]
pub struct FramebufferLayout {
    /// Index of the surface image that receives the color.
    pub color_image: u32,
    /// Extent of the shared depth attachment.
    pub depth_extent: Extent,
}

/// The layout of everything that is rebuilt with the surface.
#[derive(Debug)]
pub struct SurfaceLayout {
    /// Extent of the surface images.
    pub extent: Extent,
    /// Extent of the depth attachment.
    pub depth_extent: Extent,
    /// One framebuffer for every surface image, in the order of the images.
    pub framebuffers: Vec<FramebufferLayout>,
    /// The viewport that the pipeline is fixed to.
    pub viewport: Extent,
}

impl SurfaceLayout {
    /// The invariant of a surface: the depth attachment is as large as the
    /// color images, the viewport covers them, and the framebuffers pair the
    /// images one by one, in order, with the shared depth attachment.
    pub open spec fn sound(self) -> bool {
        &&& self.depth_extent == self.extent
        &&& self.viewport == self.extent
        &&& forall|i: int|
            0 <= i < self.framebuffers@.len() ==> (#[trigger] self.framebuffers@[i]).color_image
                == i && self.framebuffers@[i].depth_extent == self.depth_extent
    }
}

/// The framebuffers of a surface of `image_count` images of the given extent.
pub open spec fn framebuffer_table(extent: Extent, image_count: u32) -> Seq<FramebufferLayout> {
    Seq::new(
        image_count as nat,
        |i: int| FramebufferLayout { color_image: i as u32, depth_extent: extent },
    )
}

/// Lays out what is built for a surface of `image_count` images of the given
/// extent: a depth attachment as large as the images, one framebuffer per
/// image that pairs it with that attachment, and a viewport that covers the
/// surface.
pub fn window_size_dependent_setup(extent: Extent, image_count: u32) -> (layout: SurfaceLayout)
    ensures
        layout.extent == extent,
        layout.depth_extent == extent,
        layout.viewport == extent,
        layout.framebuffers@ == framebuffer_table(extent, image_count),
        layout.framebuffers@.len() == image_count,
        layout.sound(),
{
    let mut framebuffers: Vec<FramebufferLayout> = Vec::new();
    let mut image: u32 = 0;
    while image < image_count
        invariant
            image <= image_count,
            framebuffers@.len() == image,
            forall|k: int|
                0 <= k < image ==> framebuffers@[k] == (FramebufferLayout {
                    color_image: k as u32,
                    depth_extent: extent,
                }),
        decreases image_count - image,
    {
        framebuffers.push(FramebufferLayout { color_image: image, depth_extent: extent });
        image += 1;
    }
    assert(framebuffers@ =~= framebuffer_table(extent, image_count));
    SurfaceLayout { extent, depth_extent: extent, framebuffers, viewport: extent }
}

} // verus!

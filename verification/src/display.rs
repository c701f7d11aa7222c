//! Graphics-output collaborator: a stateless accessor over a mapped
//! framebuffer's location and shape. The subsystem only carries the
//! description; interpreting the raw framebuffer memory itself is the
//! mapping layer's business.

use vstd::prelude::*;

verus! {

/// Location and shape of a mapped framebuffer.
#[derive(Clone, Copy, PartialEq, Eq, Structural, Debug)]
pub struct DisplayInfo {
    /// Visible width in pixels.
    pub width: u32,
    /// Visible height in pixels.
    pub height: u32,
    /// Virtual address the framebuffer is mapped at.
    pub fb_base_vaddr: usize,
    /// Size of the framebuffer in bytes.
    pub fb_size: usize,
}

/// The display device: a named wrapper over one framebuffer
/// description.
pub struct PciDisplay {
    info: DisplayInfo,
}

impl PciDisplay {
    /// The framebuffer description this display was built over.
    pub closed spec fn info_spec(&self) -> DisplayInfo {
        self.info
    }

    /// Wrap a framebuffer description.
    pub fn new(info: DisplayInfo) -> (r: Self)
        ensures
            r.info_spec() == info,
    {
        PciDisplay { info }
    }

    /// The device's identity string.
    pub fn name(&self) -> (r: &str)
        ensures
            r@ == "pci-display"@,
    {
        "pci-display"
    }

    /// The framebuffer description.
    pub fn info(&self) -> (r: DisplayInfo)
        ensures
            r == self.info_spec(),
    {
        self.info
    }
}

} // verus!

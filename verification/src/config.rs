//! The build specification.

use crate::model::{KitConfigView, MappingView};
use vstd::prelude::*;

verus! {

/// A path on the host and the path below the staged root filesystem that its
/// contents are copied to.
#[derive(Debug, Clone, PartialEq, Eq)]
pub struct Mapping {
    pub source: String,
    pub target: String,
}

impl View for Mapping {
    type V = MappingView;

    open spec fn view(&self) -> MappingView {
        MappingView { source: self.source@, target: self.target@ }
    }
}

impl DeepView for Mapping {
    type V = MappingView;

    open spec fn deep_view(&self) -> MappingView {
        self@
    }
}

/// What a build is made from: container images, overlay mappings, and the
/// kernel with its command line and boot protocol.
#[derive(Debug, Clone, PartialEq, Eq)]
pub struct KitConfig {
    /// Image references, such as `registry/name:tag`.
    pub images: Vec<String>,
    /// Overlay copies, made after the images are extracted.
    pub mappings: Vec<Mapping>,
    /// The kernel's command line.
    pub cmdline: String,
    /// The path of the kernel image.
    pub kernel: String,
    /// The protocol by which the bootloader starts the kernel.
    pub boot_protocol: String,
}

impl View for KitConfig {
    type V = KitConfigView;

    open spec fn view(&self) -> KitConfigView {
        KitConfigView {
            images: self.images.deep_view(),
            mappings: self.mappings.deep_view(),
            cmdline: self.cmdline@,
            kernel: self.kernel@,
            boot_protocol: self.boot_protocol@,
        }
    }
}

} // verus!

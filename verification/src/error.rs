//! Error taxonomy of the presentation pipeline.
//!
//! Discovery errors abort the affected output only; allocation errors
//! abort the whole swapchain construction; commit errors are fatal for
//! a modeset and recoverable for a flip.  Errors coming back from the
//! device are carried as their raw OS error code.
use vstd::prelude::*;

verus! {

/// Result alias used throughout the pipeline.
pub type CompositorResult<T> = Result<T, CompositorError>;

/// Everything that can go wrong in the presentation pipeline.
///
/// Device-call failures carry the raw OS error code reported by the
/// kernel or driver; resource-related variants also carry the handle
/// of the object the call was about.
#[derive(Clone, Copy, Debug, PartialEq, Eq, Structural)]
pub enum CompositorError {
    /// The device node could not be opened.
    OpenCard(i32),
    /// Requesting a client capability (universal planes, atomic) failed.
    ClientCapability(i32),
    /// Resource handle enumeration failed.
    ResourcesError(i32),
    /// No connector is connected with a non-empty mode list.
    NoQualifiedConnectors,
    /// Creating a native scanout buffer failed.
    GbmCreation(i32),
    /// The native buffer's descriptor could not be duplicated.
    GbmFd(i32),
    /// Registering a buffer as a kernel framebuffer failed.
    AddFrameBuffer(i32),
    /// Plane handle enumeration failed.
    GetPlanes(i32),
    /// No claimable plane is compatible with the CRTC for the primary
    /// role; carries the CRTC handle.
    NoCompatiblePrimaryPlane(u32),
    /// Reading the properties of a plane failed; carries the plane handle.
    GetPlaneProperties(u32, i32),
    /// Reading the properties of a connector failed; carries its handle.
    GetConnectorProperties(u32, i32),
    /// Reading the properties of a CRTC failed; carries its handle.
    GetCrtcProperties(u32, i32),
    /// A required property name was missing from a resolved property
    /// dictionary.
    PropsToHashMap,
    /// The atomic commit was rejected by the device.
    AtomicCommitFailed(i32),
    /// A buffer offered for import had a zero width or height.
    VulkanImageDim,
    /// Creating the native GPU image failed.
    VulkanImageCreate(i32),
    /// No memory type is both device-local and accepted by the image's
    /// requirement mask.
    VulkanMemoryTypeIndex,
    /// Allocating the imported device memory failed.
    VulkanMemoryAlloc(i32),
    /// Binding the imported memory to the image failed.
    VulkanBindMemory(i32),
    /// The GPU API needed for the import path is unavailable.
    VulkanApi,
    /// The configuration file could not be opened.
    ConfigOpen(i32),
    /// The configuration file could not be read.
    ConfigRead(i32),
}

impl CompositorError {
    /// A short, human-readable description of the error kind.
    pub fn message(&self) -> (r: &'static str)
        ensures r@.len() > 0,
    {
        let r = match self {
            CompositorError::OpenCard(_) => "unable to open card",
            CompositorError::ClientCapability(_) => "unable to request client capability",
            CompositorError::ResourcesError(_) => "could not load resource ids",
            CompositorError::NoQualifiedConnectors => "no active connectors found",
            CompositorError::GbmCreation(_) => "failed to create buffer object",
            CompositorError::GbmFd(_) => "invalid buffer descriptor",
            CompositorError::AddFrameBuffer(_) => "failed to add framebuffer to card",
            CompositorError::GetPlanes(_) => "failed to get planes",
            CompositorError::NoCompatiblePrimaryPlane(_) => "no compatible primary plane for crtc",
            CompositorError::GetPlaneProperties(_, _) => "failed to get properties for plane",
            CompositorError::GetConnectorProperties(_, _) => "failed to get properties for connector",
            CompositorError::GetCrtcProperties(_, _) => "failed to get properties for crtc",
            CompositorError::PropsToHashMap => "failed to resolve property dictionary",
            CompositorError::AtomicCommitFailed(_) => "failed to commit request to crtc",
            CompositorError::VulkanImageDim => "buffer has zero width or height",
            CompositorError::VulkanImageCreate(_) => "failed to create native image",
            CompositorError::VulkanMemoryTypeIndex => "no device-local memory type accepted by image",
            CompositorError::VulkanMemoryAlloc(_) => "failed to allocate imported memory",
            CompositorError::VulkanBindMemory(_) => "failed to bind imported memory",
            CompositorError::VulkanApi => "gpu api unavailable",
            CompositorError::ConfigOpen(_) => "failed to open configuration file",
            CompositorError::ConfigRead(_) => "failed to read configuration file",
        };
        proof {
            assert(r@.len() > 0) by {
                reveal_strlit("unable to open card");
                reveal_strlit("unable to request client capability");
                reveal_strlit("could not load resource ids");
                reveal_strlit("no active connectors found");
                reveal_strlit("failed to create buffer object");
                reveal_strlit("invalid buffer descriptor");
                reveal_strlit("failed to add framebuffer to card");
                reveal_strlit("failed to get planes");
                reveal_strlit("no compatible primary plane for crtc");
                reveal_strlit("failed to get properties for plane");
                reveal_strlit("failed to get properties for connector");
                reveal_strlit("failed to get properties for crtc");
                reveal_strlit("failed to resolve property dictionary");
                reveal_strlit("failed to commit request to crtc");
                reveal_strlit("buffer has zero width or height");
                reveal_strlit("failed to create native image");
                reveal_strlit("no device-local memory type accepted by image");
                reveal_strlit("failed to allocate imported memory");
                reveal_strlit("failed to bind imported memory");
                reveal_strlit("gpu api unavailable");
                reveal_strlit("failed to open configuration file");
                reveal_strlit("failed to read configuration file");
            }
        }
        r
    }
}

} // verus!

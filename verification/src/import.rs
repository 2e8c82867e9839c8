//! Buffer import bridge, decision half: validate a scanout buffer's
//! geometry, assemble the explicit-modifier layout description for the
//! native image, and select the memory type for the external-memory
//! import.  The driver calls themselves are performed by the
//! application, step by step, and abort the whole swapchain
//! allocation on the first failure.
use vstd::prelude::*;
use crate::error::CompositorError;

verus! {

/// Layout of one memory plane of a buffer: byte offset and row pitch,
/// as the explicit-modifier image creation wants them.
#[derive(Clone, Copy, Debug, PartialEq, Eq, Structural)]
pub struct PlaneLayout {
    pub offset: u64,
    pub size: u64,
    pub row_pitch: u64,
    pub array_pitch: u64,
    pub depth_pitch: u64,
}

/// Everything the native image creation call needs: the validated
/// extent, the buffer's format modifier, and one layout per memory
/// plane.
#[derive(Debug)]
pub struct ImportPlan {
    pub width: u32,
    pub height: u32,
    pub modifier: u64,
    pub plane_layouts: Vec<PlaneLayout>,
}

/// Validate the buffer's geometry and assemble the import plan from
/// its format modifier and per-plane (offset, pitch) pairs.  A zero
/// extent is the one way this step fails.
pub fn plan_dmabuf_import(
    width: u32,
    height: u32,
    modifier: u64,
    planes: &Vec<(u64, u64)>,
) -> (r: Result<ImportPlan, CompositorError>)
    ensures
        r is Ok <==> width > 0 && height > 0,
        r matches Err(e) ==> e == CompositorError::VulkanImageDim,
        r matches Ok(p) ==> {
            &&& p.width == width
            &&& p.height == height
            &&& p.modifier == modifier
            &&& p.plane_layouts@.len() == planes@.len()
            &&& forall|i: int|
                0 <= i < planes@.len() ==> #[trigger] p.plane_layouts@[i] == (PlaneLayout {
                    offset: planes@[i].0,
                    size: 0,
                    row_pitch: planes@[i].1,
                    array_pitch: 0,
                    depth_pitch: 0,
                })
        },
{
    if width == 0 || height == 0 {
        return Err(CompositorError::VulkanImageDim);
    }
    let mut plane_layouts: Vec<PlaneLayout> = Vec::new();
    let mut i: usize = 0;
    while i < planes.len()
        invariant
            i <= planes@.len(),
            plane_layouts@.len() == i,
            forall|j: int|
                0 <= j < i ==> #[trigger] plane_layouts@[j] == (PlaneLayout {
                    offset: planes@[j].0,
                    size: 0,
                    row_pitch: planes@[j].1,
                    array_pitch: 0,
                    depth_pitch: 0,
                }),
        decreases planes@.len() - i,
    {
        let p = planes[i];
        plane_layouts.push(PlaneLayout {
            offset: p.0,
            size: 0,
            row_pitch: p.1,
            array_pitch: 0,
            depth_pitch: 0,
        });
        i += 1;
    }
    Ok(ImportPlan { width, height, modifier, plane_layouts })
}

/// Whether memory type `i` satisfies the import: accepted by the
/// image's requirement mask and carrying every required property flag.
pub open spec fn spec_mem_type_ok(type_filter: u32, flags: u32, required: u32, i: nat) -> bool {
    &&& i < 32
    &&& (type_filter >> (i as u32)) & 1 == 1
    &&& flags & required == required
}

/// Find the first memory type that the image's requirement mask
/// accepts and whose property flags contain all of `required`.
/// `memory_types` carries the property flags of the device's memory
/// types, in order.
pub fn find_memory_type_index(type_filter: u32, required: u32, memory_types: &Vec<u32>) -> (r: Option<u32>)
    requires
        memory_types@.len() <= 32,
    ensures
        r matches Some(i) ==> {
            &&& (i as int) < memory_types@.len()
            &&& spec_mem_type_ok(type_filter, memory_types@[i as int], required, i as nat)
            &&& forall|j: int|
                0 <= j < i ==> !spec_mem_type_ok(
                    type_filter,
                    #[trigger] memory_types@[j],
                    required,
                    j as nat,
                )
        },
        r is None ==> forall|j: int|
            0 <= j < memory_types@.len() ==> !spec_mem_type_ok(
                type_filter,
                #[trigger] memory_types@[j],
                required,
                j as nat,
            ),
{
    let mut i: usize = 0;
    while i < memory_types.len()
        invariant
            i <= memory_types@.len(),
            memory_types@.len() <= 32,
            forall|j: int|
                0 <= j < i ==> !spec_mem_type_ok(
                    type_filter,
                    #[trigger] memory_types@[j],
                    required,
                    j as nat,
                ),
        decreases memory_types@.len() - i,
    {
        let flags = memory_types[i];
        if (type_filter >> (i as u32)) & 1 == 1 && flags & required == required {
            return Some(i as u32);
        }
        i += 1;
    }
    None
}

/// Select the memory type for a device-local external-memory import;
/// the absence of a qualifying type is fatal for the import.
pub fn select_import_memory(type_filter: u32, required: u32, memory_types: &Vec<u32>) -> (r: Result<
    u32,
    CompositorError,
>)
    requires
        memory_types@.len() <= 32,
    ensures
        r is Err <==> (forall|j: int|
            0 <= j < memory_types@.len() ==> !spec_mem_type_ok(
                type_filter,
                #[trigger] memory_types@[j],
                required,
                j as nat,
            )),
        r matches Err(e) ==> e == CompositorError::VulkanMemoryTypeIndex,
        r matches Ok(i) ==> {
            &&& (i as int) < memory_types@.len()
            &&& spec_mem_type_ok(type_filter, memory_types@[i as int], required, i as nat)
            &&& forall|j: int|
                0 <= j < i ==> !spec_mem_type_ok(
                    type_filter,
                    #[trigger] memory_types@[j],
                    required,
                    j as nat,
                )
        },
{
    match find_memory_type_index(type_filter, required, memory_types) {
        Some(i) => Ok(i),
        None => Err(CompositorError::VulkanMemoryTypeIndex),
    }
}

/// Pick the adapter to render on: the first discrete GPU when one
/// exists, else the first adapter of any kind.
pub fn select_adapter_index(is_discrete: &Vec<bool>) -> (r: Option<usize>)
    ensures
        r is None <==> is_discrete@.len() == 0,
        r matches Some(i) ==> {
            &&& i < is_discrete@.len()
            &&& (is_discrete@[i as int] || forall|j: int|
                0 <= j < is_discrete@.len() ==> !(#[trigger] is_discrete@[j]))
            &&& forall|j: int| 0 <= j < i ==> !(#[trigger] is_discrete@[j])
        },
{
    let mut i: usize = 0;
    while i < is_discrete.len()
        invariant
            i <= is_discrete@.len(),
            forall|j: int| 0 <= j < i ==> !(#[trigger] is_discrete@[j]),
        decreases is_discrete@.len() - i,
    {
        if is_discrete[i] {
            return Some(i);
        }
        i += 1;
    }
    if is_discrete.len() > 0 {
        Some(0)
    } else {
        None
    }
}

} // verus!

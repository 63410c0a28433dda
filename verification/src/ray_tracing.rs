//! Ray tracing acceleration structures and the data the GPU reads to trace rays: the
//! geometry of bottom-level structures, instance records, and shader binding tables.
use vstd::prelude::*;

use vstd::arithmetic::div_mod::lemma_fundamental_div_mod_converse;

use crate::math::{lemma_align_up, min_value_align_to, spec_align_up};
use crate::pipeline::RayTracingShaderBindingTableDesc;

verus! {

/// A ray tracing acceleration structure: its raw Vulkan handle.
#[derive(Debug)]
pub struct RayTracingAccelerationStructure {
    /// Raw `VkAccelerationStructureKHR` handle.
    pub raw: u64,
}

/// The kind of primitives of a geometry.
#[derive(Clone, Copy, Debug, PartialEq, Eq, Structural)]
pub enum RayTracingGeometryType {
    Triangle,
    AABB,
}

/// `VK_GEOMETRY_TYPE_TRIANGLES_KHR`.
pub const GEOMETRY_TYPE_TRIANGLES: i32 = 0;

/// `VK_GEOMETRY_TYPE_AABBS_KHR`.
pub const GEOMETRY_TYPE_AABBS: i32 = 1;

/// The `VkGeometryTypeKHR` of a geometry type.
pub fn geometry_type_to_vk(ty: RayTracingGeometryType) -> (vk_ty: i32)
    ensures
        vk_ty == (match ty {
            RayTracingGeometryType::Triangle => GEOMETRY_TYPE_TRIANGLES,
            RayTracingGeometryType::AABB => GEOMETRY_TYPE_AABBS,
        }),
{
    match ty {
        RayTracingGeometryType::Triangle => GEOMETRY_TYPE_TRIANGLES,
        RayTracingGeometryType::AABB => GEOMETRY_TYPE_AABBS,
    }
}

/// A range of the index buffer of a geometry.
#[derive(Copy, Clone, Debug, PartialEq, Eq, Structural)]
pub struct RayTracingSubGeometry {
    /// Index count within this sub geometry.
    pub index_count: usize,
    /// Offset of the first index used.
    pub index_offset: usize,
    /// The highest index of a vertex a build addresses.
    pub max_vertex: u32,
}

/// A geometry of a bottom-level acceleration structure.
#[derive(Clone, Debug)]
pub struct RayTracingGeometry {
    pub geo_type: RayTracingGeometryType,
    /// Device address of the vertex buffer.
    pub vb_address: u64,
    /// Device address of the index buffer.
    pub ib_address: u64,
    /// `VkFormat` of a vertex position.
    pub vertex_format: i32,
    pub vertex_stride: usize,
    pub sub_geometries: Vec<RayTracingSubGeometry>,
}

/// The geometries of a bottom-level acceleration structure.
#[derive(Clone, Debug)]
pub struct RayTracingBlasBuildDesc {
    pub geometries: Vec<RayTracingGeometry>,
}

/// The number of triangles of each geometry: its first range's indices, three per triangle.
pub fn blas_primitive_counts(desc: &RayTracingBlasBuildDesc) -> (counts: Vec<u32>)
    requires
        forall|i: int|
            0 <= i < desc.geometries@.len() ==> (#[trigger] desc.geometries@[i]).sub_geometries@.len() > 0,
    ensures
        counts@.len() == desc.geometries@.len(),
        forall|i: int|
            0 <= i < counts@.len() ==> #[trigger] counts@[i] == (desc.geometries@[i].sub_geometries@[0].index_count
                as u32) / 3,
{
    let mut counts: Vec<u32> = Vec::new();
    let mut i: usize = 0;
    while i < desc.geometries.len()
        invariant
            i <= desc.geometries@.len(),
            forall|k: int|
                0 <= k < desc.geometries@.len() ==> (#[trigger] desc.geometries@[k]).sub_geometries@.len() > 0,
            counts@.len() == i,
            forall|k: int|
                0 <= k < i ==> #[trigger] counts@[k] == (desc.geometries@[k].sub_geometries@[0].index_count
                    as u32) / 3,
        decreases desc.geometries@.len() - i,
    {
        let sub = desc.geometries[i].sub_geometries[0];
        counts.push((sub.index_count as u32) / 3);
        i = i + 1;
    }
    counts
}

/// Bytes of the buffer backing an acceleration structure: what was preallocated, or what the
/// structure needs if that is more.
pub fn acceleration_structure_backing_size(preallocate_bytes: usize, required_bytes: usize) -> (size: usize)
    ensures
        size >= preallocate_bytes,
        size >= required_bytes,
        size == preallocate_bytes || size == required_bytes,
{
    if preallocate_bytes >= required_bytes {
        preallocate_bytes
    } else {
        required_bytes
    }
}

/// The instance id (low 24 bits) and visibility mask (high 8 bits) of an instance record.
pub open spec fn spec_pack_24_8(low: u32, high: u32) -> u32 {
    (low & 0x00ffffff) | ((high << 24u32) as u32)
}

/// An instance record word: the low 24 bits of `low` under the low 8 bits of `high`. It holds
/// the instance id and mask, or the shader binding table offset and flags.
pub fn pack_24_8(low: u32, high: u32) -> (word: u32)
    ensures
        word == spec_pack_24_8(low, high),
{
    (low & 0x00ffffff) | (high << 24u32)
}

/// A packed instance word gives back the low 24 bits of what went low and the low 8 bits of
/// what went high.
pub proof fn lemma_pack_24_8_unpacks(low: u32, high: u32)
    ensures
        spec_pack_24_8(low, high) & 0x00ffffff == low & 0x00ffffff,
        spec_pack_24_8(low, high) >> 24u32 == high & 0xff,
{
    assert(((low & 0x00ffffff) | ((high << 24u32) as u32)) & 0x00ffffff == low & 0x00ffffff) by (bit_vector);
    assert(((low & 0x00ffffff) | ((high << 24u32) as u32)) >> 24u32 == high & 0xff) by (bit_vector);
}

/// Where the regions of a shader binding table lie: the raygen region is one entry wide, the
/// miss and hit regions step one aligned handle per entry; each region's size is its
/// entries rounded up to the base alignment.
#[derive(Copy, Clone, Debug, PartialEq, Eq, Structural)]
pub struct ShaderBindingTableLayout {
    pub handle_size_aligned: usize,
    pub raygen_stride: u64,
    pub raygen_size: u64,
    pub miss_stride: u64,
    pub miss_size: u64,
    pub hit_stride: u64,
    pub hit_size: u64,
}

/// The layout of a shader binding table for handles of `handle_size` bytes aligned to
/// `handle_alignment`, with regions aligned to `base_alignment`.
pub fn shader_binding_table_layout(
    desc: RayTracingShaderBindingTableDesc,
    handle_size: usize,
    handle_alignment: usize,
    base_alignment: usize,
) -> (layout: ShaderBindingTableLayout)
    requires
        handle_alignment > 0,
        base_alignment > 0,
        handle_size + handle_alignment <= usize::MAX,
        spec_align_up(handle_size as int, handle_alignment as int) * (desc.raygen_entry_count + desc.miss_entry_count
            + desc.hit_entry_count) + base_alignment <= usize::MAX,
    ensures
        layout.handle_size_aligned == spec_align_up(handle_size as int, handle_alignment as int),
        layout.raygen_stride == spec_align_up(
            layout.handle_size_aligned * desc.raygen_entry_count,
            base_alignment as int,
        ),
        layout.raygen_size == layout.raygen_stride,
        layout.miss_stride == layout.handle_size_aligned,
        layout.miss_size == spec_align_up(layout.handle_size_aligned * desc.miss_entry_count, base_alignment as int),
        layout.hit_stride == layout.handle_size_aligned,
        layout.hit_size == spec_align_up(layout.handle_size_aligned * desc.hit_entry_count, base_alignment as int),
{
    proof {
        lemma_align_up(handle_size as int, handle_alignment as int);
    }
    let hsa = min_value_align_to(handle_size, handle_alignment);
    let ghost total = desc.raygen_entry_count + desc.miss_entry_count + desc.hit_entry_count;
    assert(hsa * desc.raygen_entry_count <= hsa * total && hsa * desc.miss_entry_count <= hsa * total
        && hsa * desc.hit_entry_count <= hsa * total) by (nonlinear_arith)
        requires
            total == desc.raygen_entry_count + desc.miss_entry_count + desc.hit_entry_count,
            hsa >= 0,
    ;
    let raygen = min_value_align_to(hsa * desc.raygen_entry_count as usize, base_alignment);
    let miss = min_value_align_to(hsa * desc.miss_entry_count as usize, base_alignment);
    let hit = min_value_align_to(hsa * desc.hit_entry_count as usize, base_alignment);
    ShaderBindingTableLayout {
        handle_size_aligned: hsa,
        raygen_stride: raygen as u64,
        raygen_size: raygen as u64,
        miss_stride: hsa as u64,
        miss_size: miss as u64,
        hit_stride: hsa as u64,
        hit_size: hit as u64,
    }
}

/// The byte at `k` of the region of a shader binding table holding `count` entries from entry
/// `offset` on: each entry's handle at the start of its aligned slot, zeros elsewhere.
pub open spec fn spec_sbt_byte(
    handles: Seq<u8>,
    offset: int,
    count: int,
    handle_size: int,
    handle_size_aligned: int,
    k: int,
) -> u8 {
    let d = k / handle_size_aligned;
    let b = k % handle_size_aligned;
    if d < count && b < handle_size {
        handles[(d + offset) * handle_size + b]
    } else {
        0
    }
}

/// The bytes of the region of a shader binding table holding `entry_count` entries from
/// entry `entry_offset` on, copied from the handles the pipeline gave, one per aligned slot;
/// none when there is no entry.
pub fn shader_binding_table_bytes(
    group_handles: &Vec<u8>,
    entry_offset: u32,
    entry_count: u32,
    handle_size: usize,
    handle_size_aligned: usize,
    base_alignment: usize,
) -> (bytes: Option<Vec<u8>>)
    requires
        0 < handle_size <= handle_size_aligned,
        base_alignment > 0,
        (entry_offset + entry_count) * handle_size <= group_handles@.len(),
        entry_count * handle_size_aligned + base_alignment <= usize::MAX,
    ensures
        entry_count == 0 <==> bytes is None,
        bytes matches Some(b) ==> b@.len() == spec_align_up(
            entry_count * handle_size_aligned,
            base_alignment as int,
        ) && forall|k: int|
            0 <= k < b@.len() ==> #[trigger] b@[k] == spec_sbt_byte(
                group_handles@,
                entry_offset as int,
                entry_count as int,
                handle_size as int,
                handle_size_aligned as int,
                k,
            ),
{
    if entry_count == 0 {
        return None;
    }
    let count = entry_count as usize;
    let offset = entry_offset as usize;
    proof {
        lemma_align_up(count * handle_size_aligned, base_alignment as int);
    }
    let n = min_value_align_to(count * handle_size_aligned, base_alignment);
    let mut bytes: Vec<u8> = vec![0u8; n];
    let ghost hs = handle_size as int;
    let ghost hsa = handle_size_aligned as int;
    let ghost handles = group_handles@;
    let glen = group_handles.len();
    let mut dst: usize = 0;
    assert(offset + count <= (offset + count) * hs) by (nonlinear_arith)
        requires
            hs >= 1,
            offset + count >= 0,
    ;
    while dst < count
        invariant
            offset + count <= handles.len(),
            handles.len() == glen,
            0 < hs <= hsa,
            hs == handle_size,
            hsa == handle_size_aligned,
            handles == group_handles@,
            count == entry_count,
            offset == entry_offset,
            (offset + count) * hs <= handles.len(),
            count * hsa <= n,
            n <= usize::MAX,
            bytes@.len() == n,
            dst <= count,
            forall|k: int|
                0 <= k < n ==> #[trigger] bytes@[k] == (if k / hsa < dst {
                    spec_sbt_byte(handles, offset as int, count as int, hs, hsa, k)
                } else {
                    0u8
                }),
        decreases count - dst,
    {
        let src = dst + offset;
        assert((dst + 1) * hsa <= count * hsa && (src + 1) * hs <= (offset + count) * hs
            && dst * hsa + hsa == (dst + 1) * hsa && src * hs + hs == (src + 1) * hs) by (nonlinear_arith)
            requires
                dst < count,
                src == dst + offset,
                hsa > 0,
                hs > 0,
        ;
        let mut b: usize = 0;
        while b < handle_size
            invariant
                0 < hs <= hsa,
                hs == handle_size,
                hsa == handle_size_aligned,
                handles == group_handles@,
                count == entry_count,
                offset == entry_offset,
                src == dst + offset,
                dst < count,
                (dst + 1) * hsa <= count * hsa,
                count * hsa <= n,
                (src + 1) * hs <= handles.len(),
                handles.len() == glen,
                dst * hsa + hsa == (dst + 1) * hsa,
                src * hs + hs == (src + 1) * hs,
                bytes@.len() == n,
                b <= hs,
                forall|k: int|
                    0 <= k < n ==> #[trigger] bytes@[k] == (if k / hsa < dst || (k / hsa == dst && k % hsa < b) {
                        spec_sbt_byte(handles, offset as int, count as int, hs, hsa, k)
                    } else {
                        0u8
                    }),
            decreases hs - b,
        {
            assert(src * hs + b < handles.len() && dst * hsa + b < n) by (nonlinear_arith)
                requires
                    b < hs,
                    src * hs + hs == (src + 1) * hs,
                    (src + 1) * hs <= handles.len(),
                    dst * hsa + hsa == (dst + 1) * hsa,
                    (dst + 1) * hsa <= count * hsa,
                    count * hsa <= n,
                    hs <= hsa,
            ;
            let pos = dst * handle_size_aligned + b;
            let v = group_handles[src * handle_size + b];
            proof {
                lemma_fundamental_div_mod_converse(pos as int, hsa, dst as int, b as int);
            }
            bytes.set(pos, v);
            proof {
                assert forall|k: int| 0 <= k < n implies #[trigger] bytes@[k] == (if k / hsa < dst || (k / hsa
                    == dst && k % hsa < b + 1) {
                    spec_sbt_byte(handles, offset as int, count as int, hs, hsa, k)
                } else {
                    0u8
                }) by {
                    if k == pos {
                    } else {
                        if k / hsa == dst && k % hsa == b {
                            assert(k == (k / hsa) * hsa + k % hsa) by (nonlinear_arith)
                                requires
                                    hsa > 0,
                            ;
                            assert((k / hsa) * hsa == dst * hsa);
                        }
                    }
                }
            }
            b = b + 1;
        }
        proof {
            assert forall|k: int| 0 <= k < n implies #[trigger] bytes@[k] == (if k / hsa < dst + 1 {
                spec_sbt_byte(handles, offset as int, count as int, hs, hsa, k)
            } else {
                0u8
            }) by {
                if k / hsa == dst && k % hsa >= hs {
                    assert(spec_sbt_byte(handles, offset as int, count as int, hs, hsa, k) == 0u8);
                }
                assert(0 <= k % hsa < hsa) by (nonlinear_arith)
                    requires
                        hsa > 0,
                ;
            }
        }
        dst = dst + 1;
    }
    proof {
        assert forall|k: int| 0 <= k < n implies #[trigger] bytes@[k] == spec_sbt_byte(
            handles,
            offset as int,
            count as int,
            hs,
            hsa,
            k,
        ) by {
            if k / hsa >= count {
                assert(spec_sbt_byte(handles, offset as int, count as int, hs, hsa, k) == 0u8);
            }
        }
    }
    Some(bytes)
}

} // verus!

use raven_rg::buffer::{Buffer, BufferDesc};
use raven_rg::copy_engine::{CopyEngine, UploadChunk, STAGING_BUFFER_SIZE_BYTES};
use raven_rg::dynamic_buffer::{DynamicBuffer, MAX_DYNAMIC_BUFFER_SIZE_BYTES};
use raven_rg::pipeline::RayTracingShaderBindingTableDesc;
use raven_rg::ray_tracing::{
    acceleration_structure_backing_size, blas_primitive_counts, geometry_type_to_vk, pack_24_8,
    shader_binding_table_bytes, shader_binding_table_layout, RayTracingBlasBuildDesc,
    RayTracingGeometry, RayTracingGeometryType, RayTracingSubGeometry,
};
use raven_rg::vk;

use ash::vk as ashvk;

fn dynamic_buffer(uniform_align: u64, storage_align: u64) -> DynamicBuffer {
    let buffer = Buffer {
        raw: 1,
        desc: BufferDesc::new_cpu_to_gpu(MAX_DYNAMIC_BUFFER_SIZE_BYTES * 2, vk::BUFFER_USAGE_UNIFORM_BUFFER),
    };
    DynamicBuffer::new(buffer, uniform_align, storage_align, 65536, 1 << 27)
}

#[test]
fn dynamic_buffer_alignment_is_the_larger_one() {
    let b = dynamic_buffer(64, 256);
    assert_eq!(b.alignment, 256);
    assert_eq!(b.current_offset(), 0);
    assert_eq!(b.max_uniform_buffer_range(), 65536);
    assert_eq!(b.max_storage_buffer_range(), 1 << 27);
}

#[test]
fn dynamic_buffer_push_advances_by_aligned_size() {
    let mut b = dynamic_buffer(256, 64);
    assert_eq!(b.push(100), 0);
    assert_eq!(b.previous_pushed_data_offset(), 0);
    assert_eq!(b.current_offset(), 256);
    assert_eq!(b.push(256), 256);
    assert_eq!(b.current_offset(), 512);
    assert_eq!(b.push(0), 512);
    assert_eq!(b.current_offset(), 512);
    assert_eq!(b.previous_pushed_data_offset(), 512);
}

#[test]
fn dynamic_buffer_push_from_iter_packs_elements() {
    let mut b = dynamic_buffer(256, 256);
    b.push(10);
    let offset = b.push_from_iter(3, 12, 16);
    assert_eq!(offset, 256);
    assert_eq!(b.current_offset(), 256 + 256);
    let offset = b.push_from_iter(40, 12, 16);
    assert_eq!(offset, 512);
    assert_eq!(b.current_offset(), 512 + 768);
}

#[test]
fn dynamic_buffer_frames_use_separate_halves() {
    let mut b = dynamic_buffer(16, 16);
    b.push(32);
    b.advance_frame();
    assert_eq!(b.current_frame, 1);
    assert_eq!(b.current_offset(), MAX_DYNAMIC_BUFFER_SIZE_BYTES as u32);
    assert_eq!(b.previous_pushed_data_offset(), 0);
    assert_eq!(b.push(1), MAX_DYNAMIC_BUFFER_SIZE_BYTES as u32);
    b.advance_frame();
    assert_eq!(b.current_frame, 0);
    assert_eq!(b.current_offset(), 0);
    let buffer = b.clean();
    assert_eq!(buffer.raw, 1);
}

#[test]
fn copy_engine_places_pieces_one_after_another() {
    let a: Vec<u8> = vec![1, 2, 3];
    let b: Vec<u8> = vec![4; 10];
    let c: &[u8] = &[9, 9];
    let mut engine = CopyEngine::new();
    assert_eq!(engine.current_offset(), 0);
    assert_eq!(engine.copy(&a), 0);
    assert_eq!(engine.copy(&b), 3);
    assert_eq!(engine.copy(&c), 13);
    assert_eq!(engine.current_offset(), 15);
    assert_eq!(engine.total_bytes(), 15);
    assert_eq!(engine.copy_primitives.len(), 3);
    assert_eq!(engine.copy_primitives[1].source, &b[..]);
}

#[test]
fn copy_engine_takes_words_and_bytes() {
    let a: Vec<u32> = vec![1, 2, 3];
    let b: Vec<u8> = vec![7];
    let mut engine = CopyEngine::new();
    assert_eq!(engine.copy(&a), 0);
    assert_eq!(engine.copy(&b), 12);
    assert_eq!(engine.current_offset(), 13);
    assert_eq!(engine.copy_primitives[0].source.len(), 12);
    let words: &[u32] = &[5, 6];
    let mut aligned = CopyEngine::new();
    aligned.copy(&words);
    assert_eq!(aligned.current_offset(), 8);
    assert_eq!(aligned.total_bytes(), 8);
    let mut expected = Vec::new();
    expected.extend_from_slice(&5u32.to_ne_bytes());
    expected.extend_from_slice(&6u32.to_ne_bytes());
    assert_eq!(aligned.copy_primitives[0].source, &expected[..]);
}

#[test]
fn copy_engine_chunks_small_pieces_whole() {
    let a: Vec<u8> = vec![1, 2, 3];
    let b: Vec<u8> = vec![4; 10];
    let mut engine = CopyEngine::new();
    engine.copy(&a);
    engine.copy(&b);
    let chunks = engine.upload_chunks(100);
    assert_eq!(
        chunks,
        vec![
            UploadChunk { source_idx: 0, source_start: 0, source_end: 3, dst_offset: 100 },
            UploadChunk { source_idx: 1, source_start: 0, source_end: 10, dst_offset: 103 },
        ]
    );
}

#[test]
fn copy_engine_splits_large_pieces() {
    let big: Vec<u8> = vec![0; STAGING_BUFFER_SIZE_BYTES * 2 + 5];
    let empty: Vec<u8> = vec![];
    let mut engine = CopyEngine::new();
    engine.copy(&empty);
    engine.copy(&big);
    let chunks = engine.upload_chunks(0);
    assert_eq!(chunks.len(), 3);
    assert_eq!(chunks[0].source_idx, 1);
    assert_eq!(chunks[0].source_end, STAGING_BUFFER_SIZE_BYTES);
    assert_eq!(chunks[1].source_start, STAGING_BUFFER_SIZE_BYTES);
    assert_eq!(chunks[1].dst_offset, STAGING_BUFFER_SIZE_BYTES as u64);
    assert_eq!(chunks[2].source_start, STAGING_BUFFER_SIZE_BYTES * 2);
    assert_eq!(chunks[2].source_end, STAGING_BUFFER_SIZE_BYTES * 2 + 5);
    let mut covered = 0;
    for c in chunks.iter() {
        assert_eq!(c.source_start, covered);
        covered = c.source_end;
    }
    assert_eq!(covered, big.len());
}

#[test]
fn blas_counts_triangles_of_first_range() {
    let geo = |index_count: usize| RayTracingGeometry {
        geo_type: RayTracingGeometryType::Triangle,
        vb_address: 0,
        ib_address: 0,
        vertex_format: vk::FORMAT_R8G8B8A8_UNORM,
        vertex_stride: 12,
        sub_geometries: vec![RayTracingSubGeometry { index_count, index_offset: 0, max_vertex: 10 }],
    };
    let desc = RayTracingBlasBuildDesc { geometries: vec![geo(36), geo(7), geo(0)] };
    assert_eq!(blas_primitive_counts(&desc), vec![12, 2, 0]);
    assert_eq!(geometry_type_to_vk(RayTracingGeometryType::Triangle), ashvk::GeometryTypeKHR::TRIANGLES.as_raw());
    assert_eq!(geometry_type_to_vk(RayTracingGeometryType::AABB), ashvk::GeometryTypeKHR::AABBS.as_raw());
}

#[test]
fn backing_size_is_the_larger() {
    assert_eq!(acceleration_structure_backing_size(1024, 100), 1024);
    assert_eq!(acceleration_structure_backing_size(0, 100), 100);
    assert_eq!(acceleration_structure_backing_size(7, 7), 7);
}

#[test]
fn instance_words_pack_and_unpack() {
    let w = pack_24_8(0x123456, 0xff);
    assert_eq!(w, 0xff123456);
    assert_eq!(w & 0x00ff_ffff, 0x123456);
    assert_eq!(w >> 24, 0xff);
    let w = pack_24_8(0xabcdef12, 0x1ff);
    assert_eq!(w & 0x00ff_ffff, 0xcdef12);
    assert_eq!(w >> 24, 0xff);
}

#[test]
fn shader_binding_table_layout_example() {
    let desc = RayTracingShaderBindingTableDesc { raygen_entry_count: 1, miss_entry_count: 2, hit_entry_count: 3 };
    let layout = shader_binding_table_layout(desc, 32, 32, 64);
    assert_eq!(layout.handle_size_aligned, 32);
    assert_eq!(layout.raygen_stride, 64);
    assert_eq!(layout.raygen_size, 64);
    assert_eq!(layout.miss_stride, 32);
    assert_eq!(layout.miss_size, 64);
    assert_eq!(layout.hit_stride, 32);
    assert_eq!(layout.hit_size, 128);
    let layout = shader_binding_table_layout(desc, 20, 16, 64);
    assert_eq!(layout.handle_size_aligned, 32);
}

#[test]
fn shader_binding_table_bytes_pad_each_handle() {
    let handles: Vec<u8> = (1..=12).collect();
    let bytes = shader_binding_table_bytes(&handles, 1, 2, 4, 8, 32).unwrap();
    assert_eq!(bytes.len(), 32);
    assert_eq!(&bytes[0..4], &[5, 6, 7, 8]);
    assert_eq!(&bytes[4..8], &[0, 0, 0, 0]);
    assert_eq!(&bytes[8..12], &[9, 10, 11, 12]);
    assert!(bytes[12..].iter().all(|b| *b == 0));
    assert_eq!(shader_binding_table_bytes(&handles, 0, 0, 4, 8, 32), None);
}

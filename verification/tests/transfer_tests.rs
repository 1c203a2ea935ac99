use cpyte_engine::image::{ImageLayout, MipCommand};
use cpyte_engine::transfer::{
    memory_class_for, BufferKind, DeviceBuffer, DeviceImage, MemoryClass, StagingBuffer,
};

#[test]
fn staging_and_uniform_buffers_are_host_visible() {
    assert_eq!(memory_class_for(BufferKind::Staging), MemoryClass::HostVisibleCoherent);
    assert_eq!(memory_class_for(BufferKind::Uniform), MemoryClass::HostVisibleCoherent);
    assert_eq!(memory_class_for(BufferKind::Vertex), MemoryClass::DeviceLocal);
    assert_eq!(memory_class_for(BufferKind::Index), MemoryClass::DeviceLocal);
    let staging = StagingBuffer::from_bytes(&vec![1, 2, 3]);
    assert_eq!(staging.memory_class(), MemoryClass::HostVisibleCoherent);
}

#[test]
fn buffer_round_trip_returns_the_written_bytes() {
    let data: Vec<u8> = vec![7, 0, 255, 42, 13, 1];
    let mut vertex_buffer = DeviceBuffer::new(BufferKind::Vertex, data.len());
    vertex_buffer.fill(&data);
    assert_eq!(vertex_buffer.read_back(), data);
}

#[test]
fn buffer_copy_from_staging_is_byte_identical() {
    let data: Vec<u8> = (0..64).collect();
    let staging = StagingBuffer::from_bytes(&data);
    let mut index_buffer = DeviceBuffer::new(BufferKind::Index, data.len());
    index_buffer.copy_from_staging(&staging);
    assert_eq!(index_buffer.read_back(), data);
}

#[test]
fn empty_upload_round_trips() {
    let data: Vec<u8> = Vec::new();
    let mut buffer = DeviceBuffer::new(BufferKind::Uniform, 0);
    buffer.fill(&data);
    assert_eq!(buffer.read_back(), data);
}

#[test]
fn image_round_trip_returns_the_written_pixels() {
    // A 2x2 image: four RGBA pixels.
    let pixels: Vec<u8> = vec![
        255, 0, 0, 255, 0, 255, 0, 255, 0, 0, 255, 255, 9, 9, 9, 9,
    ];
    let mut image = DeviceImage::new(2, 2, 2);
    let ops = image.fill(&pixels);
    assert_eq!(image.read_back(), pixels);
    // 2x2 with two levels: one barrier-blit-barrier triple plus the final barrier.
    assert_eq!(ops.len(), 4);
    assert_eq!(
        ops[1],
        MipCommand::Blit {
            src_level: 0,
            src_width: 2,
            src_height: 2,
            dst_level: 1,
            dst_width: 1,
            dst_height: 1,
        }
    );
}

#[test]
fn image_follows_the_layout_protocol() {
    let pixels: Vec<u8> = vec![1, 2, 3, 4];
    let mut image = DeviceImage::new(1, 1, 1);
    image.transition(ImageLayout::TransferDstOptimal);
    let staging = StagingBuffer::from_bytes(&pixels);
    image.copy_from_staging(&staging);
    let ops = image.generate_mipmaps();
    assert_eq!(ops.len(), 1);
    assert_eq!(image.read_back(), pixels);
    assert_eq!(image.width(), 1);
    assert_eq!(image.height(), 1);
    assert_eq!(image.mip_levels(), 1);
}

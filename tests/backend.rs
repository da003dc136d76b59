use render_prototype::buffer::{Buffer, BufferDescriptor, BufferUsage, BUFFER_USAGE_ALL};
use render_prototype::commands::{CommandBuffer, CommandEncoder};
use render_prototype::config::{
    BackendConfig, PowerPreference, RenderPlugin, RenderPluginConfig, WgpuConfig,
};
use render_prototype::device_queue::{Device, Queue};
use render_prototype::texture::{
    Extent3d, Origin3d, Texture, TextureCopyView, TextureDataLayout, TextureUsage,
};

#[test]
fn headless_device_creates_buffers_of_the_asked_size() {
    let usage = BufferUsage::from_bits(BufferUsage::UNIFORM | BufferUsage::COPY_DST).unwrap();
    let desc = BufferDescriptor { label: Some("uniforms"), size: 256, usage, mapped_at_creation: false };
    let buffer = Device::Headless.create_buffer(&desc);
    assert_eq!(buffer.size(), 256);
    buffer.unmap();
    Queue::Headless.write_buffer(&buffer, 0, &[1, 2, 3]);
}

#[test]
fn usage_bits_outside_the_known_flags_are_refused() {
    assert_eq!(BufferUsage::from_bits(BUFFER_USAGE_ALL).unwrap().bits(), 511);
    assert!(BufferUsage::from_bits(512).is_none());
    assert_eq!(TextureUsage::from_bits(TextureUsage::SAMPLED).unwrap().bits(), 4);
    assert!(TextureUsage::from_bits(32).is_none());
}

#[test]
fn headless_encoder_records_and_finishes() {
    let a = Buffer::Headless { size: 16 };
    let b = Buffer::Headless { size: 16 };
    let mut encoder = CommandEncoder::Headless;
    encoder.copy_buffer_to_buffer(&a, 0, &b, 0, 16);
    let commands = encoder.finish();
    assert_eq!(commands, CommandBuffer::Headless);
    Queue::Headless.submit(vec![commands]);
}

#[test]
fn headless_queue_accepts_texture_writes() {
    let size = Extent3d { width: 2, height: 2, depth: 1 };
    let texture = Texture::Headless { size };
    assert_eq!(texture.size(), size);
    let view = TextureCopyView { texture: &texture, mip_level: 0, origin: Origin3d { x: 0, y: 0, z: 0 } };
    let layout = TextureDataLayout { offset: 0, bytes_per_row: 8, rows_per_image: 2 };
    Queue::Headless.write_texture(view, &[0; 16], layout, size);
}

#[test]
fn default_config_asks_for_the_gpu_backend() {
    let config = RenderPluginConfig::default();
    assert_eq!(config.power_preference, None);
    assert_eq!(config.backend, BackendConfig::Wgpu(WgpuConfig { shader_validation: true }));
    assert!(WgpuConfig::default().shader_validation);
    assert!(RenderPlugin::headless_device_and_queue(&config).is_none());
}

#[test]
fn headless_config_gives_headless_device_and_queue() {
    let config = RenderPluginConfig { power_preference: None, backend: BackendConfig::Headless };
    assert_eq!(
        RenderPlugin::headless_device_and_queue(&config),
        Some((Device::Headless, Queue::Headless))
    );
}

#[test]
fn power_preference_defaults_to_high_performance() {
    let mut config = RenderPluginConfig::default();
    assert_eq!(RenderPlugin::adapter_power_preference(&config), PowerPreference::HighPerformance);
    config.power_preference = Some(PowerPreference::LowPower);
    assert_eq!(RenderPlugin::adapter_power_preference(&config), PowerPreference::LowPower);
    config.power_preference = Some(PowerPreference::HighPerformance);
    assert_eq!(RenderPlugin::adapter_power_preference(&config), PowerPreference::HighPerformance);
}

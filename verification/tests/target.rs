use render_steps::channel::RenderSteps;
use render_steps::target::AllocationError;
use render_steps::target::RenderParameters;
use render_steps::target::RenderTargets;
use render_steps::target::Texture;

#[test]
fn targets_have_the_resolution_asked_for() {
    let params = RenderParameters::new((640, 480)).unwrap();
    assert_eq!(params.resolution(), (640, 480));
    let diffuse = params.get_render_target(&RenderSteps::Diffuse);
    let emissive = params.get_render_target(&RenderSteps::Emissive);
    assert_eq!(
        *diffuse.texture,
        Texture { channel: RenderSteps::Diffuse, width: 640, height: 480 }
    );
    assert_eq!(
        *emissive.texture,
        Texture { channel: RenderSteps::Emissive, width: 640, height: 480 }
    );
}

#[test]
fn targets_of_two_channels_are_distinct() {
    let params = RenderParameters::new((16, 9)).unwrap();
    let diffuse = params.get_render_target(&RenderSteps::Diffuse);
    let emissive = params.get_render_target(&RenderSteps::Emissive);
    assert_ne!(*diffuse.texture, *emissive.texture);
    assert!(!std::ptr::eq(diffuse.texture, emissive.texture));
}

#[test]
fn target_of_one_channel_is_always_the_same_texture() {
    let params = RenderParameters::new((16, 9)).unwrap();
    let first = params.get_render_target(&RenderSteps::Emissive);
    let second = params.get_render_target(&RenderSteps::Emissive);
    assert!(std::ptr::eq(first.texture, second.texture));
}

#[test]
fn every_channel_of_the_set_has_a_target() {
    let params = RenderParameters::new((3, 5)).unwrap();
    for code in RenderSteps::get_hash_set() {
        let channel = RenderSteps::from_code(code).unwrap();
        let surface = params.get_render_target(&channel);
        assert_eq!(surface.texture.channel, channel);
        assert_eq!((surface.texture.width, surface.texture.height), (3, 5));
    }
}

#[test]
fn empty_resolution_is_refused() {
    assert_eq!(
        RenderParameters::new((0, 0)).err(),
        Some(AllocationError::EmptyTexture { width: 0, height: 0 })
    );
}

#[test]
fn resolution_with_one_zero_side_is_refused() {
    assert_eq!(
        RenderParameters::new((0, 480)).err(),
        Some(AllocationError::EmptyTexture { width: 0, height: 480 })
    );
    assert_eq!(
        RenderParameters::new((640, 0)).err(),
        Some(AllocationError::EmptyTexture { width: 640, height: 0 })
    );
}

#[test]
fn smallest_and_largest_resolutions_are_accepted() {
    assert_eq!(RenderParameters::new((1, 1)).unwrap().resolution(), (1, 1));
    let large = RenderParameters::new((u32::MAX, u32::MAX)).unwrap();
    assert_eq!(large.resolution(), (u32::MAX, u32::MAX));
}

#[test]
fn ambient_starts_at_zero() {
    let params = RenderParameters::new((640, 480)).unwrap();
    assert_eq!(params.ambient(), 0);
    assert_eq!(f32::from_bits(params.ambient()), 0.0);
}

#[test]
fn ambient_is_set_and_textures_stay() {
    let mut params = RenderParameters::new((640, 480)).unwrap();
    params.set_ambient(0.25f32.to_bits());
    assert_eq!(f32::from_bits(params.ambient()), 0.25);
    assert_eq!(params.resolution(), (640, 480));
    let diffuse = params.get_render_target(&RenderSteps::Diffuse);
    assert_eq!(
        *diffuse.texture,
        Texture { channel: RenderSteps::Diffuse, width: 640, height: 480 }
    );
}

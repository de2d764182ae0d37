use render_steps::channel::RenderSteps;

#[test]
fn set_holds_every_channel() {
    let set = RenderSteps::get_hash_set();
    assert!(set.contains(&RenderSteps::Diffuse.code()));
    assert!(set.contains(&RenderSteps::Emissive.code()));
}

#[test]
fn set_holds_each_channel_once() {
    let set = RenderSteps::get_hash_set();
    assert_eq!(set.len(), 2);
    assert_ne!(RenderSteps::Diffuse.code(), RenderSteps::Emissive.code());
}

#[test]
fn set_holds_nothing_but_channels() {
    let set = RenderSteps::get_hash_set();
    for code in 0..=255u8 {
        assert_eq!(set.contains(&code), RenderSteps::from_code(code).is_some());
    }
    assert!(!set.contains(&2));
    assert!(!set.contains(&255));
}

#[test]
fn codes_are_fixed() {
    assert_eq!(RenderSteps::Diffuse.code(), 0);
    assert_eq!(RenderSteps::Emissive.code(), 1);
}

#[test]
fn code_and_channel_round_trip() {
    assert_eq!(RenderSteps::from_code(0), Some(RenderSteps::Diffuse));
    assert_eq!(RenderSteps::from_code(1), Some(RenderSteps::Emissive));
    assert_eq!(RenderSteps::from_code(2), None);
    for channel in [RenderSteps::Diffuse, RenderSteps::Emissive] {
        assert_eq!(RenderSteps::from_code(channel.code()), Some(channel));
    }
}

#[test]
fn set_is_the_same_on_every_call() {
    assert_eq!(RenderSteps::get_hash_set(), RenderSteps::get_hash_set());
}

use rsoundio::{ChannelLayout, Device, SampleRateRange, SioChannelId, SioDeviceAim, SioFormat};

fn layout(name: &str, channels: Vec<SioChannelId>) -> ChannelLayout {
    ChannelLayout::new(name.to_string(), channels)
}

fn mono() -> ChannelLayout {
    layout("Mono", vec![SioChannelId::FrontCenter])
}

fn stereo() -> ChannelLayout {
    layout("Stereo", vec![SioChannelId::FrontLeft, SioChannelId::FrontRight])
}

fn two_one() -> ChannelLayout {
    layout(
        "2.1",
        vec![SioChannelId::FrontLeft, SioChannelId::FrontRight, SioChannelId::Lfe],
    )
}

#[test]
fn channel_count_and_name() {
    assert_eq!(stereo().channel_count(), 2);
    assert_eq!(two_one().channel_count(), 3);
    assert_eq!(stereo().name(), "Stereo");
    assert_eq!(layout("Empty", vec![]).channel_count(), 0);
}

#[test]
fn find_channel_gives_first_index() {
    let l = two_one();
    assert_eq!(l.find_channel(SioChannelId::FrontLeft), Some(0));
    assert_eq!(l.find_channel(SioChannelId::Lfe), Some(2));
    assert_eq!(l.find_channel(SioChannelId::Lfe2), None);
    let twice = layout("odd", vec![SioChannelId::Aux, SioChannelId::Aux0, SioChannelId::Aux]);
    assert_eq!(twice.find_channel(SioChannelId::Aux), Some(0));
}

#[test]
fn equality_compares_channels() {
    assert!(stereo() == stereo());
    assert!(stereo() == layout("Other name", vec![SioChannelId::FrontLeft, SioChannelId::FrontRight]));
    assert!(stereo() != layout("Stereo", vec![SioChannelId::FrontRight, SioChannelId::FrontLeft]));
    assert!(stereo() != two_one());
}

#[test]
fn best_match_is_first_preferred_available() {
    let preferred = [mono(), stereo()];
    let available = [stereo(), two_one()];
    let best = ChannelLayout::best_matching_channel_layout(&preferred, &available).unwrap();
    assert!(best == stereo());
    assert_eq!(best.name(), "Stereo");
    let preferred = [two_one(), stereo()];
    let best = ChannelLayout::best_matching_channel_layout(&preferred, &available).unwrap();
    assert_eq!(best.name(), "2.1");
    assert!(ChannelLayout::best_matching_channel_layout(&[mono()], &available).is_none());
    assert!(ChannelLayout::best_matching_channel_layout(&[], &available).is_none());
}

#[test]
fn duplicate_keeps_everything() {
    let l = two_one();
    let d = l.duplicate();
    assert!(d == l);
    assert_eq!(d.name(), "2.1");
    assert_eq!(d.channels(), l.channels());
}

#[test]
fn device_support_queries() {
    let dev = Device::new(
        5,
        SioDeviceAim::Output,
        vec![SioFormat::Float32LE, SioFormat::S16LE],
        vec![stereo(), two_one()],
        vec![SampleRateRange { min: 44100, max: 48000 }, SampleRateRange { min: 96000, max: 96000 }],
    );
    assert!(dev.supports_format(SioFormat::Float32LE));
    assert!(!dev.supports_format(SioFormat::U8));
    assert!(dev.supports_layout(&stereo()));
    assert!(!dev.supports_layout(&mono()));
    assert!(dev.supports_sample_rate(48000));
    assert!(dev.supports_sample_rate(44100));
    assert!(dev.supports_sample_rate(96000));
    assert!(!dev.supports_sample_rate(88200));
    assert_eq!(dev.handle(), 5);
    assert_eq!(dev.aim(), SioDeviceAim::Output);
    let copy = dev.duplicate();
    assert_eq!(copy.handle(), 5);
    assert!(copy.supports_layout(&two_one()));
    assert!(copy.supports_sample_rate(96000));
}

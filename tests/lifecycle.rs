use rsoundio::{
    native_name, Callbacks, ChannelLayout, Device, OutStream, SampleRateRange, SioChannelId, SioDeviceAim,
    SioError, SioFormat, StreamState,
};

type WriteCb = fn(u32, u32) -> u32;
type UnderflowCb = fn() -> u32;
type ErrorCb = fn(u32) -> u32;

fn fill_all(_min: u32, max: u32) -> u32 {
    max
}

fn with_writer() -> Callbacks<WriteCb, UnderflowCb, ErrorCb> {
    let mut callbacks = Callbacks::new();
    callbacks.register_write_callback(fill_all as WriteCb);
    callbacks
}

fn stereo() -> ChannelLayout {
    ChannelLayout::new(
        "Stereo".to_string(),
        vec![SioChannelId::FrontLeft, SioChannelId::FrontRight],
    )
}

fn output_device(formats: Vec<SioFormat>) -> Device {
    Device::new(
        0x1000,
        SioDeviceAim::Output,
        formats,
        vec![stereo()],
        vec![SampleRateRange { min: 8000, max: 96000 }],
    )
}

fn all_formats() -> Vec<SioFormat> {
    (1..SioFormat::COUNT).map(|c| SioFormat::from_code(c).unwrap()).collect()
}

fn new_stream() -> OutStream {
    OutStream::new(0x2000, output_device(all_formats()), SioFormat::Float32LE, 48000, stereo())
}

fn started_stream() -> OutStream {
    let mut s = new_stream();
    s.open(SioError::NoError).unwrap();
    s.start(&with_writer(), SioError::NoError).unwrap();
    s
}

#[test]
fn new_stream_defaults() {
    let s = new_stream();
    assert_eq!(s.state(), StreamState::Created);
    assert_eq!(s.handle(), 0x2000);
    assert_eq!(s.sample_rate(), 48000);
    assert_eq!(s.layout().channel_count(), 2);
    assert_eq!(s.format(), Ok(SioFormat::Float32LE));
    assert_eq!(s.name(), None);
    assert!(!s.is_callback_view());
    assert!(!s.is_writing());
}

#[test]
fn format_round_trips_for_whole_byte_widths() {
    for f in all_formats() {
        let w = f.bytes_per_sample();
        if w == 1 || w == 2 || w == 4 || w == 8 {
            let mut s = new_stream();
            assert_eq!(s.set_format(f), Ok(()));
            assert_eq!(s.format(), Ok(f));
        }
    }
}

#[test]
fn format_unset_is_invalid() {
    let s = OutStream::new(1, output_device(all_formats()), SioFormat::Invalid, 48000, stereo());
    assert_eq!(s.format(), Err(SioError::Invalid));
}

#[test]
fn unsupported_format_is_refused() {
    let mut s = OutStream::new(
        1,
        output_device(vec![SioFormat::S16LE]),
        SioFormat::S16LE,
        44100,
        stereo(),
    );
    assert_eq!(s.set_format(SioFormat::Float64LE), Err(SioError::IncompatibleDevice));
    assert_eq!(s.format(), Ok(SioFormat::S16LE));
}

#[test]
fn invalid_format_is_refused_even_if_listed() {
    let mut formats = all_formats();
    formats.push(SioFormat::Invalid);
    let mut s = OutStream::new(1, output_device(formats), SioFormat::S16LE, 44100, stereo());
    assert_eq!(s.set_format(SioFormat::Invalid), Err(SioError::IncompatibleDevice));
    assert_eq!(s.format(), Ok(SioFormat::S16LE));
}

#[test]
fn open_then_start() {
    let mut s = new_stream();
    assert_eq!(s.check_open(), Ok(()));
    assert_eq!(s.open(SioError::NoError), Ok(()));
    assert_eq!(s.state(), StreamState::Opened);
    let callbacks = with_writer();
    assert_eq!(s.check_start(&callbacks), Ok(()));
    assert_eq!(s.start(&callbacks, SioError::NoError), Ok(()));
    assert_eq!(s.state(), StreamState::Started);
}

#[test]
fn open_checks_aim_and_format() {
    let input = Device::new(3, SioDeviceAim::Input, all_formats(), vec![], vec![]);
    let mut s = OutStream::new(1, input, SioFormat::Float32LE, 48000, stereo());
    assert_eq!(s.open(SioError::NoError), Err(SioError::Invalid));
    assert_eq!(s.state(), StreamState::Created);

    let s = OutStream::new(1, output_device(vec![SioFormat::S16LE]), SioFormat::Float32LE, 48000, stereo());
    assert_eq!(s.check_open(), Err(SioError::Invalid));

    let mut s = OutStream::new(1, output_device(all_formats()), SioFormat::Invalid, 48000, stereo());
    assert_eq!(s.open(SioError::NoError), Err(SioError::Invalid));
    assert_eq!(s.state(), StreamState::Created);
}

#[test]
fn native_open_error_is_returned() {
    let mut s = new_stream();
    assert_eq!(s.open(SioError::OpeningDevice), Err(SioError::OpeningDevice));
    assert_eq!(s.state(), StreamState::Created);
}

#[test]
fn open_twice_is_invalid() {
    let mut s = new_stream();
    s.open(SioError::NoError).unwrap();
    assert_eq!(s.open(SioError::NoError), Err(SioError::Invalid));
}

#[test]
fn start_before_open_is_invalid() {
    let mut s = new_stream();
    assert_eq!(s.start(&with_writer(), SioError::NoError), Err(SioError::Invalid));
    assert_eq!(s.state(), StreamState::Created);
    let mut s = new_stream();
    s.open(SioError::NoError).unwrap();
    assert_eq!(s.start(&with_writer(), SioError::Streaming), Err(SioError::Streaming));
    assert_eq!(s.state(), StreamState::Opened);
}

#[test]
fn pause_twice_succeeds() {
    let mut s = started_stream();
    assert!(s.pause_needs_native(true));
    assert_eq!(s.pause(SioError::NoError), None);
    assert_eq!(s.state(), StreamState::Paused);
    assert!(!s.pause_needs_native(true));
    assert_eq!(s.pause(SioError::NoError), None);
    assert_eq!(s.state(), StreamState::Paused);
}

#[test]
fn pause_then_unpause_restores_started() {
    let mut s = started_stream();
    let mut v = s.callback_view();
    v.enter_write_callback(0, 64);
    let before = v.write_request(0, &[vec![0.0f32; 32], vec![0.0f32; 32]]);
    assert_eq!(s.pause(SioError::NoError), None);
    assert_eq!(s.unpause(SioError::NoError), None);
    assert_eq!(s.state(), StreamState::Started);
    let mut v = s.callback_view();
    v.enter_write_callback(0, 64);
    let after = v.write_request(0, &[vec![0.0f32; 32], vec![0.0f32; 32]]);
    assert_eq!(before, Ok(32));
    assert_eq!(before, after);
}

#[test]
fn unpause_running_stream_is_no_op() {
    let mut s = started_stream();
    assert!(!s.pause_needs_native(false));
    assert_eq!(s.unpause(SioError::Streaming), None);
    assert_eq!(s.state(), StreamState::Started);
}

#[test]
fn pause_errors() {
    let mut s = new_stream();
    assert_eq!(s.pause(SioError::NoError), Some(SioError::Invalid));
    let mut s = started_stream();
    assert_eq!(s.pause(SioError::IncompatibleBackend), Some(SioError::IncompatibleBackend));
    assert_eq!(s.state(), StreamState::Started);
}

#[test]
fn clear_buffer_outcomes() {
    let mut s = started_stream();
    assert_eq!(s.clear_buffer(SioError::NoError), None);
    assert_eq!(s.clear_buffer(SioError::IncompatibleBackend), Some(SioError::IncompatibleBackend));
    assert!(s.destroy());
    assert_eq!(s.clear_buffer(SioError::NoError), Some(SioError::Invalid));
}

#[test]
fn only_owner_destroys_once() {
    let mut s = started_stream();
    let mut v = s.callback_view();
    assert!(v.is_callback_view());
    assert!(!v.destroy());
    assert_eq!(v.state(), StreamState::Started);
    assert!(s.destroy());
    assert_eq!(s.state(), StreamState::Destroyed);
    assert!(!s.destroy());
}

#[test]
fn set_sample_rate_is_kept() {
    let mut s = new_stream();
    s.set_sample_rate(96000);
    assert_eq!(s.sample_rate(), 96000);
}

#[test]
fn name_colons_become_underscores() {
    let mut s = new_stream();
    assert_eq!(s.set_name("my:stream:1"), Ok(()));
    assert_eq!(s.name(), Some("my_stream_1".to_string()));
    assert_eq!(s.set_name("plain"), Ok(()));
    assert_eq!(s.name(), Some("plain".to_string()));
}

#[test]
fn name_with_nul_is_refused() {
    let mut s = new_stream();
    s.set_name("first").unwrap();
    assert_eq!(s.set_name("bad\0name"), Err(SioError::EncodingString));
    assert_eq!(s.name(), Some("first".to_string()));
    assert_eq!(native_name("a\0"), Err(SioError::EncodingString));
    assert_eq!(native_name(""), Ok(String::new()));
    assert_eq!(native_name("a:b"), Ok("a_b".to_string()));
}

#[test]
fn device_of_stream() {
    let s = new_stream();
    assert_eq!(s.device().aim(), SioDeviceAim::Output);
    assert_eq!(s.device().handle(), 0x1000);
    assert!(s.device().supports_format(SioFormat::Float32LE));
}

use rsoundio::{
    locate_areas, Callbacks, ChannelArea, ChannelLayout, Device, OutStream, SampleArea, SampleRateRange,
    SioChannelId, SioDeviceAim, SioError, SioFormat,
};

type WriteCb = fn(u32, u32) -> u32;
type UnderflowCb = fn() -> u32;
type ErrorCb = fn(u32) -> u32;

fn fill_all(_min: u32, max: u32) -> u32 {
    max
}

fn with_writer() -> Callbacks<WriteCb, UnderflowCb, ErrorCb> {
    let mut callbacks = Callbacks::new();
    callbacks.register_write_callback(fill_all as WriteCb);
    callbacks
}

fn stereo_stream() -> OutStream {
    let layout = ChannelLayout::new(
        "Stereo".to_string(),
        vec![SioChannelId::FrontLeft, SioChannelId::FrontRight],
    );
    let device = Device::new(
        7,
        SioDeviceAim::Output,
        vec![SioFormat::Float32LE, SioFormat::S16LE],
        vec![],
        vec![SampleRateRange { min: 48000, max: 48000 }],
    );
    let mut s = OutStream::new(9, device, SioFormat::Float32LE, 48000, layout);
    s.open(SioError::NoError).unwrap();
    s.start(&with_writer(), SioError::NoError).unwrap();
    s
}

fn view_for(s: &OutStream, min: u32, max: u32) -> OutStream {
    let mut v = s.callback_view();
    v.enter_write_callback(min, max);
    v
}

#[test]
fn short_buffer_is_invalid() {
    let s = stereo_stream();
    let v = view_for(&s, 0, 1000);
    let buffers = vec![vec![0.0f32; 50], vec![0.0f32; 50]];
    assert_eq!(v.write_request(100, &buffers), Err(SioError::Invalid));
}

#[test]
fn fewer_buffers_than_channels_is_invalid() {
    let s = stereo_stream();
    let v = view_for(&s, 0, 1000);
    assert_eq!(v.write_request(0, &[vec![0i16; 10]]), Err(SioError::Invalid));
    let none: Vec<Vec<i16>> = vec![];
    assert_eq!(v.write_request(0, &none), Err(SioError::Invalid));
}

#[test]
fn write_outside_callback_is_invalid() {
    let s = stereo_stream();
    assert_eq!(s.write_request(0, &[vec![0u8; 4], vec![0u8; 4]]), Err(SioError::Invalid));
}

#[test]
fn request_is_first_buffer_length() {
    let s = stereo_stream();
    let v = view_for(&s, 10, 100);
    let buffers = vec![vec![0.5f32; 150], vec![0.5f32; 150]];
    assert_eq!(v.write_request(10, &buffers), Ok(150));
    let v = view_for(&s, 10, 400);
    assert_eq!(v.write_request(10, &buffers), Ok(150));
}

#[test]
fn device_refuses_count_above_maximum() {
    let s = stereo_stream();
    let mut v = view_for(&s, 0, 10);
    let buffers = vec![vec![1u8; 20], vec![2u8; 20]];
    let requested = v.write_request(0, &buffers).unwrap();
    assert_eq!(requested, 20);
    // The device answers a count out of bounds with `Invalid`.
    assert_eq!(v.begin_write(requested, SioError::Invalid, 20), Err(SioError::Invalid));
    assert!(!v.is_writing());
}

#[test]
fn frames_written_bounded() {
    let s = stereo_stream();
    let mut v = view_for(&s, 10, 100);
    let buffers = vec![vec![0.5f32; 150], vec![0.5f32; 150]];
    let requested = v.write_request(10, &buffers).unwrap();
    assert_eq!(requested, 150);
    // A device that grants more than the callback's maximum is held to it.
    let granted = v.begin_write(requested, SioError::NoError, 120).unwrap();
    assert_eq!(granted, 100);
    assert!(v.is_writing());
    let written = v.end_write(SioError::NoError).unwrap();
    assert!(written <= 150 && written <= 100);
    assert!(!v.is_writing());
}

#[test]
fn partial_grant_and_negative_grant() {
    let s = stereo_stream();
    let mut v = view_for(&s, 0, 100);
    assert_eq!(v.begin_write(80, SioError::NoError, 30), Ok(30));
    assert_eq!(v.end_write(SioError::NoError), Ok(30));
    assert_eq!(v.begin_write(80, SioError::NoError, -5), Ok(0));
    assert_eq!(v.end_write(SioError::NoError), Ok(0));
}

#[test]
fn begin_and_commit_errors() {
    let s = stereo_stream();
    let mut v = view_for(&s, 0, 100);
    assert_eq!(v.begin_write(10, SioError::Underflow, 10), Err(SioError::Underflow));
    assert!(!v.is_writing());
    assert_eq!(v.end_write(SioError::NoError), Err(SioError::Invalid));
    assert_eq!(v.begin_write(10, SioError::NoError, 10), Ok(10));
    // A second begin before the commit is refused.
    assert_eq!(v.begin_write(10, SioError::NoError, 10), Err(SioError::Invalid));
    assert_eq!(v.write_request(0, &[vec![0.0f32; 1], vec![0.0f32; 1]]), Err(SioError::Invalid));
    assert_eq!(v.end_write(SioError::Streaming), Err(SioError::Streaming));
    assert_eq!(v.end_write(SioError::NoError), Err(SioError::Invalid));
}

#[test]
fn interleaved_samples_land_in_place() {
    let s = stereo_stream();
    let mut v = view_for(&s, 0, 4);
    let left = vec![1i16, 2, 3, 4];
    let right = vec![-1i16, -2, -3, -4];
    let buffers = vec![left, right];
    let n = v.write_request(0, &buffers).unwrap();
    let frames = v.begin_write(n, SioError::NoError, 3).unwrap();
    // Interleaved areas as a device hands them out: 2-byte samples,
    // 4 bytes per frame.
    let raw = [ChannelArea { ptr: 0x100, step: 4 }, ChannelArea { ptr: 0x102, step: 4 }];
    let mut areas = Vec::new();
    let region = locate_areas(&raw, 2, frames as usize, 2, &mut areas).unwrap();
    assert_eq!(region.base, 0x100);
    assert_eq!(region.len, 6);
    assert_eq!(areas, vec![SampleArea { start: 0, step: 2 }, SampleArea { start: 1, step: 2 }]);
    let mut memory = vec![0i16; region.len + 2];
    assert_eq!(v.write_frames(&mut memory, &areas, &buffers), Ok(()));
    assert_eq!(memory, vec![1, -1, 2, -2, 3, -3, 0, 0]);
    assert_eq!(v.end_write(SioError::NoError), Ok(3));
}

#[test]
fn planar_samples_land_in_place() {
    let s = stereo_stream();
    let mut v = view_for(&s, 0, 8);
    let buffers = vec![vec![10u8, 11, 12], vec![20u8, 21, 22]];
    let n = v.write_request(3, &buffers).unwrap();
    assert_eq!(v.begin_write(n, SioError::NoError, 3), Ok(3));
    let areas = [SampleArea { start: 0, step: 1 }, SampleArea { start: 3, step: 1 }];
    let mut memory = vec![0u8; 6];
    assert_eq!(v.write_frames(&mut memory, &areas, &buffers), Ok(()));
    assert_eq!(memory, vec![10, 11, 12, 20, 21, 22]);
}

#[test]
fn write_frames_refuses_areas_outside_region() {
    let s = stereo_stream();
    let mut v = view_for(&s, 0, 8);
    let buffers = vec![vec![1u8, 2, 3], vec![4u8, 5, 6]];
    let areas = [SampleArea { start: 0, step: 2 }, SampleArea { start: 1, step: 2 }];
    let mut memory = vec![0u8; 5];
    // No cycle open yet.
    assert_eq!(v.write_frames(&mut memory, &areas, &buffers), Err(SioError::Invalid));
    v.begin_write(3, SioError::NoError, 3).unwrap();
    assert_eq!(v.write_frames(&mut memory, &areas, &buffers), Err(SioError::Invalid));
    assert_eq!(memory, vec![0u8; 5]);
    let mut memory = vec![0u8; 6];
    assert_eq!(v.write_frames(&mut memory, &areas, &buffers), Ok(()));
    assert_eq!(memory, vec![1, 4, 2, 5, 3, 6]);
    let short = vec![vec![1u8], vec![4u8]];
    assert_eq!(v.write_frames(&mut memory, &areas, &short), Err(SioError::Invalid));
}

#[test]
fn locate_areas_errors() {
    let raw = [ChannelArea { ptr: 0x100, step: 8 }, ChannelArea { ptr: 0x106, step: 8 }];
    assert_eq!(locate_areas(&raw, 2, 4, 4, &mut Vec::new()).err(), Some(SioError::IncompatibleDevice));
    let raw = [ChannelArea { ptr: 0x100, step: 6 }];
    assert_eq!(locate_areas(&raw, 1, 4, 4, &mut Vec::new()).err(), Some(SioError::IncompatibleDevice));
    let raw = [ChannelArea { ptr: 0x100, step: 8 }];
    assert_eq!(locate_areas(&raw, 2, 4, 4, &mut Vec::new()).err(), Some(SioError::Invalid));
    let raw = [ChannelArea { ptr: 0x10, step: usize::MAX - 3 }];
    assert_eq!(locate_areas(&raw, 1, 6, 4, &mut Vec::new()).err(), Some(SioError::Invalid));
}

#[test]
fn locate_areas_lowest_address_first() {
    let raw = [ChannelArea { ptr: 0x208, step: 16 }, ChannelArea { ptr: 0x200, step: 16 }];
    let mut areas = vec![SampleArea { start: 9, step: 9 }; 5];
    let region = locate_areas(&raw, 2, 2, 8, &mut areas).unwrap();
    assert_eq!(region.base, 0x200);
    assert_eq!(areas, vec![SampleArea { start: 1, step: 2 }, SampleArea { start: 0, step: 2 }]);
    assert_eq!(region.len, 4);
    let empty = locate_areas(&raw, 2, 0, 8, &mut areas).unwrap();
    assert_eq!(empty.len, 0);
}

/// One second of a 440 Hz sine, written callback by callback into a
/// simulated interleaved device buffer at 48 kHz.
#[test]
fn sine_second_at_48k() {
    let mut s = stereo_stream();
    assert_eq!(s.set_format(SioFormat::Float32LE), Ok(()));
    assert_eq!(s.format(), Ok(SioFormat::Float32LE));
    assert_eq!(s.sample_rate(), 48000);
    let rate = s.sample_rate() as f32;
    let mut phase: u64 = 0;
    let mut total: u64 = 0;
    let period = 480u32;
    for _ in 0..100 {
        let mut v = view_for(&s, 0, period);
        let samples: Vec<f32> = (0..period as u64)
            .map(|i| (((phase + i) as f32) * 2.0 * std::f32::consts::PI * 440.0 / rate).sin())
            .collect();
        let buffers = vec![samples.clone(), samples];
        let n = v.write_request(0, &buffers).unwrap();
        let frames = v.begin_write(n, SioError::NoError, n as i32).unwrap();
        let raw = [ChannelArea { ptr: 0x4000, step: 8 }, ChannelArea { ptr: 0x4004, step: 8 }];
        let mut areas = Vec::with_capacity(2);
        let region = locate_areas(&raw, 2, frames as usize, 4, &mut areas).unwrap();
        let mut memory = vec![0.0f32; region.len];
        v.write_frames(&mut memory, &areas, &buffers).unwrap();
        assert_eq!(memory[2], buffers[0][1]);
        assert_eq!(memory[3], buffers[1][1]);
        let written = v.end_write(SioError::NoError).unwrap();
        assert!(written <= period);
        phase += written as u64;
        total += written as u64;
    }
    assert!(total >= 42000);
    assert_eq!(total, 48000);
}

#[test]
fn write_frames_leaves_gaps_untouched() {
    let s = stereo_stream();
    let mut v = view_for(&s, 0, 8);
    let buffers = vec![vec![7u32, 8], vec![9u32, 10]];
    v.begin_write(2, SioError::NoError, 2).unwrap();
    // Frames 6 samples apart, channels 2 apart: indices 0, 6 and 2, 8.
    let areas = [SampleArea { start: 0, step: 6 }, SampleArea { start: 2, step: 6 }];
    let mut memory = vec![1u32; 10];
    assert_eq!(v.write_frames(&mut memory, &areas, &buffers), Ok(()));
    assert_eq!(memory, vec![7, 1, 9, 1, 1, 1, 8, 1, 10, 1]);
}

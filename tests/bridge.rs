use rsoundio::{
    CallbackAction, CallbackKind, Callbacks, ChannelLayout, Device, OutStream, SioChannelId,
    SioDeviceAim, SioError, SioFormat, StreamState,
};

type Write = fn(u32, u32) -> u32;
type Underflow = fn() -> u32;
type Fault = fn(u32) -> u32;

fn write_cb(_min: u32, max: u32) -> u32 {
    max
}

fn other_write_cb(min: u32, _max: u32) -> u32 {
    min
}

fn underflow_cb() -> u32 {
    1
}

fn error_cb(code: u32) -> u32 {
    code
}

#[test]
fn missing_write_callback_takes_degraded_path() {
    let device = Device::new(1, SioDeviceAim::Output, vec![SioFormat::Float32LE], vec![], vec![]);
    let layout = ChannelLayout::new("Mono".to_string(), vec![SioChannelId::FrontCenter]);
    let mut stream = OutStream::new(2, device, SioFormat::Float32LE, 48000, layout);
    let mut callbacks: Callbacks<Write, Underflow, Fault> = Callbacks::new();
    stream.open(SioError::NoError).unwrap();
    // Starting without a write closure breaks `start`'s contract: the check
    // made before the native start refuses it.
    assert_eq!(stream.check_start(&callbacks), Err(SioError::Invalid));
    assert_eq!(stream.state(), StreamState::Opened);
    // Should the device still ask for frames, the lookup finds no closure
    // and takes the degraded path.
    assert!(callbacks.write.is_none());
    assert_eq!(callbacks.action(CallbackKind::Write), CallbackAction::MissingWrite);
    callbacks.register_write_callback(write_cb);
    assert_eq!(stream.check_start(&callbacks), Ok(()));
    assert_eq!(stream.start(&callbacks, SioError::NoError), Ok(()));
    assert_eq!(stream.state(), StreamState::Started);
}

#[test]
fn missing_optional_callbacks() {
    let callbacks: Callbacks<Write, Underflow, Fault> = Callbacks::new();
    assert_eq!(callbacks.action(CallbackKind::Underflow), CallbackAction::Ignore);
    assert_eq!(callbacks.action(CallbackKind::Error), CallbackAction::DefaultError);
}

#[test]
fn registered_callbacks_are_invoked() {
    let mut callbacks: Callbacks<Write, Underflow, Fault> = Callbacks::new();
    callbacks.register_write_callback(write_cb);
    assert_eq!(callbacks.action(CallbackKind::Write), CallbackAction::Invoke);
    assert_eq!(callbacks.action(CallbackKind::Underflow), CallbackAction::Ignore);
    callbacks.register_underflow_callback(underflow_cb);
    callbacks.register_error_callback(error_cb);
    assert_eq!(callbacks.action(CallbackKind::Underflow), CallbackAction::Invoke);
    assert_eq!(callbacks.action(CallbackKind::Error), CallbackAction::Invoke);
    assert_eq!((callbacks.write.unwrap())(3, 9), 9);
    assert_eq!((callbacks.underflow.unwrap())(), 1);
    assert_eq!((callbacks.error.unwrap())(8), 8);
}

#[test]
fn registering_again_replaces() {
    let mut callbacks: Callbacks<Write, Underflow, Fault> = Callbacks::new();
    callbacks.register_write_callback(write_cb);
    callbacks.register_write_callback(other_write_cb);
    assert_eq!((callbacks.write.unwrap())(3, 9), 3);
}

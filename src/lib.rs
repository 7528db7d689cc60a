//! Safe, verified core of an output audio stream: sample formats and error
//! codes, channel layouts, devices, the stream lifecycle, the callback
//! bridge and the two-phase buffer write protocol.
//!
//! The native audio layer is not called from here. Each operation that
//! needs it is split: a check says whether the native call may be made, and
//! a second function takes the native layer's answer and says, in its
//! contract, what the stream becomes and what the caller gets back.

pub mod area;
pub mod bridge;
pub mod device;
pub mod enums;
pub mod layout;
pub mod stream;

pub use area::{lemma_stored_contents, locate_areas, ChannelArea, Region, SampleArea};
pub use bridge::{CallbackAction, CallbackKind, Callbacks};
pub use device::{Device, SampleRateRange};
pub use enums::{
    SampleType, SioBackend, SioChannelId, SioChannelLayoutId, SioDeviceAim, SioError, SioFormat,
    SioResult,
};
pub use layout::{ChannelLayout, MAX_CHANNELS};
pub use stream::{
    lemma_frames_written_bounded, lemma_pause_twice, lemma_pause_unpause,
    lemma_set_format_round_trip, lemma_start_needs_write_callback, native_name, OutStream,
    StreamState, StreamView,
};

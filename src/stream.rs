use vstd::prelude::*;

use crate::area::{
    areas_fit, areas_fit_region, indices_distinct, lemma_stored_contents, sample_index, store_samples,
    stored, SampleArea,
};
use crate::bridge::{callback_action, CallbackAction, CallbackKind, Callbacks};
use crate::device::Device;
use crate::enums::{format_width, SioChannelId, SioDeviceAim, SioError, SioFormat, SioResult};
use crate::layout::{ChannelLayout, MAX_CHANNELS};

verus! {

/// Where a stream stands in its lifecycle.
#[derive(Clone, Copy, Debug, PartialEq, Eq, Structural)]
pub enum StreamState {
    Created,
    Opened,
    Started,
    Paused,
    Destroyed,
}

/// Everything a stream handle records, as mathematical values.
pub struct StreamView {
    /// Native handle of the stream.
    pub handle: usize,
    /// Whether the stream's device records or plays.
    pub aim: SioDeviceAim,
    /// Formats the stream's device supports.
    pub device_formats: Seq<SioFormat>,
    pub state: StreamState,
    pub format: SioFormat,
    pub sample_rate: u32,
    /// Channels of the stream's layout.
    pub channels: Seq<SioChannelId>,
    /// Name given with `set_name`, if any.
    pub name: Option<Seq<char>>,
    /// Set on a transient view handed to a callback, which does not own the
    /// native stream.
    pub marker: bool,
    /// Frame bounds of the write callback the view was made for.
    pub frame_min: u32,
    pub frame_max: u32,
    /// Whether a write cycle is open: begun and not committed.
    pub writing: bool,
    /// Frames the device granted to the open write cycle.
    pub frames: u32,
}

/// An audio output stream. The owning handle, made with `new`, is the only
/// one that releases the native stream; views made with `callback_view` are
/// handed to callbacks and never release it.
#[derive(Debug)]
pub struct OutStream {
    stream: usize,
    device: Device,
    state: StreamState,
    format: SioFormat,
    sample_rate: u32,
    layout: ChannelLayout,
    name: Option<String>,
    marker: bool,
    frame_min: u32,
    frame_max: u32,
    writing: bool,
    frames: u32,
}

impl View for OutStream {
    type V = StreamView;

    closed spec fn view(&self) -> StreamView {
        StreamView {
            handle: self.stream,
            aim: self.device.spec_aim(),
            device_formats: self.device.spec_formats(),
            state: self.state,
            format: self.format,
            sample_rate: self.sample_rate,
            channels: self.layout@,
            name: match self.name {
                Some(n) => Some(n@),
                None => None,
            },
            marker: self.marker,
            frame_min: self.frame_min,
            frame_max: self.frame_max,
            writing: self.writing,
            frames: self.frames,
        }
    }
}

/// Whether the stream's layout fits the native record.
pub open spec fn stream_wf(v: StreamView) -> bool {
    v.channels.len() <= MAX_CHANNELS
}

/// What `open` must find before the native stream is opened: a stream not
/// yet opened, on a playback device, with a format the device supports and
/// no more channels than the native record holds.
pub open spec fn open_check(v: StreamView) -> SioResult<()> {
    if v.state != StreamState::Created || v.aim != SioDeviceAim::Output || v.format
        == SioFormat::Invalid || !v.device_formats.contains(v.format) || v.channels.len()
        > MAX_CHANNELS {
        Err(SioError::Invalid)
    } else {
        Ok(())
    }
}

/// The native layer's `outcome` as a result.
pub open spec fn outcome_result(outcome: SioError) -> SioResult<()> {
    if outcome == SioError::NoError {
        Ok(())
    } else {
        Err(outcome)
    }
}

/// Result of `open` when the native layer answered `outcome`.
pub open spec fn open_result(v: StreamView, outcome: SioError) -> SioResult<()> {
    if open_check(v) is Err {
        open_check(v)
    } else {
        outcome_result(outcome)
    }
}

/// The stream after `open` with native answer `outcome`.
pub open spec fn open_next(v: StreamView, outcome: SioError) -> StreamView {
    if open_result(v, outcome) is Ok {
        StreamView { state: StreamState::Opened, ..v }
    } else {
        v
    }
}

/// What `start` must find: an opened stream, and a write closure
/// registered (`has_write`).
pub open spec fn start_check(v: StreamView, has_write: bool) -> SioResult<()> {
    if v.state != StreamState::Opened || !has_write {
        Err(SioError::Invalid)
    } else {
        Ok(())
    }
}

/// Result of `start` when the native layer answered `outcome`.
pub open spec fn start_result(v: StreamView, outcome: SioError) -> SioResult<()> {
    if start_check(v, true) is Err {
        start_check(v, true)
    } else {
        outcome_result(outcome)
    }
}

/// The stream after `start` with native answer `outcome`.
pub open spec fn start_next(v: StreamView, outcome: SioError) -> StreamView {
    if start_result(v, outcome) is Ok {
        StreamView { state: StreamState::Started, ..v }
    } else {
        v
    }
}

/// The state that pausing (`pause` true) or unpausing leads to.
pub open spec fn pause_target(pause: bool) -> StreamState {
    if pause {
        StreamState::Paused
    } else {
        StreamState::Started
    }
}

/// Whether pausing or unpausing needs the native layer: only a running
/// stream that is not already in the state asked for.
pub open spec fn pause_needs_native(v: StreamView, pause: bool) -> bool {
    (v.state == StreamState::Started || v.state == StreamState::Paused) && v.state
        != pause_target(pause)
}

/// Result of pausing (`pause` true) or unpausing when the native layer
/// answered `outcome`: `Invalid` on a stream that is not running, no error
/// when it is already in the state asked for.
pub open spec fn pause_result(v: StreamView, pause: bool, outcome: SioError) -> Option<SioError> {
    if v.state != StreamState::Started && v.state != StreamState::Paused {
        Some(SioError::Invalid)
    } else if v.state == pause_target(pause) || outcome == SioError::NoError {
        None
    } else {
        Some(outcome)
    }
}

/// The stream after pausing (`pause` true) or unpausing with native answer
/// `outcome`.
pub open spec fn pause_next(v: StreamView, pause: bool, outcome: SioError) -> StreamView {
    if pause_needs_native(v, pause) && outcome == SioError::NoError {
        StreamView { state: pause_target(pause), ..v }
    } else {
        v
    }
}

/// The current format, or `Invalid` where none has been set.
pub open spec fn format_result(v: StreamView) -> SioResult<SioFormat> {
    if v.format == SioFormat::Invalid {
        Err(SioError::Invalid)
    } else {
        Ok(v.format)
    }
}

/// Result of `set_format(f)`: `f` must be a format, and the device must
/// support it.
pub open spec fn set_format_result(v: StreamView, f: SioFormat) -> SioResult<()> {
    if f != SioFormat::Invalid && v.device_formats.contains(f) {
        Ok(())
    } else {
        Err(SioError::IncompatibleDevice)
    }
}

/// The stream after `set_format(f)`.
pub open spec fn set_format_next(v: StreamView, f: SioFormat) -> StreamView {
    if set_format_result(v, f) is Ok {
        StreamView { format: f, ..v }
    } else {
        v
    }
}

/// A name with each colon replaced by an underscore.
pub open spec fn sanitized_name(s: Seq<char>) -> Seq<char> {
    s.map_values(|c: char| if c == ':' { '_' } else { c })
}

/// Result of `write_request` for buffers of lengths `lens`: the number of
/// frames to ask the device for, which is the length of the first buffer.
/// The device itself refuses a count out of the callback's bounds.
pub open spec fn write_request_result(v: StreamView, min_frame_count: u32, lens: Seq<int>) -> SioResult<
    u32,
> {
    if !v.marker || v.writing || lens.len() < v.channels.len() || lens.len() == 0 || exists|
        i: int,
    |
        0 <= i < lens.len() && #[trigger] lens[i] < min_frame_count || lens[0] > i32::MAX {
        Err(SioError::Invalid)
    } else {
        Ok(lens[0] as u32)
    }
}

/// Result of `begin_write` when the device answered `outcome` and granted
/// `actual` of the `requested` frames: never more than requested, nor than
/// the callback's maximum.
pub open spec fn begin_write_result(v: StreamView, requested: u32, outcome: SioError, actual: i32) -> SioResult<
    u32,
> {
    if !v.marker || v.writing {
        Err(SioError::Invalid)
    } else if outcome != SioError::NoError {
        Err(outcome)
    } else if actual < 0 {
        Ok(0)
    } else if actual <= requested && actual <= v.frame_max {
        Ok(actual as u32)
    } else if requested <= v.frame_max {
        Ok(requested)
    } else {
        Ok(v.frame_max)
    }
}

/// The stream after `begin_write`: an open cycle over the granted frames.
pub open spec fn begin_write_next(v: StreamView, requested: u32, outcome: SioError, actual: i32) -> StreamView {
    match begin_write_result(v, requested, outcome, actual) {
        Ok(n) => StreamView { writing: true, frames: n, ..v },
        Err(_) => v,
    }
}

/// Result of `end_write` when the device answered `outcome`: the frames
/// written in the cycle.
pub open spec fn end_write_result(v: StreamView, outcome: SioError) -> SioResult<u32> {
    if !v.writing {
        Err(SioError::Invalid)
    } else if outcome != SioError::NoError {
        Err(outcome)
    } else {
        Ok(v.frames)
    }
}

/// The stream after `end_write`: the cycle is closed.
pub open spec fn end_write_next(v: StreamView) -> StreamView {
    if v.writing {
        StreamView { writing: false, frames: 0, ..v }
    } else {
        v
    }
}

/// Lengths of the buffers.
pub open spec fn buffer_lens<T>(buffers: Seq<Vec<T>>) -> Seq<int> {
    buffers.map_values(|b: Vec<T>| b@.len() as int)
}

/// Relies on `String::push`: appends one character.
#[verifier::external_body]
fn push_char(s: &mut String, c: char)
    ensures
        final(s)@ == old(s)@.push(c),
{
    s.push(c);
}

/// Makes `name` fit for the native layer: each colon is replaced with an
/// underscore, and a name holding a NUL character gives `EncodingString`.
pub fn native_name(name: &str) -> (r: SioResult<String>)
    ensures
        name@.contains('\0') <==> r is Err,
        r matches Err(e) ==> e == SioError::EncodingString,
        r matches Ok(s) ==> s@ == sanitized_name(name@),
{
    let n = name.unicode_len();
    let mut out = String::new();
    let mut i: usize = 0;
    while i < n
        invariant
            n == name@.len(),
            i <= n,
            out@ == sanitized_name(name@.subrange(0, i as int)),
            forall|j: int| 0 <= j < i ==> name@[j] != '\0',
        decreases n - i,
    {
        let c = name.get_char(i);
        if c == '\0' {
            return Err(SioError::EncodingString);
        }
        if c == ':' {
            push_char(&mut out, '_');
        } else {
            push_char(&mut out, c);
        }
        i = i + 1;
        assert(out@ =~= sanitized_name(name@.subrange(0, i as int)));
    }
    assert(name@.subrange(0, n as int) =~= name@);
    Ok(out)
}

impl OutStream {
    /// Makes the owning handle of native stream `raw_stream`, created on
    /// `device` with the given format, sample rate and layout.
    pub fn new(
        raw_stream: usize,
        device: Device,
        format: SioFormat,
        sample_rate: u32,
        layout: ChannelLayout,
    ) -> (r: Self)
        requires
            layout.wf(),
        ensures
            r@ == (StreamView {
                handle: raw_stream,
                aim: device.spec_aim(),
                device_formats: device.spec_formats(),
                state: StreamState::Created,
                format,
                sample_rate,
                channels: layout@,
                name: None,
                marker: false,
                frame_min: 0,
                frame_max: 0,
                writing: false,
                frames: 0,
            }),
            stream_wf(r@),
    {
        OutStream {
            stream: raw_stream,
            device,
            state: StreamState::Created,
            format,
            sample_rate,
            layout,
            name: None,
            marker: false,
            frame_min: 0,
            frame_max: 0,
            writing: false,
            frames: 0,
        }
    }

    /// Returns the native handle of the stream.
    pub fn handle(&self) -> (r: usize)
        ensures
            r == self@.handle,
    {
        self.stream
    }

    /// Returns where the stream stands in its lifecycle.
    pub fn state(&self) -> (r: StreamState)
        ensures
            r == self@.state,
    {
        self.state
    }

    /// Returns whether this is a transient view handed to a callback.
    pub fn is_callback_view(&self) -> (r: bool)
        ensures
            r == self@.marker,
    {
        self.marker
    }

    /// Returns whether a write cycle is open.
    pub fn is_writing(&self) -> (r: bool)
        ensures
            r == self@.writing,
    {
        self.writing
    }

    /// Checks what `open` needs before the native stream is opened.
    pub fn check_open(&self) -> (r: SioResult<()>)
        ensures
            r == open_check(self@),
    {
        if self.state != StreamState::Created {
            return Err(SioError::Invalid);
        }
        match self.device.aim() {
            SioDeviceAim::Output => {},
            SioDeviceAim::Input => {
                return Err(SioError::Invalid);
            },
        }
        if self.format == SioFormat::Invalid || !self.device.supports_format(self.format) {
            return Err(SioError::Invalid);
        }
        if self.layout.channels().len() > MAX_CHANNELS {
            return Err(SioError::Invalid);
        }
        Ok(())
    }

    /// Records the opening of the stream, which the native layer answered
    /// with `outcome`. Opening needs a stream not yet opened, on a playback
    /// device, with a format the device supports and at most `MAX_CHANNELS`
    /// channels; else `Invalid`. On an error the stream stays as it was and
    /// should be destroyed.
    pub fn open(&mut self, outcome: SioError) -> (r: SioResult<()>)
        ensures
            r == open_result(old(self)@, outcome),
            final(self)@ == open_next(old(self)@, outcome),
    {
        match self.check_open() {
            Err(e) => Err(e),
            Ok(()) => {
                if outcome == SioError::NoError {
                    self.state = StreamState::Opened;
                    Ok(())
                } else {
                    Err(outcome)
                }
            },
        }
    }

    /// Checks what `start` needs before the native stream is started: an
    /// opened stream, and a write closure registered in its `callbacks`.
    pub fn check_start<W, U, E>(&self, callbacks: &Callbacks<W, U, E>) -> (r: SioResult<()>)
        ensures
            r == start_check(self@, callbacks.write is Some),
    {
        if self.state != StreamState::Opened || callbacks.write.is_none() {
            Err(SioError::Invalid)
        } else {
            Ok(())
        }
    }

    /// Records the start of an opened stream, which the native layer
    /// answered with `outcome`. A stream that is not opened gives `Invalid`.
    /// The write closure must be registered in the stream's `callbacks`
    /// before the stream starts.
    pub fn start<W, U, E>(&mut self, callbacks: &Callbacks<W, U, E>, outcome: SioError) -> (r:
        SioResult<()>)
        requires
            callbacks.write is Some,
        ensures
            r == start_result(old(self)@, outcome),
            final(self)@ == start_next(old(self)@, outcome),
    {
        match self.check_start(callbacks) {
            Err(e) => Err(e),
            Ok(()) => {
                if outcome == SioError::NoError {
                    self.state = StreamState::Started;
                    Ok(())
                } else {
                    Err(outcome)
                }
            },
        }
    }

    /// Returns whether pausing (`pause` true) or unpausing has to ask the
    /// native layer: it does not where the stream already is in the state
    /// asked for, or is not running.
    pub fn pause_needs_native(&self, pause: bool) -> (r: bool)
        ensures
            r == pause_needs_native(self@, pause),
    {
        let target = if pause {
            StreamState::Paused
        } else {
            StreamState::Started
        };
        (self.state == StreamState::Started || self.state == StreamState::Paused) && self.state
            != target
    }

    fn stream_pause(&mut self, pause: bool, outcome: SioError) -> (r: Option<SioError>)
        ensures
            r == pause_result(old(self)@, pause, outcome),
            final(self)@ == pause_next(old(self)@, pause, outcome),
    {
        if self.state != StreamState::Started && self.state != StreamState::Paused {
            return Some(SioError::Invalid);
        }
        if !self.pause_needs_native(pause) {
            return None;
        }
        if outcome == SioError::NoError {
            self.state = if pause {
                StreamState::Paused
            } else {
                StreamState::Started
            };
            None
        } else {
            Some(outcome)
        }
    }

    /// Records pausing the stream, which the native layer answered with
    /// `outcome` where `pause_needs_native(true)` held. Pausing a paused
    /// stream has no effect and gives `None`; a stream that is not running
    /// gives `Invalid`.
    pub fn pause(&mut self, outcome: SioError) -> (r: Option<SioError>)
        ensures
            r == pause_result(old(self)@, true, outcome),
            final(self)@ == pause_next(old(self)@, true, outcome),
    {
        self.stream_pause(true, outcome)
    }

    /// Records unpausing the stream; see `pause`.
    pub fn unpause(&mut self, outcome: SioError) -> (r: Option<SioError>)
        ensures
            r == pause_result(old(self)@, false, outcome),
            final(self)@ == pause_next(old(self)@, false, outcome),
    {
        self.stream_pause(false, outcome)
    }

    /// Records clearing the stream's buffer, which the native layer answered
    /// with `outcome`. A destroyed stream gives `Invalid`.
    pub fn clear_buffer(&self, outcome: SioError) -> (r: Option<SioError>)
        ensures
            self@.state == StreamState::Destroyed ==> r == Some(SioError::Invalid),
            self@.state != StreamState::Destroyed ==> r == (if outcome == SioError::NoError {
                None
            } else {
                Some(outcome)
            }),
    {
        if self.state == StreamState::Destroyed {
            Some(SioError::Invalid)
        } else if outcome == SioError::NoError {
            None
        } else {
            Some(outcome)
        }
    }

    /// Returns the current format, or `Invalid` if the format is not set.
    pub fn format(&self) -> (r: SioResult<SioFormat>)
        ensures
            r == format_result(self@),
    {
        match self.format {
            SioFormat::Invalid => Err(SioError::Invalid),
            f => Ok(f),
        }
    }

    /// Sets the stream format to `format`, to be done before opening. If the
    /// device does not support the format, or `format` is `Invalid`,
    /// `IncompatibleDevice` is returned and nothing changes.
    pub fn set_format(&mut self, format: SioFormat) -> (r: SioResult<()>)
        ensures
            r == set_format_result(old(self)@, format),
            final(self)@ == set_format_next(old(self)@, format),
    {
        if format != SioFormat::Invalid && self.device.supports_format(format) {
            self.format = format;
            Ok(())
        } else {
            Err(SioError::IncompatibleDevice)
        }
    }

    /// Returns the channel layout of the stream.
    pub fn layout(&self) -> (r: &ChannelLayout)
        ensures
            r@ == self@.channels,
    {
        &self.layout
    }

    /// Returns the sample rate of the stream.
    pub fn sample_rate(&self) -> (r: u32)
        ensures
            r == self@.sample_rate,
    {
        self.sample_rate
    }

    /// Sets the stream sample rate, to be done before opening.
    pub fn set_sample_rate(&mut self, sample_rate: u32)
        ensures
            final(self)@ == (StreamView { sample_rate, ..old(self)@ }),
    {
        self.sample_rate = sample_rate;
    }

    /// Returns the device of the stream.
    pub fn device(&self) -> (r: &Device)
        ensures
            r.spec_aim() == self@.aim,
            r.spec_formats() == self@.device_formats,
    {
        &self.device
    }

    /// Sets the stream name to `name`, each colon replaced with an
    /// underscore. A name holding a NUL character cannot reach the native
    /// layer: it gives `EncodingString` and nothing changes.
    pub fn set_name(&mut self, name: &str) -> (r: SioResult<()>)
        ensures
            name@.contains('\0') ==> r == Err::<(), SioError>(SioError::EncodingString)
                && final(self)@ == old(self)@,
            !name@.contains('\0') ==> r is Ok && final(self)@ == (StreamView {
                name: Some(sanitized_name(name@)),
                ..old(self)@
            }),
    {
        match native_name(name) {
            Ok(n) => {
                self.name = Some(n);
                Ok(())
            },
            Err(e) => Err(e),
        }
    }

    /// Returns the stream name, or `None` if the name was not set.
    pub fn name(&self) -> (r: Option<String>)
        ensures
            r is None <==> self@.name is None,
            r matches Some(s) ==> self@.name == Some(s@),
    {
        match &self.name {
            Some(s) => Some(s.clone()),
            None => None,
        }
    }

    /// Releases the handle. Returns whether the native stream must be
    /// destroyed now: only the owning handle of a stream not yet destroyed
    /// does so, and it is then marked destroyed. A callback view never
    /// destroys the stream it was made for.
    pub fn destroy(&mut self) -> (r: bool)
        ensures
            r == (!old(self)@.marker && old(self)@.state != StreamState::Destroyed),
            final(self)@ == (if r {
                StreamView { state: StreamState::Destroyed, ..old(self)@ }
            } else {
                old(self)@
            }),
    {
        if !self.marker && self.state != StreamState::Destroyed {
            self.state = StreamState::Destroyed;
            true
        } else {
            false
        }
    }

    /// Makes the transient view of this stream that callbacks receive: the
    /// same stream, marked as not owning it, with no write cycle open.
    pub fn callback_view(&self) -> (r: OutStream)
        ensures
            r@ == (StreamView {
                marker: true,
                frame_min: 0,
                frame_max: 0,
                writing: false,
                frames: 0,
                ..self@
            }),
    {
        OutStream {
            stream: self.stream,
            device: self.device.duplicate(),
            state: self.state,
            format: self.format,
            sample_rate: self.sample_rate,
            layout: self.layout.duplicate(),
            name: match &self.name {
                Some(s) => Some(s.clone()),
                None => None,
            },
            marker: true,
            frame_min: 0,
            frame_max: 0,
            writing: false,
            frames: 0,
        }
    }

    /// Prepares a callback view for one call of the write callback, which
    /// asks for at least `min_frame_count` and at most `max_frame_count`
    /// frames.
    pub fn enter_write_callback(&mut self, min_frame_count: u32, max_frame_count: u32)
        requires
            old(self)@.marker,
        ensures
            final(self)@ == (StreamView {
                frame_min: min_frame_count,
                frame_max: max_frame_count,
                writing: false,
                frames: 0,
                ..old(self)@
            }),
    {
        self.frame_min = min_frame_count;
        self.frame_max = max_frame_count;
        self.writing = false;
        self.frames = 0;
    }

    /// First step of writing `buffers`, one per channel, from within the
    /// write callback: returns how many frames to ask the device for, the
    /// length of the first buffer. `Invalid` where there are fewer buffers
    /// than channels, where a buffer holds fewer than `min_frame_count`
    /// frames, where the first buffer holds more frames than a native count
    /// can, where a write cycle is already open, or outside a write callback.
    pub fn write_request<T>(&self, min_frame_count: u32, buffers: &[Vec<T>]) -> (r: SioResult<
        u32,
    >)
        requires
            stream_wf(self@),
        ensures
            r == write_request_result(self@, min_frame_count, buffer_lens(buffers@)),
            buffers@.len() < self@.channels.len() ==> r == Err::<u32, SioError>(
                SioError::Invalid,
            ),
    {
        let ghost lens = buffer_lens(buffers@);
        if !self.marker || self.writing {
            return Err(SioError::Invalid);
        }
        if buffers.len() < self.layout.channels().len() || buffers.len() == 0 {
            return Err(SioError::Invalid);
        }
        let mut i: usize = 0;
        while i < buffers.len()
            invariant
                i <= buffers@.len(),
                lens == buffer_lens(buffers@),
                forall|j: int| 0 <= j < i ==> lens[j] >= min_frame_count,
            decreases buffers@.len() - i,
        {
            if buffers[i].len() < min_frame_count as usize {
                assert(lens[i as int] < min_frame_count);
                return Err(SioError::Invalid);
            }
            i = i + 1;
        }
        let first = buffers[0].len();
        if first > i32::MAX as usize {
            return Err(SioError::Invalid);
        }
        Ok(first as u32)
    }

    /// Records the device's answer to a request for `requested` frames:
    /// `outcome`, and the `actual` frames it granted. On success a write
    /// cycle is open over the granted frames, never more than requested nor
    /// than the callback's maximum, and must be committed with `end_write`.
    pub fn begin_write(&mut self, requested: u32, outcome: SioError, actual: i32) -> (r:
        SioResult<u32>)
        ensures
            r == begin_write_result(old(self)@, requested, outcome, actual),
            final(self)@ == begin_write_next(old(self)@, requested, outcome, actual),
    {
        if !self.marker || self.writing {
            return Err(SioError::Invalid);
        }
        if outcome != SioError::NoError {
            return Err(outcome);
        }
        let n: u32 = if actual < 0 {
            0
        } else if (actual as u32) <= requested && (actual as u32) <= self.frame_max {
            actual as u32
        } else if requested <= self.frame_max {
            requested
        } else {
            self.frame_max
        };
        self.writing = true;
        self.frames = n;
        Ok(n)
    }

    /// Stores the granted frames of `buffers`, one per channel, into the
    /// device's `region`, frame `i` of channel `c` at index
    /// `sample_index(areas[c], i)`. `Invalid`, with `region` left as it was,
    /// where no write cycle is open, where a buffer is missing or short, or
    /// where an area does not fit in the region.
    pub fn write_frames<T: Copy>(&self, region: &mut [T], areas: &[SampleArea], buffers: &[Vec<T>]) -> (r:
        SioResult<()>)
        requires
            stream_wf(self@),
        ensures
            r is Ok <==> (self@.writing && self@.channels.len() <= buffers@.len() && (forall|
                c: int,
            |
                0 <= c < self@.channels.len() ==> self@.frames <= (#[trigger] buffers@[c])@.len())
                && areas_fit(
                areas@,
                self@.channels.len() as int,
                self@.frames as int,
                old(region)@.len() as int,
            )),
            r is Ok ==> final(region)@ == stored(
                old(region)@,
                areas@,
                buffers@.map_values(|b: Vec<T>| b@),
                self@.channels.len(),
                self@.frames as nat,
            ),
            r is Ok && indices_distinct(areas@, self@.channels.len() as int, self@.frames as int)
                ==> forall|c: int, i: int|
                0 <= c < self@.channels.len() && 0 <= i < self@.frames ==> final(region)@[#[trigger] sample_index(
                    areas@[c],
                    i,
                )] == buffers@[c]@[i],
            r is Err ==> r == Err::<(), SioError>(SioError::Invalid) && final(region)@ == old(
                region,
            )@,
    {
        let ghost bufs = buffers@.map_values(|b: Vec<T>| b@);
        let ghost orig = region@;
        let channels = self.layout.channels().len();
        let frames = self.frames as usize;
        if !self.writing || buffers.len() < channels {
            return Err(SioError::Invalid);
        }
        let mut c: usize = 0;
        while c < channels
            invariant
                c <= channels,
                channels == self@.channels.len(),
                channels <= buffers@.len(),
                frames == self@.frames,
                forall|k: int| 0 <= k < c ==> frames <= (#[trigger] buffers@[k])@.len(),
            decreases channels - c,
        {
            if buffers[c].len() < frames {
                return Err(SioError::Invalid);
            }
            c = c + 1;
        }
        if !areas_fit_region(areas, channels, frames, region.len()) {
            return Err(SioError::Invalid);
        }
        store_samples(region, areas, buffers, channels, frames);
        proof {
            if indices_distinct(areas@, channels as int, frames as int) {
                lemma_stored_contents(orig, areas@, bufs, channels as nat, frames as nat);
                assert forall|c: int, i: int| 0 <= c < channels && 0 <= i < frames implies region@[#[trigger] sample_index(
                    areas@[c],
                    i,
                )] == buffers@[c]@[i] by {
                    assert(bufs[c] == buffers@[c]@);
                }
            }
        }
        Ok(())
    }

    /// Records the device's answer `outcome` to committing the open write
    /// cycle, and closes it. Returns the frames written in the cycle.
    /// Without an open cycle, `Invalid`: a cycle is committed once.
    pub fn end_write(&mut self, outcome: SioError) -> (r: SioResult<u32>)
        ensures
            r == end_write_result(old(self)@, outcome),
            final(self)@ == end_write_next(old(self)@),
    {
        if !self.writing {
            return Err(SioError::Invalid);
        }
        let n = self.frames;
        self.writing = false;
        self.frames = 0;
        if outcome != SioError::NoError {
            Err(outcome)
        } else {
            Ok(n)
        }
    }
}

/// Setting a format the device supports whose samples are 1, 2, 4 or 8
/// bytes wide succeeds, and the current format is then exactly that format.
pub proof fn lemma_set_format_round_trip(v: StreamView, f: SioFormat)
    requires
        v.device_formats.contains(f),
        format_width(f) == 1 || format_width(f) == 2 || format_width(f) == 4 || format_width(f)
            == 8,
    ensures
        set_format_result(v, f) == Ok::<(), SioError>(()),
        format_result(set_format_next(v, f)) == Ok::<SioFormat, SioError>(f),
{
}

/// In a write callback, where the buffers (at least one per channel) all
/// hold `len` frames, at least `min_frame_count` of them, the device is
/// asked for `len` frames, and a write cycle that is begun, filled and
/// committed writes no more than `len` frames and no more than the maximum
/// the callback asked for.
pub proof fn lemma_frames_written_bounded(
    v: StreamView,
    min_frame_count: u32,
    lens: Seq<int>,
    len: int,
    begin_outcome: SioError,
    actual: i32,
    end_outcome: SioError,
)
    requires
        v.marker,
        !v.writing,
        lens.len() >= v.channels.len(),
        lens.len() > 0,
        forall|i: int| 0 <= i < lens.len() ==> lens[i] == len,
        len >= min_frame_count,
    ensures
        len <= i32::MAX ==> write_request_result(v, min_frame_count, lens) == Ok::<u32, SioError>(
            len as u32,
        ),
        write_request_result(v, min_frame_count, lens) matches Ok(requested) ==> {
            let cycle = begin_write_next(v, requested, begin_outcome, actual);
            &&& requested == len
            &&& begin_write_result(v, requested, begin_outcome, actual) matches Ok(n) ==> n
                <= requested && n <= v.frame_max
            &&& end_write_result(cycle, end_outcome) matches Ok(written) ==> written <= len
                && written <= v.frame_max
        },
{
    assert(lens[0] == len);
}

/// Pausing a running stream whose native pause succeeds, then pausing it
/// again, gives no error either time: the second pause has nothing to ask
/// of the native layer.
pub proof fn lemma_pause_twice(v: StreamView, first_outcome: SioError, second_outcome: SioError)
    requires
        v.state == StreamState::Started || v.state == StreamState::Paused,
        first_outcome == SioError::NoError,
    ensures
        pause_result(v, true, first_outcome) is None,
        pause_next(v, true, first_outcome).state == StreamState::Paused,
        !pause_needs_native(pause_next(v, true, first_outcome), true),
        pause_result(pause_next(v, true, first_outcome), true, second_outcome) is None,
        pause_next(pause_next(v, true, first_outcome), true, second_outcome) == pause_next(
            v,
            true,
            first_outcome,
        ),
{
}

/// Pausing a started stream and then unpausing it, both answered without
/// error by the native layer, leaves the stream exactly as it was.
pub proof fn lemma_pause_unpause(v: StreamView, pause_outcome: SioError, unpause_outcome: SioError)
    requires
        v.state == StreamState::Started,
        pause_outcome == SioError::NoError,
        unpause_outcome == SioError::NoError,
    ensures
        pause_result(v, true, pause_outcome) is None,
        pause_result(pause_next(v, true, pause_outcome), false, unpause_outcome) is None,
        pause_next(pause_next(v, true, pause_outcome), false, unpause_outcome) == v,
{
}

/// A stream with no write closure registered cannot be started: the check
/// before the native start refuses it with `Invalid`, and should the native
/// layer still ask for frames, the bridge finds no closure and takes the
/// path that writes no samples.
pub proof fn lemma_start_needs_write_callback(v: StreamView, has_underflow: bool, has_error: bool)
    ensures
        start_check(v, false) == Err::<(), SioError>(SioError::Invalid),
        callback_action(false, has_underflow, has_error, CallbackKind::Write)
            == CallbackAction::MissingWrite,
{
}

} // verus!

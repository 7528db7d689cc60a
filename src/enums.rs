use vstd::prelude::*;

verus! {

/// Error codes exchanged with the native audio layer.
#[derive(Clone, Copy, Debug, PartialEq, Eq, Structural)]
pub enum SioError {
    NoError,
    /// Out of memory.
    NoMem,
    /// The backend does not appear to be active or running.
    InitAudioBackend,
    /// A system resource other than memory was not available.
    SystemResources,
    /// Attempted to open a device and failed.
    OpeningDevice,
    NoSuchDevice,
    /// The programmer did not comply with the API.
    Invalid,
    /// The native library was built without support for that backend.
    BackendUnavailable,
    /// An open stream had an error that can only be recovered from by
    /// destroying the stream and creating it again.
    Streaming,
    /// Attempted to use a device with parameters it cannot support.
    IncompatibleDevice,
    /// When JACK returns `JackNoSuchClient`
    NoSuchClient,
    /// Attempted to use parameters that the backend cannot support.
    IncompatibleBackend,
    /// Backend server shutdown or became inactive.
    BackendDisconnected,
    Interrupted,
    /// Buffer underrun occurred.
    Underflow,
    /// Unable to convert to or from UTF-8 to the native string format.
    EncodingString,
}

/// The number that stands for `e` in the native error enumeration.
pub open spec fn error_code(e: SioError) -> u32 {
    match e {
        SioError::NoError => 0,
        SioError::NoMem => 1,
        SioError::InitAudioBackend => 2,
        SioError::SystemResources => 3,
        SioError::OpeningDevice => 4,
        SioError::NoSuchDevice => 5,
        SioError::Invalid => 6,
        SioError::BackendUnavailable => 7,
        SioError::Streaming => 8,
        SioError::IncompatibleDevice => 9,
        SioError::NoSuchClient => 10,
        SioError::IncompatibleBackend => 11,
        SioError::BackendDisconnected => 12,
        SioError::Interrupted => 13,
        SioError::Underflow => 14,
        SioError::EncodingString => 15,
    }
}

impl SioError {
    /// Number of variants; the native codes are `0` up to this bound.
    pub const COUNT: u32 = 16;

    /// The native code of this value.
    pub fn code(self) -> (r: u32)
        ensures
            r == error_code(self),
    {
        match self {
            SioError::NoError => 0,
            SioError::NoMem => 1,
            SioError::InitAudioBackend => 2,
            SioError::SystemResources => 3,
            SioError::OpeningDevice => 4,
            SioError::NoSuchDevice => 5,
            SioError::Invalid => 6,
            SioError::BackendUnavailable => 7,
            SioError::Streaming => 8,
            SioError::IncompatibleDevice => 9,
            SioError::NoSuchClient => 10,
            SioError::IncompatibleBackend => 11,
            SioError::BackendDisconnected => 12,
            SioError::Interrupted => 13,
            SioError::Underflow => 14,
            SioError::EncodingString => 15,
        }
    }

    /// The value with native code `c`, if there is one.
    pub fn from_code(c: u32) -> (r: Option<SioError>)
        ensures
            r is Some <==> c < Self::COUNT,
            r matches Some(e) ==> error_code(e) == c,
    {
        match c {
            0 => Some(SioError::NoError),
            1 => Some(SioError::NoMem),
            2 => Some(SioError::InitAudioBackend),
            3 => Some(SioError::SystemResources),
            4 => Some(SioError::OpeningDevice),
            5 => Some(SioError::NoSuchDevice),
            6 => Some(SioError::Invalid),
            7 => Some(SioError::BackendUnavailable),
            8 => Some(SioError::Streaming),
            9 => Some(SioError::IncompatibleDevice),
            10 => Some(SioError::NoSuchClient),
            11 => Some(SioError::IncompatibleBackend),
            12 => Some(SioError::BackendDisconnected),
            13 => Some(SioError::Interrupted),
            14 => Some(SioError::Underflow),
            15 => Some(SioError::EncodingString),
            _ => None,
        }
    }
}

/// Where a channel is physically located.
#[derive(Clone, Copy, Debug, PartialEq, Eq, Structural)]
pub enum SioChannelId {
    Invalid,
    /// First of the more commonly supported ids.
    FrontLeft,
    FrontRight,
    FrontCenter,
    Lfe,
    BackLeft,
    BackRight,
    FrontLeftCenter,
    FrontRightCenter,
    BackCenter,
    SideLeft,
    SideRight,
    TopCenter,
    TopFrontLeft,
    TopFrontCenter,
    TopFrontRight,
    TopBackLeft,
    TopBackCenter,
    /// Last of the more commonly supported ids.
    TopBackRight,
    /// First of the less commonly supported ids.
    BackLeftCenter,
    BackRightCenter,
    FrontLeftWide,
    FrontRightWide,
    FrontLeftHigh,
    FrontCenterHigh,
    FrontRightHigh,
    TopFrontLeftCenter,
    TopFrontRightCenter,
    TopSideLeft,
    TopSideRight,
    LeftLfe,
    RightLfe,
    Lfe2,
    BottomCenter,
    BottomLeftCenter,
    BottomRightCenter,
    /// Mid/side recording
    MsMid,
    MsSide,
    /// first order ambisonic channels
    AmbisonicW,
    AmbisonicX,
    AmbisonicY,
    AmbisonicZ,
    /// X-Y Recording
    XyX,
    XyY,
    /// First of the "other" channel ids
    HeadphonesLeft,
    HeadphonesRight,
    ClickTrack,
    ForeignLanguage,
    HearingImpaired,
    Narration,
    Haptic,
    /// Last of the "other" channel ids
    DialogCentricMix,
    Aux,
    Aux0,
    Aux1,
    Aux2,
    Aux3,
    Aux4,
    Aux5,
    Aux6,
    Aux7,
    Aux8,
    Aux9,
    Aux10,
    Aux11,
    Aux12,
    Aux13,
    Aux14,
    Aux15,
}

/// The number that stands for `e` in the native channel id enumeration.
pub open spec fn channel_id_code(e: SioChannelId) -> u32 {
    match e {
        SioChannelId::Invalid => 0,
        SioChannelId::FrontLeft => 1,
        SioChannelId::FrontRight => 2,
        SioChannelId::FrontCenter => 3,
        SioChannelId::Lfe => 4,
        SioChannelId::BackLeft => 5,
        SioChannelId::BackRight => 6,
        SioChannelId::FrontLeftCenter => 7,
        SioChannelId::FrontRightCenter => 8,
        SioChannelId::BackCenter => 9,
        SioChannelId::SideLeft => 10,
        SioChannelId::SideRight => 11,
        SioChannelId::TopCenter => 12,
        SioChannelId::TopFrontLeft => 13,
        SioChannelId::TopFrontCenter => 14,
        SioChannelId::TopFrontRight => 15,
        SioChannelId::TopBackLeft => 16,
        SioChannelId::TopBackCenter => 17,
        SioChannelId::TopBackRight => 18,
        SioChannelId::BackLeftCenter => 19,
        SioChannelId::BackRightCenter => 20,
        SioChannelId::FrontLeftWide => 21,
        SioChannelId::FrontRightWide => 22,
        SioChannelId::FrontLeftHigh => 23,
        SioChannelId::FrontCenterHigh => 24,
        SioChannelId::FrontRightHigh => 25,
        SioChannelId::TopFrontLeftCenter => 26,
        SioChannelId::TopFrontRightCenter => 27,
        SioChannelId::TopSideLeft => 28,
        SioChannelId::TopSideRight => 29,
        SioChannelId::LeftLfe => 30,
        SioChannelId::RightLfe => 31,
        SioChannelId::Lfe2 => 32,
        SioChannelId::BottomCenter => 33,
        SioChannelId::BottomLeftCenter => 34,
        SioChannelId::BottomRightCenter => 35,
        SioChannelId::MsMid => 36,
        SioChannelId::MsSide => 37,
        SioChannelId::AmbisonicW => 38,
        SioChannelId::AmbisonicX => 39,
        SioChannelId::AmbisonicY => 40,
        SioChannelId::AmbisonicZ => 41,
        SioChannelId::XyX => 42,
        SioChannelId::XyY => 43,
        SioChannelId::HeadphonesLeft => 44,
        SioChannelId::HeadphonesRight => 45,
        SioChannelId::ClickTrack => 46,
        SioChannelId::ForeignLanguage => 47,
        SioChannelId::HearingImpaired => 48,
        SioChannelId::Narration => 49,
        SioChannelId::Haptic => 50,
        SioChannelId::DialogCentricMix => 51,
        SioChannelId::Aux => 52,
        SioChannelId::Aux0 => 53,
        SioChannelId::Aux1 => 54,
        SioChannelId::Aux2 => 55,
        SioChannelId::Aux3 => 56,
        SioChannelId::Aux4 => 57,
        SioChannelId::Aux5 => 58,
        SioChannelId::Aux6 => 59,
        SioChannelId::Aux7 => 60,
        SioChannelId::Aux8 => 61,
        SioChannelId::Aux9 => 62,
        SioChannelId::Aux10 => 63,
        SioChannelId::Aux11 => 64,
        SioChannelId::Aux12 => 65,
        SioChannelId::Aux13 => 66,
        SioChannelId::Aux14 => 67,
        SioChannelId::Aux15 => 68,
    }
}

impl SioChannelId {
    /// Number of variants; the native codes are `0` up to this bound.
    pub const COUNT: u32 = 69;

    /// The native code of this value.
    pub fn code(self) -> (r: u32)
        ensures
            r == channel_id_code(self),
    {
        match self {
            SioChannelId::Invalid => 0,
            SioChannelId::FrontLeft => 1,
            SioChannelId::FrontRight => 2,
            SioChannelId::FrontCenter => 3,
            SioChannelId::Lfe => 4,
            SioChannelId::BackLeft => 5,
            SioChannelId::BackRight => 6,
            SioChannelId::FrontLeftCenter => 7,
            SioChannelId::FrontRightCenter => 8,
            SioChannelId::BackCenter => 9,
            SioChannelId::SideLeft => 10,
            SioChannelId::SideRight => 11,
            SioChannelId::TopCenter => 12,
            SioChannelId::TopFrontLeft => 13,
            SioChannelId::TopFrontCenter => 14,
            SioChannelId::TopFrontRight => 15,
            SioChannelId::TopBackLeft => 16,
            SioChannelId::TopBackCenter => 17,
            SioChannelId::TopBackRight => 18,
            SioChannelId::BackLeftCenter => 19,
            SioChannelId::BackRightCenter => 20,
            SioChannelId::FrontLeftWide => 21,
            SioChannelId::FrontRightWide => 22,
            SioChannelId::FrontLeftHigh => 23,
            SioChannelId::FrontCenterHigh => 24,
            SioChannelId::FrontRightHigh => 25,
            SioChannelId::TopFrontLeftCenter => 26,
            SioChannelId::TopFrontRightCenter => 27,
            SioChannelId::TopSideLeft => 28,
            SioChannelId::TopSideRight => 29,
            SioChannelId::LeftLfe => 30,
            SioChannelId::RightLfe => 31,
            SioChannelId::Lfe2 => 32,
            SioChannelId::BottomCenter => 33,
            SioChannelId::BottomLeftCenter => 34,
            SioChannelId::BottomRightCenter => 35,
            SioChannelId::MsMid => 36,
            SioChannelId::MsSide => 37,
            SioChannelId::AmbisonicW => 38,
            SioChannelId::AmbisonicX => 39,
            SioChannelId::AmbisonicY => 40,
            SioChannelId::AmbisonicZ => 41,
            SioChannelId::XyX => 42,
            SioChannelId::XyY => 43,
            SioChannelId::HeadphonesLeft => 44,
            SioChannelId::HeadphonesRight => 45,
            SioChannelId::ClickTrack => 46,
            SioChannelId::ForeignLanguage => 47,
            SioChannelId::HearingImpaired => 48,
            SioChannelId::Narration => 49,
            SioChannelId::Haptic => 50,
            SioChannelId::DialogCentricMix => 51,
            SioChannelId::Aux => 52,
            SioChannelId::Aux0 => 53,
            SioChannelId::Aux1 => 54,
            SioChannelId::Aux2 => 55,
            SioChannelId::Aux3 => 56,
            SioChannelId::Aux4 => 57,
            SioChannelId::Aux5 => 58,
            SioChannelId::Aux6 => 59,
            SioChannelId::Aux7 => 60,
            SioChannelId::Aux8 => 61,
            SioChannelId::Aux9 => 62,
            SioChannelId::Aux10 => 63,
            SioChannelId::Aux11 => 64,
            SioChannelId::Aux12 => 65,
            SioChannelId::Aux13 => 66,
            SioChannelId::Aux14 => 67,
            SioChannelId::Aux15 => 68,
        }
    }

    /// The value with native code `c`, if there is one.
    pub fn from_code(c: u32) -> (r: Option<SioChannelId>)
        ensures
            r is Some <==> c < Self::COUNT,
            r matches Some(e) ==> channel_id_code(e) == c,
    {
        match c {
            0 => Some(SioChannelId::Invalid),
            1 => Some(SioChannelId::FrontLeft),
            2 => Some(SioChannelId::FrontRight),
            3 => Some(SioChannelId::FrontCenter),
            4 => Some(SioChannelId::Lfe),
            5 => Some(SioChannelId::BackLeft),
            6 => Some(SioChannelId::BackRight),
            7 => Some(SioChannelId::FrontLeftCenter),
            8 => Some(SioChannelId::FrontRightCenter),
            9 => Some(SioChannelId::BackCenter),
            10 => Some(SioChannelId::SideLeft),
            11 => Some(SioChannelId::SideRight),
            12 => Some(SioChannelId::TopCenter),
            13 => Some(SioChannelId::TopFrontLeft),
            14 => Some(SioChannelId::TopFrontCenter),
            15 => Some(SioChannelId::TopFrontRight),
            16 => Some(SioChannelId::TopBackLeft),
            17 => Some(SioChannelId::TopBackCenter),
            18 => Some(SioChannelId::TopBackRight),
            19 => Some(SioChannelId::BackLeftCenter),
            20 => Some(SioChannelId::BackRightCenter),
            21 => Some(SioChannelId::FrontLeftWide),
            22 => Some(SioChannelId::FrontRightWide),
            23 => Some(SioChannelId::FrontLeftHigh),
            24 => Some(SioChannelId::FrontCenterHigh),
            25 => Some(SioChannelId::FrontRightHigh),
            26 => Some(SioChannelId::TopFrontLeftCenter),
            27 => Some(SioChannelId::TopFrontRightCenter),
            28 => Some(SioChannelId::TopSideLeft),
            29 => Some(SioChannelId::TopSideRight),
            30 => Some(SioChannelId::LeftLfe),
            31 => Some(SioChannelId::RightLfe),
            32 => Some(SioChannelId::Lfe2),
            33 => Some(SioChannelId::BottomCenter),
            34 => Some(SioChannelId::BottomLeftCenter),
            35 => Some(SioChannelId::BottomRightCenter),
            36 => Some(SioChannelId::MsMid),
            37 => Some(SioChannelId::MsSide),
            38 => Some(SioChannelId::AmbisonicW),
            39 => Some(SioChannelId::AmbisonicX),
            40 => Some(SioChannelId::AmbisonicY),
            41 => Some(SioChannelId::AmbisonicZ),
            42 => Some(SioChannelId::XyX),
            43 => Some(SioChannelId::XyY),
            44 => Some(SioChannelId::HeadphonesLeft),
            45 => Some(SioChannelId::HeadphonesRight),
            46 => Some(SioChannelId::ClickTrack),
            47 => Some(SioChannelId::ForeignLanguage),
            48 => Some(SioChannelId::HearingImpaired),
            49 => Some(SioChannelId::Narration),
            50 => Some(SioChannelId::Haptic),
            51 => Some(SioChannelId::DialogCentricMix),
            52 => Some(SioChannelId::Aux),
            53 => Some(SioChannelId::Aux0),
            54 => Some(SioChannelId::Aux1),
            55 => Some(SioChannelId::Aux2),
            56 => Some(SioChannelId::Aux3),
            57 => Some(SioChannelId::Aux4),
            58 => Some(SioChannelId::Aux5),
            59 => Some(SioChannelId::Aux6),
            60 => Some(SioChannelId::Aux7),
            61 => Some(SioChannelId::Aux8),
            62 => Some(SioChannelId::Aux9),
            63 => Some(SioChannelId::Aux10),
            64 => Some(SioChannelId::Aux11),
            65 => Some(SioChannelId::Aux12),
            66 => Some(SioChannelId::Aux13),
            67 => Some(SioChannelId::Aux14),
            68 => Some(SioChannelId::Aux15),
            _ => None,
        }
    }
}

/// Builtin channel layouts.
#[derive(Clone, Copy, Debug, PartialEq, Eq, Structural)]
pub enum SioChannelLayoutId {
    Mono,
    Stereo,
    TwoPointOne,
    ThreePointZero,
    ThreePointZeroBack,
    ThreePointOne,
    FourPointZero,
    Quad,
    QuadSide,
    FourPointOne,
    FivePointZeroBack,
    FivePointZeroSide,
    FivePointOne,
    FivePointOneBack,
    SixPointZeroSide,
    SixPointZeroFront,
    Hexagonal,
    SixPointOne,
    SixPointOneBack,
    SixPointOneFront,
    SevenPointZero,
    SevenPointZeroFront,
    SevenPointOne,
    SevenPointOneWide,
    SevenPointOneWideBack,
    Octagonal,
}

/// The number that stands for `e` in the native builtin channel layout enumeration.
pub open spec fn layout_id_code(e: SioChannelLayoutId) -> u32 {
    match e {
        SioChannelLayoutId::Mono => 0,
        SioChannelLayoutId::Stereo => 1,
        SioChannelLayoutId::TwoPointOne => 2,
        SioChannelLayoutId::ThreePointZero => 3,
        SioChannelLayoutId::ThreePointZeroBack => 4,
        SioChannelLayoutId::ThreePointOne => 5,
        SioChannelLayoutId::FourPointZero => 6,
        SioChannelLayoutId::Quad => 7,
        SioChannelLayoutId::QuadSide => 8,
        SioChannelLayoutId::FourPointOne => 9,
        SioChannelLayoutId::FivePointZeroBack => 10,
        SioChannelLayoutId::FivePointZeroSide => 11,
        SioChannelLayoutId::FivePointOne => 12,
        SioChannelLayoutId::FivePointOneBack => 13,
        SioChannelLayoutId::SixPointZeroSide => 14,
        SioChannelLayoutId::SixPointZeroFront => 15,
        SioChannelLayoutId::Hexagonal => 16,
        SioChannelLayoutId::SixPointOne => 17,
        SioChannelLayoutId::SixPointOneBack => 18,
        SioChannelLayoutId::SixPointOneFront => 19,
        SioChannelLayoutId::SevenPointZero => 20,
        SioChannelLayoutId::SevenPointZeroFront => 21,
        SioChannelLayoutId::SevenPointOne => 22,
        SioChannelLayoutId::SevenPointOneWide => 23,
        SioChannelLayoutId::SevenPointOneWideBack => 24,
        SioChannelLayoutId::Octagonal => 25,
    }
}

impl SioChannelLayoutId {
    /// Number of variants; the native codes are `0` up to this bound.
    pub const COUNT: u32 = 26;

    /// The native code of this value.
    pub fn code(self) -> (r: u32)
        ensures
            r == layout_id_code(self),
    {
        match self {
            SioChannelLayoutId::Mono => 0,
            SioChannelLayoutId::Stereo => 1,
            SioChannelLayoutId::TwoPointOne => 2,
            SioChannelLayoutId::ThreePointZero => 3,
            SioChannelLayoutId::ThreePointZeroBack => 4,
            SioChannelLayoutId::ThreePointOne => 5,
            SioChannelLayoutId::FourPointZero => 6,
            SioChannelLayoutId::Quad => 7,
            SioChannelLayoutId::QuadSide => 8,
            SioChannelLayoutId::FourPointOne => 9,
            SioChannelLayoutId::FivePointZeroBack => 10,
            SioChannelLayoutId::FivePointZeroSide => 11,
            SioChannelLayoutId::FivePointOne => 12,
            SioChannelLayoutId::FivePointOneBack => 13,
            SioChannelLayoutId::SixPointZeroSide => 14,
            SioChannelLayoutId::SixPointZeroFront => 15,
            SioChannelLayoutId::Hexagonal => 16,
            SioChannelLayoutId::SixPointOne => 17,
            SioChannelLayoutId::SixPointOneBack => 18,
            SioChannelLayoutId::SixPointOneFront => 19,
            SioChannelLayoutId::SevenPointZero => 20,
            SioChannelLayoutId::SevenPointZeroFront => 21,
            SioChannelLayoutId::SevenPointOne => 22,
            SioChannelLayoutId::SevenPointOneWide => 23,
            SioChannelLayoutId::SevenPointOneWideBack => 24,
            SioChannelLayoutId::Octagonal => 25,
        }
    }

    /// The value with native code `c`, if there is one.
    pub fn from_code(c: u32) -> (r: Option<SioChannelLayoutId>)
        ensures
            r is Some <==> c < Self::COUNT,
            r matches Some(e) ==> layout_id_code(e) == c,
    {
        match c {
            0 => Some(SioChannelLayoutId::Mono),
            1 => Some(SioChannelLayoutId::Stereo),
            2 => Some(SioChannelLayoutId::TwoPointOne),
            3 => Some(SioChannelLayoutId::ThreePointZero),
            4 => Some(SioChannelLayoutId::ThreePointZeroBack),
            5 => Some(SioChannelLayoutId::ThreePointOne),
            6 => Some(SioChannelLayoutId::FourPointZero),
            7 => Some(SioChannelLayoutId::Quad),
            8 => Some(SioChannelLayoutId::QuadSide),
            9 => Some(SioChannelLayoutId::FourPointOne),
            10 => Some(SioChannelLayoutId::FivePointZeroBack),
            11 => Some(SioChannelLayoutId::FivePointZeroSide),
            12 => Some(SioChannelLayoutId::FivePointOne),
            13 => Some(SioChannelLayoutId::FivePointOneBack),
            14 => Some(SioChannelLayoutId::SixPointZeroSide),
            15 => Some(SioChannelLayoutId::SixPointZeroFront),
            16 => Some(SioChannelLayoutId::Hexagonal),
            17 => Some(SioChannelLayoutId::SixPointOne),
            18 => Some(SioChannelLayoutId::SixPointOneBack),
            19 => Some(SioChannelLayoutId::SixPointOneFront),
            20 => Some(SioChannelLayoutId::SevenPointZero),
            21 => Some(SioChannelLayoutId::SevenPointZeroFront),
            22 => Some(SioChannelLayoutId::SevenPointOne),
            23 => Some(SioChannelLayoutId::SevenPointOneWide),
            24 => Some(SioChannelLayoutId::SevenPointOneWideBack),
            25 => Some(SioChannelLayoutId::Octagonal),
            _ => None,
        }
    }
}

/// Audio backends the native library may connect to.
#[derive(Clone, Copy, Debug, PartialEq, Eq, Structural)]
pub enum SioBackend {
    NoBackend,
    Jack,
    PulseAudio,
    Alsa,
    CoreAudio,
    Wasapi,
    Dummy,
}

/// The number that stands for `e` in the native backend enumeration.
pub open spec fn backend_code(e: SioBackend) -> u32 {
    match e {
        SioBackend::NoBackend => 0,
        SioBackend::Jack => 1,
        SioBackend::PulseAudio => 2,
        SioBackend::Alsa => 3,
        SioBackend::CoreAudio => 4,
        SioBackend::Wasapi => 5,
        SioBackend::Dummy => 6,
    }
}

impl SioBackend {
    /// Number of variants; the native codes are `0` up to this bound.
    pub const COUNT: u32 = 7;

    /// The native code of this value.
    pub fn code(self) -> (r: u32)
        ensures
            r == backend_code(self),
    {
        match self {
            SioBackend::NoBackend => 0,
            SioBackend::Jack => 1,
            SioBackend::PulseAudio => 2,
            SioBackend::Alsa => 3,
            SioBackend::CoreAudio => 4,
            SioBackend::Wasapi => 5,
            SioBackend::Dummy => 6,
        }
    }

    /// The value with native code `c`, if there is one.
    pub fn from_code(c: u32) -> (r: Option<SioBackend>)
        ensures
            r is Some <==> c < Self::COUNT,
            r matches Some(e) ==> backend_code(e) == c,
    {
        match c {
            0 => Some(SioBackend::NoBackend),
            1 => Some(SioBackend::Jack),
            2 => Some(SioBackend::PulseAudio),
            3 => Some(SioBackend::Alsa),
            4 => Some(SioBackend::CoreAudio),
            5 => Some(SioBackend::Wasapi),
            6 => Some(SioBackend::Dummy),
            _ => None,
        }
    }
}

/// Whether a device records or plays.
#[derive(Clone, Copy, Debug, PartialEq, Eq, Structural)]
pub enum SioDeviceAim {
    /// capture/recording
    Input,
    /// playback
    Output,
}

/// The number that stands for `e` in the native device aim enumeration.
pub open spec fn aim_code(e: SioDeviceAim) -> u32 {
    match e {
        SioDeviceAim::Input => 0,
        SioDeviceAim::Output => 1,
    }
}

impl SioDeviceAim {
    /// Number of variants; the native codes are `0` up to this bound.
    pub const COUNT: u32 = 2;

    /// The native code of this value.
    pub fn code(self) -> (r: u32)
        ensures
            r == aim_code(self),
    {
        match self {
            SioDeviceAim::Input => 0,
            SioDeviceAim::Output => 1,
        }
    }

    /// The value with native code `c`, if there is one.
    pub fn from_code(c: u32) -> (r: Option<SioDeviceAim>)
        ensures
            r is Some <==> c < Self::COUNT,
            r matches Some(e) ==> aim_code(e) == c,
    {
        match c {
            0 => Some(SioDeviceAim::Input),
            1 => Some(SioDeviceAim::Output),
            _ => None,
        }
    }
}

/// Sample encodings, each for little- and big-endian.
#[derive(Clone, Copy, Debug, PartialEq, Eq, Structural)]
pub enum SioFormat {
    Invalid,
    /// Signed 8 bit
    S8,
    /// Unsigned 8 bit
    U8,
    /// Signed 16 bit little-endian
    S16LE,
    /// Signed 16 bit big-endian
    S16BE,
    /// Unsigned 16 bit little-endian
    U16LE,
    /// Unsigned 16 bit big-endian
    U16BE,
    /// Signed 24 bit little-endian. The 24 bit formats have no native
    /// number type and are left out of the direct sample write path.
    S24LE,
    /// Signed 24 bit big-endian
    S24BE,
    /// Unsigned 24 bit little-endian
    U24LE,
    /// Unsigned 24 bit big-endian
    U24BE,
    /// Signed 32 bit little-endian
    S32LE,
    /// Signed 32 bit big-endian
    S32BE,
    /// Unsigned 32 bit little-endian
    U32LE,
    /// Unsigned 32 bit big-endian
    U32BE,
    /// 32 bit float little-endian in [-1.0, 1.0]
    Float32LE,
    /// 32 bit float big-endian in [-1.0, 1.0]
    Float32BE,
    /// 64 bit float little-endian in [-1.0, 1.0]
    Float64LE,
    /// 64 bit float big-endian in [-1.0, 1.0]
    Float64BE,
}

/// The number that stands for `e` in the native sample format enumeration.
pub open spec fn format_code(e: SioFormat) -> u32 {
    match e {
        SioFormat::Invalid => 0,
        SioFormat::S8 => 1,
        SioFormat::U8 => 2,
        SioFormat::S16LE => 3,
        SioFormat::S16BE => 4,
        SioFormat::U16LE => 5,
        SioFormat::U16BE => 6,
        SioFormat::S24LE => 7,
        SioFormat::S24BE => 8,
        SioFormat::U24LE => 9,
        SioFormat::U24BE => 10,
        SioFormat::S32LE => 11,
        SioFormat::S32BE => 12,
        SioFormat::U32LE => 13,
        SioFormat::U32BE => 14,
        SioFormat::Float32LE => 15,
        SioFormat::Float32BE => 16,
        SioFormat::Float64LE => 17,
        SioFormat::Float64BE => 18,
    }
}

impl SioFormat {
    /// Number of variants; the native codes are `0` up to this bound.
    pub const COUNT: u32 = 19;

    /// The native code of this value.
    pub fn code(self) -> (r: u32)
        ensures
            r == format_code(self),
    {
        match self {
            SioFormat::Invalid => 0,
            SioFormat::S8 => 1,
            SioFormat::U8 => 2,
            SioFormat::S16LE => 3,
            SioFormat::S16BE => 4,
            SioFormat::U16LE => 5,
            SioFormat::U16BE => 6,
            SioFormat::S24LE => 7,
            SioFormat::S24BE => 8,
            SioFormat::U24LE => 9,
            SioFormat::U24BE => 10,
            SioFormat::S32LE => 11,
            SioFormat::S32BE => 12,
            SioFormat::U32LE => 13,
            SioFormat::U32BE => 14,
            SioFormat::Float32LE => 15,
            SioFormat::Float32BE => 16,
            SioFormat::Float64LE => 17,
            SioFormat::Float64BE => 18,
        }
    }

    /// The value with native code `c`, if there is one.
    pub fn from_code(c: u32) -> (r: Option<SioFormat>)
        ensures
            r is Some <==> c < Self::COUNT,
            r matches Some(e) ==> format_code(e) == c,
    {
        match c {
            0 => Some(SioFormat::Invalid),
            1 => Some(SioFormat::S8),
            2 => Some(SioFormat::U8),
            3 => Some(SioFormat::S16LE),
            4 => Some(SioFormat::S16BE),
            5 => Some(SioFormat::U16LE),
            6 => Some(SioFormat::U16BE),
            7 => Some(SioFormat::S24LE),
            8 => Some(SioFormat::S24BE),
            9 => Some(SioFormat::U24LE),
            10 => Some(SioFormat::U24BE),
            11 => Some(SioFormat::S32LE),
            12 => Some(SioFormat::S32BE),
            13 => Some(SioFormat::U32LE),
            14 => Some(SioFormat::U32BE),
            15 => Some(SioFormat::Float32LE),
            16 => Some(SioFormat::Float32BE),
            17 => Some(SioFormat::Float64LE),
            18 => Some(SioFormat::Float64BE),
            _ => None,
        }
    }
}

/// Result whose error is always one of the native error codes.
pub type SioResult<T> = Result<T, SioError>;

/// Bytes one sample takes in format `f`; `-1` for `Invalid`.
pub open spec fn format_width(f: SioFormat) -> int {
    match f {
        SioFormat::Invalid => -1,
        SioFormat::S8 | SioFormat::U8 => 1,
        SioFormat::S16LE | SioFormat::S16BE | SioFormat::U16LE | SioFormat::U16BE => 2,
        SioFormat::S24LE | SioFormat::S24BE | SioFormat::U24LE | SioFormat::U24BE => 3,
        SioFormat::S32LE | SioFormat::S32BE | SioFormat::U32LE | SioFormat::U32BE
        | SioFormat::Float32LE | SioFormat::Float32BE => 4,
        SioFormat::Float64LE | SioFormat::Float64BE => 8,
    }
}

/// The numeric element types the sample write path handles directly.
#[derive(Clone, Copy, Debug, PartialEq, Eq, Structural)]
pub enum SampleType {
    I8,
    U8,
    I16,
    U16,
    I32,
    U32,
    F32,
    F64,
}

/// Bytes one element of type `t` takes.
pub open spec fn sample_type_width(t: SampleType) -> int {
    match t {
        SampleType::I8 | SampleType::U8 => 1,
        SampleType::I16 | SampleType::U16 => 2,
        SampleType::I32 | SampleType::U32 | SampleType::F32 => 4,
        SampleType::F64 => 8,
    }
}

/// The element type that writes samples of format `f`; none for `Invalid`
/// and for the 24 bit formats.
pub open spec fn format_sample_type(f: SioFormat) -> Option<SampleType> {
    match f {
        SioFormat::S8 => Some(SampleType::I8),
        SioFormat::U8 => Some(SampleType::U8),
        SioFormat::S16LE | SioFormat::S16BE => Some(SampleType::I16),
        SioFormat::U16LE | SioFormat::U16BE => Some(SampleType::U16),
        SioFormat::S32LE | SioFormat::S32BE => Some(SampleType::I32),
        SioFormat::U32LE | SioFormat::U32BE => Some(SampleType::U32),
        SioFormat::Float32LE | SioFormat::Float32BE => Some(SampleType::F32),
        SioFormat::Float64LE | SioFormat::Float64BE => Some(SampleType::F64),
        _ => None,
    }
}

impl SioFormat {
    /// Returns the number of bytes a sample takes in this format.
    pub fn bytes_per_sample(self) -> (r: i32)
        ensures
            r == format_width(self),
    {
        match self {
            SioFormat::Invalid => -1,
            SioFormat::S8 | SioFormat::U8 => 1,
            SioFormat::S16LE | SioFormat::S16BE | SioFormat::U16LE | SioFormat::U16BE => 2,
            SioFormat::S24LE | SioFormat::S24BE | SioFormat::U24LE | SioFormat::U24BE => 3,
            SioFormat::S32LE | SioFormat::S32BE | SioFormat::U32LE | SioFormat::U32BE
            | SioFormat::Float32LE | SioFormat::Float32BE => 4,
            SioFormat::Float64LE | SioFormat::Float64BE => 8,
        }
    }

    /// The element type with which samples of this format are written, or
    /// `None` where there is no direct numeric path.
    pub fn sample_type(self) -> (r: Option<SampleType>)
        ensures
            r == format_sample_type(self),
            r matches Some(t) ==> sample_type_width(t) == format_width(self),
    {
        match self {
            SioFormat::S8 => Some(SampleType::I8),
            SioFormat::U8 => Some(SampleType::U8),
            SioFormat::S16LE | SioFormat::S16BE => Some(SampleType::I16),
            SioFormat::U16LE | SioFormat::U16BE => Some(SampleType::U16),
            SioFormat::S32LE | SioFormat::S32BE => Some(SampleType::I32),
            SioFormat::U32LE | SioFormat::U32BE => Some(SampleType::U32),
            SioFormat::Float32LE | SioFormat::Float32BE => Some(SampleType::F32),
            SioFormat::Float64LE | SioFormat::Float64BE => Some(SampleType::F64),
            _ => None,
        }
    }
}

/// Whether `e` is a fatal streaming fault, after which the stream can only
/// be destroyed.
pub open spec fn is_fatal_error(e: SioError) -> bool {
    e == SioError::Streaming || e == SioError::BackendDisconnected
}

impl SioError {
    /// Returns whether this error leaves the stream unusable: the only valid
    /// response is to destroy it.
    pub fn is_fatal(self) -> (r: bool)
        ensures
            r == is_fatal_error(self),
    {
        match self {
            SioError::Streaming | SioError::BackendDisconnected => true,
            _ => false,
        }
    }
}

} // verus!

//! Pixel formats, resolutions and frame modes, and their driver encoding.

use vstd::prelude::*;
use vstd::std_specs::convert::{FromSpecImpl, TryFromSpecImpl};
use vstd::string::StringExecFns;
use crate::driver::RawFrameMode;

verus! {

/// The unsigned reading of a two's complement number of the given modulus.
pub open spec fn unsigned(value: int, modulus: int) -> int {
    if value >= 0 {
        value
    } else {
        value + modulus
    }
}

/// The two's complement reading of an unsigned number of the given modulus.
pub open spec fn signed(value: int, modulus: int) -> int {
    if 2 * value < modulus {
        value
    } else {
        value - modulus
    }
}

fn unsigned_32(value: i32) -> (r: u32)
    ensures
        r == unsigned(value as int, 0x1_0000_0000),
{
    if value >= 0 {
        value as u32
    } else {
        let wide: i64 = value as i64 + 0x1_0000_0000;
        wide as u32
    }
}

fn unsigned_16(value: i16) -> (r: u16)
    ensures
        r == unsigned(value as int, 0x1_0000),
{
    if value >= 0 {
        value as u16
    } else {
        let wide: i32 = value as i32 + 0x1_0000;
        wide as u16
    }
}

fn unsigned_8(value: i8) -> (r: u8)
    ensures
        r == unsigned(value as int, 0x100),
{
    if value >= 0 {
        value as u8
    } else {
        let wide: i16 = value as i16 + 0x100;
        wide as u8
    }
}

fn signed_32(value: u32) -> (r: i32)
    ensures
        r == signed(value as int, 0x1_0000_0000),
{
    if value < 0x8000_0000 {
        value as i32
    } else {
        let wide: i64 = value as i64 - 0x1_0000_0000;
        wide as i32
    }
}

fn signed_16(value: u16) -> (r: i16)
    ensures
        r == signed(value as int, 0x1_0000),
{
    if value < 0x8000 {
        value as i16
    } else {
        let wide: i32 = value as i32 - 0x1_0000;
        wide as i16
    }
}

fn signed_8(value: u8) -> (r: i8)
    ensures
        r == signed(value as int, 0x100),
{
    if value < 0x80 {
        value as i8
    } else {
        let wide: i16 = value as i16 - 0x100;
        wide as i8
    }
}

/// The numeral of a single digit.
pub open spec fn digit_text(digit: nat) -> Seq<char> {
    if digit == 0 {
        "0"@
    } else if digit == 1 {
        "1"@
    } else if digit == 2 {
        "2"@
    } else if digit == 3 {
        "3"@
    } else if digit == 4 {
        "4"@
    } else if digit == 5 {
        "5"@
    } else if digit == 6 {
        "6"@
    } else if digit == 7 {
        "7"@
    } else if digit == 8 {
        "8"@
    } else {
        "9"@
    }
}

/// A number written in decimal, without leading zeros.
pub open spec fn decimal_text(n: nat) -> Seq<char>
    decreases n,
{
    if n < 10 {
        digit_text(n)
    } else {
        decimal_text(n / 10) + digit_text(n % 10)
    }
}

fn digit(d: u32) -> (text: &'static str)
    requires
        d < 10,
    ensures
        text@ == digit_text(d as nat),
{
    match d {
        0 => "0",
        1 => "1",
        2 => "2",
        3 => "3",
        4 => "4",
        5 => "5",
        6 => "6",
        7 => "7",
        8 => "8",
        _ => "9",
    }
}

fn append_decimal(out: &mut String, n: u32)
    ensures
        final(out)@ == old(out)@ + decimal_text(n as nat),
    decreases n,
{
    if n >= 10 {
        append_decimal(out, n / 10);
    }
    out.append(digit(n % 10));
    proof {
        if n >= 10 {
            assert((old(out)@ + decimal_text((n / 10) as nat)) + digit_text((n % 10) as nat)
                =~= old(out)@ + (decimal_text((n / 10) as nat) + digit_text((n % 10) as nat)));
        }
    }
}

/// The resolution of a frame.
#[derive(Debug, Clone, Copy, PartialEq, Eq, Structural)]
pub enum FreenectResolution {
    Low,
    Medium,
    High,
}

impl FreenectResolution {
    /// The driver's number for this resolution.
    pub open spec fn raw(self) -> u32 {
        match self {
            FreenectResolution::Low => 0,
            FreenectResolution::Medium => 1,
            FreenectResolution::High => 2,
        }
    }

    /// The resolution that the driver numbers `value`, if there is one.
    pub open spec fn of_raw(value: u32) -> Option<FreenectResolution> {
        if value == 0 {
            Some(FreenectResolution::Low)
        } else if value == 1 {
            Some(FreenectResolution::Medium)
        } else if value == 2 {
            Some(FreenectResolution::High)
        } else {
            None
        }
    }

    /// The driver's number for this resolution.
    pub fn to_raw(self) -> (value: u32)
        ensures
            value == self.raw(),
            FreenectResolution::of_raw(value) == Some(self),
    {
        match self {
            FreenectResolution::Low => 0,
            FreenectResolution::Medium => 1,
            FreenectResolution::High => 2,
        }
    }
}

impl Default for FreenectResolution {
    fn default() -> (resolution: Self)
        ensures
            resolution == FreenectResolution::Low,
    {
        FreenectResolution::Low
    }
}

impl TryFrom<u32> for FreenectResolution {
    type Error = ();

    fn try_from(value: u32) -> (r: Result<Self, ()>) {
        Ok(
            match value {
                0 => FreenectResolution::Low,
                1 => FreenectResolution::Medium,
                2 => FreenectResolution::High,
                _ => return Err(()),
            },
        )
    }
}

impl TryFromSpecImpl<u32> for FreenectResolution {
    open spec fn obeys_try_from_spec() -> bool {
        true
    }

    open spec fn try_from_spec(value: u32) -> Result<Self, ()> {
        match FreenectResolution::of_raw(value) {
            Some(resolution) => Ok(resolution),
            None => Err(()),
        }
    }
}

/// The pixel formats of the video stream.
#[derive(Debug, Clone, Copy, PartialEq, Eq, Structural)]
pub enum FreenectVideoFormat {
    Rgb,
    YuvRgb,
    YuvRaw,
    Bayer,
    Ir8Bit,
    Ir10Bit,
    Ir10BitPacked,
}

impl FreenectVideoFormat {
    /// The driver's number for this format.
    pub open spec fn raw(self) -> u32 {
        match self {
            FreenectVideoFormat::Rgb => 0,
            FreenectVideoFormat::Bayer => 1,
            FreenectVideoFormat::Ir8Bit => 2,
            FreenectVideoFormat::Ir10Bit => 3,
            FreenectVideoFormat::Ir10BitPacked => 4,
            FreenectVideoFormat::YuvRgb => 5,
            FreenectVideoFormat::YuvRaw => 6,
        }
    }

    /// The format that the driver numbers `value`, if there is one.
    pub open spec fn of_raw(value: u32) -> Option<FreenectVideoFormat> {
        if value == 0 {
            Some(FreenectVideoFormat::Rgb)
        } else if value == 1 {
            Some(FreenectVideoFormat::Bayer)
        } else if value == 2 {
            Some(FreenectVideoFormat::Ir8Bit)
        } else if value == 3 {
            Some(FreenectVideoFormat::Ir10Bit)
        } else if value == 4 {
            Some(FreenectVideoFormat::Ir10BitPacked)
        } else if value == 5 {
            Some(FreenectVideoFormat::YuvRgb)
        } else if value == 6 {
            Some(FreenectVideoFormat::YuvRaw)
        } else {
            None
        }
    }

    /// The name the format is shown under.
    pub open spec fn label_text(self) -> Seq<char> {
        match self {
            FreenectVideoFormat::Rgb => "RGB"@,
            FreenectVideoFormat::YuvRgb => "YUV-RGB"@,
            FreenectVideoFormat::YuvRaw => "YUV-RAW"@,
            FreenectVideoFormat::Bayer => "BAYER"@,
            FreenectVideoFormat::Ir8Bit => "IR-8bit"@,
            FreenectVideoFormat::Ir10Bit => "IR-10bit"@,
            FreenectVideoFormat::Ir10BitPacked => "IR-10bit packed"@,
        }
    }

    /// The driver's number for this format.
    pub fn to_raw(self) -> (value: u32)
        ensures
            value == self.raw(),
            FreenectVideoFormat::of_raw(value) == Some(self),
    {
        match self {
            FreenectVideoFormat::Rgb => 0,
            FreenectVideoFormat::Bayer => 1,
            FreenectVideoFormat::Ir8Bit => 2,
            FreenectVideoFormat::Ir10Bit => 3,
            FreenectVideoFormat::Ir10BitPacked => 4,
            FreenectVideoFormat::YuvRgb => 5,
            FreenectVideoFormat::YuvRaw => 6,
        }
    }

    /// The name the format is shown under.
    pub fn label(self) -> (text: &'static str)
        ensures
            text@ == self.label_text(),
    {
        match self {
            FreenectVideoFormat::Rgb => "RGB",
            FreenectVideoFormat::YuvRgb => "YUV-RGB",
            FreenectVideoFormat::YuvRaw => "YUV-RAW",
            FreenectVideoFormat::Bayer => "BAYER",
            FreenectVideoFormat::Ir8Bit => "IR-8bit",
            FreenectVideoFormat::Ir10Bit => "IR-10bit",
            FreenectVideoFormat::Ir10BitPacked => "IR-10bit packed",
        }
    }
}

impl Default for FreenectVideoFormat {
    fn default() -> (format: Self)
        ensures
            format == FreenectVideoFormat::Rgb,
    {
        FreenectVideoFormat::Rgb
    }
}

impl TryFrom<u32> for FreenectVideoFormat {
    type Error = ();

    fn try_from(value: u32) -> (r: Result<Self, ()>) {
        Ok(
            match value {
                0 => FreenectVideoFormat::Rgb,
                1 => FreenectVideoFormat::Bayer,
                2 => FreenectVideoFormat::Ir8Bit,
                3 => FreenectVideoFormat::Ir10Bit,
                4 => FreenectVideoFormat::Ir10BitPacked,
                5 => FreenectVideoFormat::YuvRgb,
                6 => FreenectVideoFormat::YuvRaw,
                _ => return Err(()),
            },
        )
    }
}

impl TryFromSpecImpl<u32> for FreenectVideoFormat {
    open spec fn obeys_try_from_spec() -> bool {
        true
    }

    open spec fn try_from_spec(value: u32) -> Result<Self, ()> {
        match FreenectVideoFormat::of_raw(value) {
            Some(format) => Ok(format),
            None => Err(()),
        }
    }
}

/// The sample formats of the depth stream.
#[derive(Debug, Clone, Copy, PartialEq, Eq, Structural)]
pub enum FreenectDepthFormat {
    Depth10Bit,
    Depth10BitPacked,
    Depth11Bit,
    Depth11BitPacked,
    DepthRegistered,
    DepthMillimeters,
}

impl FreenectDepthFormat {
    /// The driver's number for this format.
    pub open spec fn raw(self) -> u32 {
        match self {
            FreenectDepthFormat::Depth11Bit => 0,
            FreenectDepthFormat::Depth10Bit => 1,
            FreenectDepthFormat::Depth11BitPacked => 2,
            FreenectDepthFormat::Depth10BitPacked => 3,
            FreenectDepthFormat::DepthRegistered => 4,
            FreenectDepthFormat::DepthMillimeters => 5,
        }
    }

    /// The format that the driver numbers `value`, if there is one.
    pub open spec fn of_raw(value: u32) -> Option<FreenectDepthFormat> {
        if value == 0 {
            Some(FreenectDepthFormat::Depth11Bit)
        } else if value == 1 {
            Some(FreenectDepthFormat::Depth10Bit)
        } else if value == 2 {
            Some(FreenectDepthFormat::Depth11BitPacked)
        } else if value == 3 {
            Some(FreenectDepthFormat::Depth10BitPacked)
        } else if value == 4 {
            Some(FreenectDepthFormat::DepthRegistered)
        } else if value == 5 {
            Some(FreenectDepthFormat::DepthMillimeters)
        } else {
            None
        }
    }

    /// The name the format is shown under.
    pub open spec fn label_text(self) -> Seq<char> {
        match self {
            FreenectDepthFormat::Depth10Bit => "10bit"@,
            FreenectDepthFormat::Depth10BitPacked => "10bit packed"@,
            FreenectDepthFormat::Depth11Bit => "11bit"@,
            FreenectDepthFormat::Depth11BitPacked => "11bit packed"@,
            FreenectDepthFormat::DepthRegistered => "registered"@,
            FreenectDepthFormat::DepthMillimeters => "mm"@,
        }
    }

    /// The driver's number for this format.
    pub fn to_raw(self) -> (value: u32)
        ensures
            value == self.raw(),
            FreenectDepthFormat::of_raw(value) == Some(self),
    {
        match self {
            FreenectDepthFormat::Depth11Bit => 0,
            FreenectDepthFormat::Depth10Bit => 1,
            FreenectDepthFormat::Depth11BitPacked => 2,
            FreenectDepthFormat::Depth10BitPacked => 3,
            FreenectDepthFormat::DepthRegistered => 4,
            FreenectDepthFormat::DepthMillimeters => 5,
        }
    }

    /// The name the format is shown under.
    pub fn label(self) -> (text: &'static str)
        ensures
            text@ == self.label_text(),
    {
        match self {
            FreenectDepthFormat::Depth10Bit => "10bit",
            FreenectDepthFormat::Depth10BitPacked => "10bit packed",
            FreenectDepthFormat::Depth11Bit => "11bit",
            FreenectDepthFormat::Depth11BitPacked => "11bit packed",
            FreenectDepthFormat::DepthRegistered => "registered",
            FreenectDepthFormat::DepthMillimeters => "mm",
        }
    }
}

impl Default for FreenectDepthFormat {
    fn default() -> (format: Self)
        ensures
            format == FreenectDepthFormat::Depth11Bit,
    {
        FreenectDepthFormat::Depth11Bit
    }
}

impl TryFrom<u32> for FreenectDepthFormat {
    type Error = ();

    fn try_from(value: u32) -> (r: Result<Self, ()>) {
        Ok(
            match value {
                0 => FreenectDepthFormat::Depth11Bit,
                1 => FreenectDepthFormat::Depth10Bit,
                2 => FreenectDepthFormat::Depth11BitPacked,
                3 => FreenectDepthFormat::Depth10BitPacked,
                4 => FreenectDepthFormat::DepthRegistered,
                5 => FreenectDepthFormat::DepthMillimeters,
                _ => return Err(()),
            },
        )
    }
}

impl TryFromSpecImpl<u32> for FreenectDepthFormat {
    open spec fn obeys_try_from_spec() -> bool {
        true
    }

    open spec fn try_from_spec(value: u32) -> Result<Self, ()> {
        match FreenectDepthFormat::of_raw(value) {
            Some(format) => Ok(format),
            None => Err(()),
        }
    }
}

/// A format of either stream.
#[derive(Debug, Clone, Copy, PartialEq, Eq, Structural)]
pub enum FreenectFormat {
    Video(FreenectVideoFormat),
    Depth(FreenectDepthFormat),
}

impl FreenectFormat {
    /// The driver's number for this format. The video and the depth formats
    /// are numbered apart, so the number alone does not tell the kind.
    pub open spec fn raw(self) -> u32 {
        match self {
            FreenectFormat::Video(v) => v.raw(),
            FreenectFormat::Depth(d) => d.raw(),
        }
    }

    /// How the format is shown: its kind, and its name in brackets.
    pub open spec fn text(self) -> Seq<char> {
        match self {
            FreenectFormat::Video(v) => "Video ("@ + v.label_text() + ")"@,
            FreenectFormat::Depth(d) => "Depth ("@ + d.label_text() + ")"@,
        }
    }

    /// The driver's number for this format.
    pub fn to_raw(self) -> (value: u32)
        ensures
            value == self.raw(),
    {
        match self {
            FreenectFormat::Video(v) => v.to_raw(),
            FreenectFormat::Depth(d) => d.to_raw(),
        }
    }

    /// How the format is shown.
    pub fn describe(self) -> (text: String)
        ensures
            text@ == self.text(),
    {
        match self {
            FreenectFormat::Video(v) => String::from_str("Video (").concat(v.label()).concat(")"),
            FreenectFormat::Depth(d) => String::from_str("Depth (").concat(d.label()).concat(")"),
        }
    }
}

impl From<FreenectVideoFormat> for FreenectFormat {
    fn from(value: FreenectVideoFormat) -> (format: Self) {
        FreenectFormat::Video(value)
    }
}

impl FromSpecImpl<FreenectVideoFormat> for FreenectFormat {
    open spec fn obeys_from_spec() -> bool {
        true
    }

    open spec fn from_spec(value: FreenectVideoFormat) -> Self {
        FreenectFormat::Video(value)
    }
}

impl From<FreenectDepthFormat> for FreenectFormat {
    fn from(value: FreenectDepthFormat) -> (format: Self) {
        FreenectFormat::Depth(value)
    }
}

impl FromSpecImpl<FreenectDepthFormat> for FreenectFormat {
    open spec fn obeys_from_spec() -> bool {
        true
    }

    open spec fn from_spec(value: FreenectDepthFormat) -> Self {
        FreenectFormat::Depth(value)
    }
}

/// One entry of the driver's catalog of frame modes.
#[derive(Debug, Clone, Copy, PartialEq, Eq, Structural)]
pub struct FreenectVideoMode {
    pub reserved: u32,
    pub format: FreenectFormat,
    pub resolution: FreenectResolution,
    pub bytes: u32,
    pub width: u16,
    pub height: u16,
    pub data_bits_per_pixel: u8,
    pub padding_bits_per_pixel: u8,
    pub framerate: u8,
    pub is_valid: bool,
}

impl FreenectVideoMode {
    /// The mode that a raw entry describes, once its format and resolution
    /// are known. The driver's signed fields are read as unsigned; the entry
    /// is valid where its flag is exactly 1.
    pub open spec fn described_by(
        raw: RawFrameMode,
        format: FreenectFormat,
        resolution: FreenectResolution,
    ) -> FreenectVideoMode {
        FreenectVideoMode {
            reserved: raw.reserved,
            format,
            resolution,
            bytes: unsigned(raw.bytes as int, 0x1_0000_0000) as u32,
            width: unsigned(raw.width as int, 0x1_0000) as u16,
            height: unsigned(raw.height as int, 0x1_0000) as u16,
            data_bits_per_pixel: unsigned(raw.data_bits_per_pixel as int, 0x100) as u8,
            padding_bits_per_pixel: unsigned(raw.padding_bits_per_pixel as int, 0x100) as u8,
            framerate: unsigned(raw.framerate as int, 0x100) as u8,
            is_valid: raw.is_valid == 1,
        }
    }

    /// A raw entry read as a mode of the video stream: `None` where its
    /// format is no video format or its resolution is unknown.
    pub open spec fn video_of_raw(raw: RawFrameMode) -> Option<FreenectVideoMode> {
        match (FreenectVideoFormat::of_raw(raw.format), FreenectResolution::of_raw(raw.resolution)) {
            (Some(format), Some(resolution)) => Some(
                Self::described_by(raw, FreenectFormat::Video(format), resolution),
            ),
            _ => None,
        }
    }

    /// A raw entry read as a mode of the depth stream: `None` where its
    /// format is no depth format or its resolution is unknown.
    pub open spec fn depth_of_raw(raw: RawFrameMode) -> Option<FreenectVideoMode> {
        match (FreenectDepthFormat::of_raw(raw.format), FreenectResolution::of_raw(raw.resolution)) {
            (Some(format), Some(resolution)) => Some(
                Self::described_by(raw, FreenectFormat::Depth(format), resolution),
            ),
            _ => None,
        }
    }

    /// The entry as the driver lays it out.
    pub open spec fn raw(self) -> RawFrameMode {
        RawFrameMode {
            reserved: self.reserved,
            resolution: self.resolution.raw(),
            format: self.format.raw(),
            bytes: signed(self.bytes as int, 0x1_0000_0000) as i32,
            width: signed(self.width as int, 0x1_0000) as i16,
            height: signed(self.height as int, 0x1_0000) as i16,
            data_bits_per_pixel: signed(self.data_bits_per_pixel as int, 0x100) as i8,
            padding_bits_per_pixel: signed(self.padding_bits_per_pixel as int, 0x100) as i8,
            framerate: signed(self.framerate as int, 0x100) as i8,
            is_valid: if self.is_valid {
                1i8
            } else {
                0i8
            },
        }
    }

    /// The data rate of the mode in megabits per second, rounded down:
    /// a megabit being 131072 bytes.
    pub open spec fn data_rate(self) -> int {
        (self.bytes * self.framerate) / 131072
    }

    /// How the mode is shown: its format, its width and height in pixels,
    /// its frames per second, its data bits per pixel and its data rate.
    pub open spec fn text(self) -> Seq<char> {
        self.format.text() + " "@ + decimal_text(self.width as nat) + "x"@ + decimal_text(
            self.height as nat,
        ) + "@"@ + decimal_text(self.framerate as nat) + "fps "@ + decimal_text(
            self.data_bits_per_pixel as nat,
        ) + "bpp, "@ + decimal_text(self.data_rate() as nat) + "Mbps"@
    }

    fn read(raw: &RawFrameMode, format: FreenectFormat, resolution: FreenectResolution) -> (mode:
        Self)
        ensures
            mode == Self::described_by(*raw, format, resolution),
    {
        FreenectVideoMode {
            reserved: raw.reserved,
            format,
            resolution,
            bytes: unsigned_32(raw.bytes),
            width: unsigned_16(raw.width),
            height: unsigned_16(raw.height),
            data_bits_per_pixel: unsigned_8(raw.data_bits_per_pixel),
            padding_bits_per_pixel: unsigned_8(raw.padding_bits_per_pixel),
            framerate: unsigned_8(raw.framerate),
            is_valid: raw.is_valid == 1,
        }
    }

    /// Reads a raw entry of the video catalog.
    pub fn from_raw_video(raw: &RawFrameMode) -> (r: Option<Self>)
        ensures
            r == Self::video_of_raw(*raw),
    {
        if let Ok(format) = FreenectVideoFormat::try_from(raw.format) {
            if let Ok(resolution) = FreenectResolution::try_from(raw.resolution) {
                return Some(Self::read(raw, FreenectFormat::from(format), resolution));
            }
        }
        None
    }

    /// Reads a raw entry of the depth catalog.
    pub fn from_raw_depth(raw: &RawFrameMode) -> (r: Option<Self>)
        ensures
            r == Self::depth_of_raw(*raw),
    {
        if let Ok(format) = FreenectDepthFormat::try_from(raw.format) {
            if let Ok(resolution) = FreenectResolution::try_from(raw.resolution) {
                return Some(Self::read(raw, FreenectFormat::from(format), resolution));
            }
        }
        None
    }

    /// The entry as the driver lays it out.
    pub fn to_raw(&self) -> (raw: RawFrameMode)
        ensures
            raw == self.raw(),
    {
        RawFrameMode {
            reserved: self.reserved,
            resolution: self.resolution.to_raw(),
            format: self.format.to_raw(),
            bytes: signed_32(self.bytes),
            width: signed_16(self.width),
            height: signed_16(self.height),
            data_bits_per_pixel: signed_8(self.data_bits_per_pixel),
            padding_bits_per_pixel: signed_8(self.padding_bits_per_pixel),
            framerate: signed_8(self.framerate),
            is_valid: if self.is_valid {
                1
            } else {
                0
            },
        }
    }

    /// The data rate of the mode in megabits per second, rounded down.
    pub fn megabits_per_second(&self) -> (rate: u32)
        ensures
            rate == self.data_rate(),
    {
        let bytes: u64 = self.bytes as u64;
        let frames: u64 = self.framerate as u64;
        assert(bytes * frames <= 0xFFFF_FFFF * 0xFF) by (nonlinear_arith)
            requires
                bytes <= 0xFFFF_FFFF,
                frames <= 0xFF,
        ;
        let rate: u64 = (bytes * frames) / 131072;
        rate as u32
    }

    /// How the mode is shown.
    pub fn describe(&self) -> (text: String)
        ensures
            text@ == self.text(),
    {
        let mut text = self.format.describe();
        text.append(" ");
        append_decimal(&mut text, self.width as u32);
        text.append("x");
        append_decimal(&mut text, self.height as u32);
        text.append("@");
        append_decimal(&mut text, self.framerate as u32);
        text.append("fps ");
        append_decimal(&mut text, self.data_bits_per_pixel as u32);
        text.append("bpp, ");
        append_decimal(&mut text, self.megabits_per_second());
        text.append("Mbps");
        text
    }
}

/// What `to_raw` writes, the reader of the matching catalog reads back
/// unchanged.
pub proof fn raw_round_trip(mode: FreenectVideoMode)
    ensures
        mode.format is Video ==> FreenectVideoMode::video_of_raw(mode.raw()) == Some(mode),
        mode.format is Depth ==> FreenectVideoMode::depth_of_raw(mode.raw()) == Some(mode),
{
}

} // verus!

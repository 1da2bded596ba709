//! Camera configuration: the value loaded from `camera_setting.json`,
//! its defaults, and the mapping from the serialized abbreviations to the
//! capture API's backend selector.

use vstd::prelude::*;
use vstd::string::StringExecFns;

use crate::text::spec_decimal;
use crate::text::str_eq;
use crate::text::u64_decimal;

verus! {

/// Pixel format requested from the capture device, as it appears in the
/// configuration file.
#[derive(Copy, Clone, Debug, PartialEq, Eq, Structural)]
pub enum SerializedFrameFormat {
    MJPEG,
    YUYV,
}

/// Abbreviation of the capture API backends, as it appears in the
/// configuration file.
#[derive(Copy, Clone, Debug, PartialEq, Eq, Structural)]
pub enum AbbreviationCaptureAPIBackend {
    /// Auto
    AUTO,
    /// UniversalVideoClass
    UVC,
    /// GStreamer
    GST,
    /// Video4Linux
    V4L,
    /// MediaFoundation
    MSMF,
    /// AVFoundation
    AVF,
    /// OpenCV
    OPENCV,
}

/// Backend selector of the capture API, written out in full.
#[derive(Copy, Clone, Debug, PartialEq, Eq, Structural)]
pub enum CaptureBackend {
    Auto,
    UniversalVideoClass,
    GStreamer,
    Video4Linux,
    MediaFoundation,
    AVFoundation,
    OpenCv,
}

/// What each abbreviation stands for. `V4L` expands to `GStreamer`, not to
/// `Video4Linux`: the two abbreviations select the same backend. Whether
/// that aliasing is intended is left to the integrator; it is kept here
/// as observed behaviour.
pub open spec fn spec_expand_backend(a: AbbreviationCaptureAPIBackend) -> CaptureBackend {
    match a {
        AbbreviationCaptureAPIBackend::AUTO => CaptureBackend::Auto,
        AbbreviationCaptureAPIBackend::UVC => CaptureBackend::UniversalVideoClass,
        AbbreviationCaptureAPIBackend::GST => CaptureBackend::GStreamer,
        AbbreviationCaptureAPIBackend::V4L => CaptureBackend::GStreamer,
        AbbreviationCaptureAPIBackend::MSMF => CaptureBackend::MediaFoundation,
        AbbreviationCaptureAPIBackend::AVF => CaptureBackend::AVFoundation,
        AbbreviationCaptureAPIBackend::OPENCV => CaptureBackend::OpenCv,
    }
}

impl AbbreviationCaptureAPIBackend {
    /// Expand the abbreviation into the full backend selector.
    pub fn expand(self) -> (r: CaptureBackend)
        ensures
            r == spec_expand_backend(self),
    {
        match self {
            AbbreviationCaptureAPIBackend::AUTO => CaptureBackend::Auto,
            AbbreviationCaptureAPIBackend::UVC => CaptureBackend::UniversalVideoClass,
            AbbreviationCaptureAPIBackend::GST => CaptureBackend::GStreamer,
            // see spec_expand_backend on the V4L / GST aliasing
            AbbreviationCaptureAPIBackend::V4L => CaptureBackend::GStreamer,
            AbbreviationCaptureAPIBackend::MSMF => CaptureBackend::MediaFoundation,
            AbbreviationCaptureAPIBackend::AVF => CaptureBackend::AVFoundation,
            AbbreviationCaptureAPIBackend::OPENCV => CaptureBackend::OpenCv,
        }
    }
}

/// The parameters a camera is opened with, as stored in the configuration
/// file: resolution (width, height), pixel format, frame rate, capture
/// backend, and the index of the device to open.
#[derive(Copy, Clone, Debug, PartialEq, Eq)]
pub struct CameraBuilder {
    pub resolution: (u32, u32),
    pub format: SerializedFrameFormat,
    pub frame_rate: u32,
    pub backend: AbbreviationCaptureAPIBackend,
    pub index: usize,
}

/// The compiled-in default: 640x480 MJPEG at 30 frames per second, on the
/// automatically chosen backend, device 0.
pub open spec fn spec_default_config() -> CameraBuilder {
    CameraBuilder {
        resolution: (640u32, 480u32),
        format: SerializedFrameFormat::MJPEG,
        frame_rate: 30u32,
        backend: AbbreviationCaptureAPIBackend::AUTO,
        index: 0usize,
    }
}

impl Default for CameraBuilder {
    /// The configuration used when the file is absent or unreadable.
    fn default() -> (r: Self)
        ensures
            r == spec_default_config(),
    {
        CameraBuilder {
            resolution: (640, 480),
            format: SerializedFrameFormat::MJPEG,
            frame_rate: 30,
            backend: AbbreviationCaptureAPIBackend::AUTO,
            index: 0,
        }
    }
}

/// The token a pixel format is written as in the configuration file.
pub open spec fn spec_format_name(f: SerializedFrameFormat) -> Seq<char> {
    match f {
        SerializedFrameFormat::MJPEG => "MJPEG"@,
        SerializedFrameFormat::YUYV => "YUYV"@,
    }
}

/// The token a backend abbreviation is written as in the configuration file.
pub open spec fn spec_backend_name(b: AbbreviationCaptureAPIBackend) -> Seq<char> {
    match b {
        AbbreviationCaptureAPIBackend::AUTO => "AUTO"@,
        AbbreviationCaptureAPIBackend::UVC => "UVC"@,
        AbbreviationCaptureAPIBackend::GST => "GST"@,
        AbbreviationCaptureAPIBackend::V4L => "V4L"@,
        AbbreviationCaptureAPIBackend::MSMF => "MSMF"@,
        AbbreviationCaptureAPIBackend::AVF => "AVF"@,
        AbbreviationCaptureAPIBackend::OPENCV => "OPENCV"@,
    }
}

/// The pixel format a token stands for, `None` for any other text.
pub open spec fn spec_parse_format(s: Seq<char>) -> Option<SerializedFrameFormat> {
    if s == "MJPEG"@ {
        Some(SerializedFrameFormat::MJPEG)
    } else if s == "YUYV"@ {
        Some(SerializedFrameFormat::YUYV)
    } else {
        None
    }
}

/// The backend abbreviation a token stands for, `None` for any other text.
pub open spec fn spec_parse_backend(s: Seq<char>) -> Option<AbbreviationCaptureAPIBackend> {
    if s == "AUTO"@ {
        Some(AbbreviationCaptureAPIBackend::AUTO)
    } else if s == "UVC"@ {
        Some(AbbreviationCaptureAPIBackend::UVC)
    } else if s == "GST"@ {
        Some(AbbreviationCaptureAPIBackend::GST)
    } else if s == "V4L"@ {
        Some(AbbreviationCaptureAPIBackend::V4L)
    } else if s == "MSMF"@ {
        Some(AbbreviationCaptureAPIBackend::MSMF)
    } else if s == "AVF"@ {
        Some(AbbreviationCaptureAPIBackend::AVF)
    } else if s == "OPENCV"@ {
        Some(AbbreviationCaptureAPIBackend::OPENCV)
    } else {
        None
    }
}

/// Write the pixel format as its configuration-file token.
pub fn format_name(f: SerializedFrameFormat) -> (r: &'static str)
    ensures
        r@ == spec_format_name(f),
{
    match f {
        SerializedFrameFormat::MJPEG => "MJPEG",
        SerializedFrameFormat::YUYV => "YUYV",
    }
}

/// Write the backend abbreviation as its configuration-file token.
pub fn backend_name(b: AbbreviationCaptureAPIBackend) -> (r: &'static str)
    ensures
        r@ == spec_backend_name(b),
{
    match b {
        AbbreviationCaptureAPIBackend::AUTO => "AUTO",
        AbbreviationCaptureAPIBackend::UVC => "UVC",
        AbbreviationCaptureAPIBackend::GST => "GST",
        AbbreviationCaptureAPIBackend::V4L => "V4L",
        AbbreviationCaptureAPIBackend::MSMF => "MSMF",
        AbbreviationCaptureAPIBackend::AVF => "AVF",
        AbbreviationCaptureAPIBackend::OPENCV => "OPENCV",
    }
}

/// Read a pixel format from its configuration-file token.
pub fn parse_format(s: &str) -> (r: Option<SerializedFrameFormat>)
    ensures
        r == spec_parse_format(s@),
{
    if str_eq(s, "MJPEG") {
        Some(SerializedFrameFormat::MJPEG)
    } else if str_eq(s, "YUYV") {
        Some(SerializedFrameFormat::YUYV)
    } else {
        None
    }
}

/// Read a backend abbreviation from its configuration-file token.
pub fn parse_backend(s: &str) -> (r: Option<AbbreviationCaptureAPIBackend>)
    ensures
        r == spec_parse_backend(s@),
{
    if str_eq(s, "AUTO") {
        Some(AbbreviationCaptureAPIBackend::AUTO)
    } else if str_eq(s, "UVC") {
        Some(AbbreviationCaptureAPIBackend::UVC)
    } else if str_eq(s, "GST") {
        Some(AbbreviationCaptureAPIBackend::GST)
    } else if str_eq(s, "V4L") {
        Some(AbbreviationCaptureAPIBackend::V4L)
    } else if str_eq(s, "MSMF") {
        Some(AbbreviationCaptureAPIBackend::MSMF)
    } else if str_eq(s, "AVF") {
        Some(AbbreviationCaptureAPIBackend::AVF)
    } else if str_eq(s, "OPENCV") {
        Some(AbbreviationCaptureAPIBackend::OPENCV)
    } else {
        None
    }
}

/// The configuration file's text for a configuration value: a JSON object
/// with the resolution pair, the pixel-format token, the frame rate, the
/// backend token, and the device index, one field per line.
pub open spec fn spec_config_json(c: CameraBuilder) -> Seq<char> {
    "{\n  \"resolution\": ["@ + spec_decimal(c.resolution.0 as nat) + ", "@ + spec_decimal(
        c.resolution.1 as nat,
    ) + "],\n  \"format\": \""@ + spec_format_name(c.format) + "\",\n  \"frame_rate\": "@
        + spec_decimal(c.frame_rate as nat) + ",\n  \"backend\": \""@ + spec_backend_name(c.backend)
        + "\",\n  \"index\": "@ + spec_decimal(c.index as nat) + "\n}"@
}

/// Serialize a configuration to the configuration file's JSON text.
pub fn config_json(c: &CameraBuilder) -> (r: String)
    ensures
        r@ == spec_config_json(*c),
{
    let mut s = String::from_str("{\n  \"resolution\": [");
    s.append(u64_decimal(c.resolution.0 as u64).as_str());
    s.append(", ");
    s.append(u64_decimal(c.resolution.1 as u64).as_str());
    s.append("],\n  \"format\": \"");
    s.append(format_name(c.format));
    s.append("\",\n  \"frame_rate\": ");
    s.append(u64_decimal(c.frame_rate as u64).as_str());
    s.append(",\n  \"backend\": \"");
    s.append(backend_name(c.backend));
    s.append("\",\n  \"index\": ");
    s.append(u64_decimal(c.index as u64).as_str());
    s.append("\n}");
    proof {
        assert(s@ =~= spec_config_json(*c));
    }
    s
}

} // verus!

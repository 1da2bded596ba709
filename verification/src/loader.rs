//! Loading the configuration: interpreting the configuration file's text,
//! falling back to the default, and producing the text to persist when the
//! file did not exist. Reading and writing the file itself is left to the
//! caller; this module decides everything in between.

use vstd::prelude::*;

use crate::config::spec_config_json;
use crate::config::spec_default_config;
use crate::config::spec_parse_backend;
use crate::config::spec_parse_format;
use crate::config::config_json;
use crate::config::parse_backend;
use crate::config::parse_format;
use crate::config::CameraBuilder;
use crate::json::json_element;
use crate::json::json_member;
use crate::json::json_parse;
use crate::json::json_str;
use crate::json::json_u64;
use crate::json::spec_json_element;
use crate::json::spec_json_member;
use crate::json::spec_json_str;
use crate::json::spec_json_u64;
use crate::json::spec_json_value;

verus! {

/// The configuration built from the plain field values read out of the
/// configuration file: `Some` exactly when the resolution pair and the frame
/// rate fit in `u32`, the index fits in `usize`, and both tokens are known.
pub open spec fn spec_config_from_fields(
    width: u64,
    height: u64,
    format: Seq<char>,
    frame_rate: u64,
    backend: Seq<char>,
    index: u64,
) -> Option<CameraBuilder> {
    if width <= u32::MAX && height <= u32::MAX && frame_rate <= u32::MAX && index <= usize::MAX
        && spec_parse_format(format) is Some && spec_parse_backend(backend) is Some {
        Some(
            CameraBuilder {
                resolution: (width as u32, height as u32),
                format: spec_parse_format(format)->Some_0,
                frame_rate: frame_rate as u32,
                backend: spec_parse_backend(backend)->Some_0,
                index: index as usize,
            },
        )
    } else {
        None
    }
}

/// Build a configuration from the plain field values read out of the file.
pub fn config_from_fields(
    width: u64,
    height: u64,
    format: &str,
    frame_rate: u64,
    backend: &str,
    index: u64,
) -> (r: Option<CameraBuilder>)
    ensures
        r == spec_config_from_fields(width, height, format@, frame_rate, backend@, index),
{
    let f = match parse_format(format) {
        Some(f) => f,
        None => {
            return None;
        },
    };
    let b = match parse_backend(backend) {
        Some(b) => b,
        None => {
            return None;
        },
    };
    if width <= u32::MAX as u64 && height <= u32::MAX as u64 && frame_rate <= u32::MAX as u64
        && index <= usize::MAX as u64 {
        Some(
            CameraBuilder {
                resolution: (width as u32, height as u32),
                format: f,
                frame_rate: frame_rate as u32,
                backend: b,
                index: index as usize,
            },
        )
    } else {
        None
    }
}

/// The unsigned integer under `key` of an object, if it is one.
pub open spec fn spec_member_u64(v: serde_json::Value, key: Seq<char>) -> Option<u64> {
    match spec_json_member(v, key) {
        Some(m) => spec_json_u64(m),
        None => None,
    }
}

/// The text under `key` of an object, if it is a string.
pub open spec fn spec_member_str(v: serde_json::Value, key: Seq<char>) -> Option<Seq<char>> {
    match spec_json_member(v, key) {
        Some(m) => spec_json_str(m),
        None => None,
    }
}

/// The unsigned integer at position `i` of an array, if it is one.
pub open spec fn spec_element_u64(v: serde_json::Value, i: int) -> Option<u64> {
    match spec_json_element(v, i) {
        Some(m) => spec_json_u64(m),
        None => None,
    }
}

/// The configuration a text stands for: the JSON value it parses to must be
/// an object with a `resolution` member holding exactly two elements, and
/// the five fields must assemble (see `spec_config_from_fields`); anything
/// else is `None`.
pub open spec fn spec_parse_config(s: Seq<char>) -> Option<CameraBuilder> {
    match spec_json_value(s) {
        None => None,
        Some(v) => match spec_json_member(v, "resolution"@) {
            None => None,
            Some(resolution) => {
                if spec_json_element(resolution, 2) is Some {
                    None
                } else {
                    let width = spec_element_u64(resolution, 0);
                    let height = spec_element_u64(resolution, 1);
                    let format = spec_member_str(v, "format"@);
                    let frame_rate = spec_member_u64(v, "frame_rate"@);
                    let backend = spec_member_str(v, "backend"@);
                    let index = spec_member_u64(v, "index"@);
                    if width is Some && height is Some && format is Some && frame_rate is Some
                        && backend is Some && index is Some {
                        spec_config_from_fields(
                            width->Some_0,
                            height->Some_0,
                            format->Some_0,
                            frame_rate->Some_0,
                            backend->Some_0,
                            index->Some_0,
                        )
                    } else {
                        None
                    }
                }
            },
        },
    }
}

/// The unsigned integer under `key` of an object, if it is one.
fn member_u64(v: &serde_json::Value, key: &str) -> (r: Option<u64>)
    ensures
        r == spec_member_u64(*v, key@),
{
    match json_member(v, key) {
        Some(m) => json_u64(m),
        None => None,
    }
}

/// The text under `key` of an object, if it is a string.
fn member_str<'a>(v: &'a serde_json::Value, key: &str) -> (r: Option<&'a str>)
    ensures
        r is Some <==> spec_member_str(*v, key@) is Some,
        r matches Some(t) ==> t@ == spec_member_str(*v, key@)->Some_0,
{
    match json_member(v, key) {
        Some(m) => json_str(m),
        None => None,
    }
}

/// The unsigned integer at position `i` of an array, if it is one.
fn element_u64(v: &serde_json::Value, i: usize) -> (r: Option<u64>)
    ensures
        r == spec_element_u64(*v, i as int),
{
    match json_element(v, i) {
        Some(m) => json_u64(m),
        None => None,
    }
}

/// Parse the configuration file's text. The JSON reading goes through
/// `serde_json`, whose results carry names (see the json module), so the
/// result is a stated function of the text.
pub fn parse_config(s: &str) -> (r: Option<CameraBuilder>)
    ensures
        r == spec_parse_config(s@),
{
    let v = match json_parse(s) {
        Some(v) => v,
        None => {
            return None;
        },
    };
    let resolution = match json_member(&v, "resolution") {
        Some(m) => m,
        None => {
            return None;
        },
    };
    // the resolution is exactly a pair: a third element rejects the file
    if json_element(resolution, 2).is_some() {
        return None;
    }
    let width = match element_u64(resolution, 0) {
        Some(n) => n,
        None => {
            return None;
        },
    };
    let height = match element_u64(resolution, 1) {
        Some(n) => n,
        None => {
            return None;
        },
    };
    let format = match member_str(&v, "format") {
        Some(t) => t,
        None => {
            return None;
        },
    };
    let frame_rate = match member_u64(&v, "frame_rate") {
        Some(n) => n,
        None => {
            return None;
        },
    };
    let backend = match member_str(&v, "backend") {
        Some(t) => t,
        None => {
            return None;
        },
    };
    let index = match member_u64(&v, "index") {
        Some(n) => n,
        None => {
            return None;
        },
    };
    config_from_fields(width, height, format, frame_rate, backend, index)
}

/// The outcome of loading the configuration.
pub enum ConfigLoad {
    /// The file was present and parsed; its value is used.
    Parsed(CameraBuilder),
    /// The file was present but did not parse; the default is used.
    ParseFailed(CameraBuilder),
    /// The file was absent; the default is used, and the text it serializes
    /// to should be written to the file's path.
    Created(CameraBuilder, String),
}

impl ConfigLoad {
    /// The configuration to run with, whatever the outcome.
    pub fn value(&self) -> (r: CameraBuilder)
        ensures
            self matches ConfigLoad::Parsed(c) ==> r == c,
            self matches ConfigLoad::ParseFailed(c) ==> r == c,
            self matches ConfigLoad::Created(c, _t) ==> r == c,
    {
        match self {
            ConfigLoad::Parsed(c) => *c,
            ConfigLoad::ParseFailed(c) => *c,
            ConfigLoad::Created(c, _t) => *c,
        }
    }
}

/// Decide the configuration from the file's contents, `None` standing for a
/// file that could not be read. A missing file yields the default together
/// with the text to persist; a file that does not parse yields the default
/// alone; loading never fails.
pub fn load_or_create(contents: Option<&str>) -> (r: ConfigLoad)
    ensures
        contents is None ==> (r matches ConfigLoad::Created(c, text) && c == spec_default_config()
            && text@ == spec_config_json(spec_default_config())),
        contents is Some ==> (r is Parsed || r is ParseFailed),
        contents matches Some(s) ==> (spec_parse_config(s@) matches Some(c) ==> r
            == ConfigLoad::Parsed(c)),
        contents matches Some(s) ==> (spec_parse_config(s@) is None ==> (r matches
            ConfigLoad::ParseFailed(d) && d == spec_default_config())),
        r is Created ==> contents is None,
        r matches ConfigLoad::ParseFailed(c) ==> c == spec_default_config(),
{
    match contents {
        None => {
            let c = CameraBuilder::default();
            let text = config_json(&c);
            ConfigLoad::Created(c, text)
        },
        Some(s) => match parse_config(s) {
            Some(c) => ConfigLoad::Parsed(c),
            None => ConfigLoad::ParseFailed(CameraBuilder::default()),
        },
    }
}

} // verus!

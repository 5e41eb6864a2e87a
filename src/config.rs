use vstd::prelude::*;

use crate::color::VideoColorSpaceConfig;

verus! {

/// An immutable, reference-counted byte buffer; carried through unread.
#[verifier::external_type_specification]
#[verifier::external_body]
pub struct ExBytes(bytes::Bytes);

/// The bytes that a buffer holds.
pub uninterp spec fn bytes_content(b: bytes::Bytes) -> Seq<u8>;

/// Relies on `Bytes::clone`: the new handle views the same bytes.
#[verifier::external_body]
fn clone_bytes(b: &bytes::Bytes) -> (r: bytes::Bytes)
    ensures
        bytes_content(r) == bytes_content(*b),
{
    b.clone()
}

pub open spec fn content_of(b: Option<bytes::Bytes>) -> Option<Seq<u8>> {
    match b {
        Some(b) => Some(bytes_content(b)),
        None => None,
    }
}

/// The engine's hardware-acceleration preference.
#[derive(Clone, Copy, Debug, PartialEq, Eq, Structural)]
pub enum HardwareAcceleration {
    NoPreference,
    PreferHardware,
    PreferSoftware,
}

/// What a [`VideoDecoderConfig`] describes.
pub struct DecoderConfigModel {
    pub codec: Seq<char>,
    pub coded_dimensions: Option<(u32, u32)>,
    pub display_dimensions: Option<(u32, u32)>,
    pub description: Option<Seq<u8>>,
    pub color_space: Option<VideoColorSpaceConfig>,
    pub hardware_acceleration: Option<bool>,
    pub latency_optimized: bool,
}

/// What a [`NativeDecoderConfig`] holds, field by field.
pub struct NativeConfigModel {
    pub codec: Seq<char>,
    pub coded_width: Option<u32>,
    pub coded_height: Option<u32>,
    pub display_aspect_width: Option<u32>,
    pub display_aspect_height: Option<u32>,
    pub description: Option<Seq<u8>>,
    pub color_space: Option<VideoColorSpaceConfig>,
    pub hardware_acceleration: Option<HardwareAcceleration>,
    pub optimize_for_latency: Option<bool>,
}

pub open spec fn first_of(d: Option<(u32, u32)>) -> Option<u32> {
    match d {
        Some(p) => Some(p.0),
        None => None,
    }
}

pub open spec fn second_of(d: Option<(u32, u32)>) -> Option<u32> {
    match d {
        Some(p) => Some(p.1),
        None => None,
    }
}

pub open spec fn pair_of(a: Option<u32>, b: Option<u32>) -> Option<(u32, u32)> {
    match (a, b) {
        (Some(a), Some(b)) => Some((a, b)),
        _ => None,
    }
}

pub open spec fn preference_of(preferred: Option<bool>) -> Option<HardwareAcceleration> {
    match preferred {
        Some(true) => Some(HardwareAcceleration::PreferHardware),
        Some(false) => Some(HardwareAcceleration::PreferSoftware),
        None => None,
    }
}

pub open spec fn preferred_of(h: Option<HardwareAcceleration>) -> Option<bool> {
    match h {
        Some(HardwareAcceleration::PreferHardware) => Some(true),
        Some(HardwareAcceleration::PreferSoftware) => Some(false),
        _ => None,
    }
}

/// The engine's native record for a configuration: a field is present only
/// where the configuration sets it.
pub open spec fn native_model(c: DecoderConfigModel) -> NativeConfigModel {
    NativeConfigModel {
        codec: c.codec,
        coded_width: first_of(c.coded_dimensions),
        coded_height: second_of(c.coded_dimensions),
        display_aspect_width: first_of(c.display_dimensions),
        display_aspect_height: second_of(c.display_dimensions),
        description: c.description,
        color_space: c.color_space,
        hardware_acceleration: preference_of(c.hardware_acceleration),
        optimize_for_latency: if c.latency_optimized {
            Some(true)
        } else {
            None
        },
    }
}

/// Reads a configuration back from a native record.
pub open spec fn model_of_native(n: NativeConfigModel) -> DecoderConfigModel {
    DecoderConfigModel {
        codec: n.codec,
        coded_dimensions: pair_of(n.coded_width, n.coded_height),
        display_dimensions: pair_of(n.display_aspect_width, n.display_aspect_height),
        description: n.description,
        color_space: n.color_space,
        hardware_acceleration: preferred_of(n.hardware_acceleration),
        latency_optimized: n.optimize_for_latency == Some(true),
    }
}

/// The native record handed to the engine at configure time and to the
/// capability query.
pub struct NativeDecoderConfig {
    pub codec: String,
    pub coded_width: Option<u32>,
    pub coded_height: Option<u32>,
    pub display_aspect_width: Option<u32>,
    pub display_aspect_height: Option<u32>,
    pub description: Option<bytes::Bytes>,
    pub color_space: Option<VideoColorSpaceConfig>,
    pub hardware_acceleration: Option<HardwareAcceleration>,
    pub optimize_for_latency: Option<bool>,
}

impl View for NativeDecoderConfig {
    type V = NativeConfigModel;

    open spec fn view(&self) -> NativeConfigModel {
        NativeConfigModel {
            codec: self.codec@,
            coded_width: self.coded_width,
            coded_height: self.coded_height,
            display_aspect_width: self.display_aspect_width,
            display_aspect_height: self.display_aspect_height,
            description: content_of(self.description),
            color_space: self.color_space,
            hardware_acceleration: self.hardware_acceleration,
            optimize_for_latency: self.optimize_for_latency,
        }
    }
}

/// Codec parameters for a decoding session, built by chained setters. Only
/// the codec id is required; every other part is optional and, when unset,
/// left to the engine.
pub struct VideoDecoderConfig {
    codec: String,
    coded_dimensions: Option<(u32, u32)>,
    color_space: Option<VideoColorSpaceConfig>,
    display_dimensions: Option<(u32, u32)>,
    description: Option<bytes::Bytes>,
    hardware_acceleration: Option<bool>,
    latency_optimized: bool,
}

impl View for VideoDecoderConfig {
    type V = DecoderConfigModel;

    closed spec fn view(&self) -> DecoderConfigModel {
        DecoderConfigModel {
            codec: self.codec@,
            coded_dimensions: self.coded_dimensions,
            display_dimensions: self.display_dimensions,
            description: content_of(self.description),
            color_space: self.color_space,
            hardware_acceleration: self.hardware_acceleration,
            latency_optimized: self.latency_optimized,
        }
    }
}

impl VideoDecoderConfig {
    /// The codec id is never empty.
    pub open spec fn wf(&self) -> bool {
        self@.codec.len() > 0
    }

    /// A configuration for `codec` with nothing else set.
    pub fn new(codec: &str) -> (r: Self)
        requires
            codec@.len() > 0,
        ensures
            r.wf(),
            r@ == (DecoderConfigModel {
                codec: codec@,
                coded_dimensions: None,
                display_dimensions: None,
                description: None,
                color_space: None,
                hardware_acceleration: None,
                latency_optimized: false,
            }),
    {
        VideoDecoderConfig {
            codec: codec.to_owned(),
            coded_dimensions: None,
            color_space: None,
            display_dimensions: None,
            description: None,
            hardware_acceleration: None,
            latency_optimized: false,
        }
    }

    pub fn coded_dimensions(self, width: u32, height: u32) -> (r: Self)
        requires
            self.wf(),
        ensures
            r.wf(),
            r@ == (DecoderConfigModel { coded_dimensions: Some((width, height)), ..self@ }),
    {
        VideoDecoderConfig { coded_dimensions: Some((width, height)), ..self }
    }

    pub fn display_dimensions(self, width: u32, height: u32) -> (r: Self)
        requires
            self.wf(),
        ensures
            r.wf(),
            r@ == (DecoderConfigModel { display_dimensions: Some((width, height)), ..self@ }),
    {
        VideoDecoderConfig { display_dimensions: Some((width, height)), ..self }
    }

    /// Out-of-band initialization data for the codec.
    pub fn description(self, description: bytes::Bytes) -> (r: Self)
        requires
            self.wf(),
        ensures
            r.wf(),
            r@ == (DecoderConfigModel {
                description: Some(bytes_content(description)),
                ..self@
            }),
    {
        VideoDecoderConfig { description: Some(description), ..self }
    }

    pub fn color_space(self, color_space: VideoColorSpaceConfig) -> (r: Self)
        requires
            self.wf(),
        ensures
            r.wf(),
            r@ == (DecoderConfigModel { color_space: Some(color_space), ..self@ }),
    {
        VideoDecoderConfig { color_space: Some(color_space), ..self }
    }

    /// `true` prefers hardware, `false` prefers software; unset is no preference.
    pub fn hardware_acceleration(self, preferred: bool) -> (r: Self)
        requires
            self.wf(),
        ensures
            r.wf(),
            r@ == (DecoderConfigModel { hardware_acceleration: Some(preferred), ..self@ }),
    {
        VideoDecoderConfig { hardware_acceleration: Some(preferred), ..self }
    }

    pub fn latency_optimized(self) -> (r: Self)
        requires
            self.wf(),
        ensures
            r.wf(),
            r@ == (DecoderConfigModel { latency_optimized: true, ..self@ }),
    {
        VideoDecoderConfig { latency_optimized: true, ..self }
    }

    /// The engine's native record for this configuration. Unset parts are
    /// absent from it, so that the engine applies its own defaults.
    pub fn to_native(&self) -> (r: NativeDecoderConfig)
        ensures
            r@ == native_model(self@),
    {
        let (coded_width, coded_height) = match self.coded_dimensions {
            Some((w, h)) => (Some(w), Some(h)),
            None => (None, None),
        };
        let (display_aspect_width, display_aspect_height) = match self.display_dimensions {
            Some((w, h)) => (Some(w), Some(h)),
            None => (None, None),
        };
        let description = match &self.description {
            Some(b) => Some(clone_bytes(b)),
            None => None,
        };
        let hardware_acceleration = match self.hardware_acceleration {
            Some(true) => Some(HardwareAcceleration::PreferHardware),
            Some(false) => Some(HardwareAcceleration::PreferSoftware),
            None => None,
        };
        let optimize_for_latency = if self.latency_optimized {
            Some(true)
        } else {
            None
        };
        NativeDecoderConfig {
            codec: self.codec.clone(),
            coded_width,
            coded_height,
            display_aspect_width,
            display_aspect_height,
            description,
            color_space: self.color_space,
            hardware_acceleration,
            optimize_for_latency,
        }
    }
}

/// Translating a configuration to its native record and reading it back
/// gives the same configuration: every part that was set is kept, and every
/// part that was not set is absent from the record.
pub proof fn law_native_round_trip(c: DecoderConfigModel)
    ensures
        model_of_native(native_model(c)) == c,
        native_model(c).coded_width is None <==> c.coded_dimensions is None,
        native_model(c).coded_height is None <==> c.coded_dimensions is None,
        native_model(c).display_aspect_width is None <==> c.display_dimensions is None,
        native_model(c).display_aspect_height is None <==> c.display_dimensions is None,
        native_model(c).description is None <==> c.description is None,
        native_model(c).color_space is None <==> c.color_space is None,
        native_model(c).hardware_acceleration is None <==> c.hardware_acceleration is None,
        native_model(c).optimize_for_latency is None <==> !c.latency_optimized,
{
}

} // verus!

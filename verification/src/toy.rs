//! The descriptor of one "toy": the shader entry-function source and the
//! channel configuration that the render thread binds for it.

use vstd::prelude::*;

pub mod config_text;
pub mod shader;

verus! {

/// Sampling filter applied to a channel texture.
#[derive(Clone, Copy, PartialEq, Eq, Structural, Debug)]
pub enum TextureFilter {
    Nearest,
    Linear,
    Mipmap,
}

/// Wrapping mode applied to a channel texture.
#[derive(Clone, Copy, PartialEq, Eq, Structural, Debug)]
pub enum TextureWrap {
    Repeat,
    Clamp,
}

/// Names of the built-in channel assets.
#[derive(Clone, Copy, PartialEq, Eq, Structural, Debug)]
pub enum BuiltinName {
    RgbaNoiseSmall,
}

/// Channel configuration (how the channel's bitmap is sampled).
#[derive(Clone, Copy, PartialEq, Eq, Structural, Debug)]
pub enum ChannelConfig {
    Texture { vflip: bool, filter: TextureFilter, wrap: TextureWrap },
}

impl ChannelConfig {
    /// The configuration a channel gets when its definition gives none.
    pub fn from_empty() -> (c: Self)
        ensures
            c == (ChannelConfig::Texture {
                vflip: true,
                filter: TextureFilter::Linear,
                wrap: TextureWrap::Repeat,
            }),
    {
        ChannelConfig::Texture { vflip: true, filter: TextureFilter::Linear, wrap: TextureWrap::Repeat }
    }
}

/// Where a channel's bitmap comes from: the built-in catalogue, or a file
/// beside the watched directory.
#[derive(Clone, Debug)]
pub enum ChannelSource {
    /// A built-in channel.
    Builtin { name: BuiltinName },
    /// Local data.
    FromDisk { path: String },
}

/// Mathematical model of a channel source: the path as a character sequence.
pub enum SourceModel {
    Builtin { name: BuiltinName },
    FromDisk { path: Seq<char> },
}

impl View for ChannelSource {
    type V = SourceModel;

    open spec fn view(&self) -> SourceModel {
        match self {
            ChannelSource::Builtin { name } => SourceModel::Builtin { name: *name },
            ChannelSource::FromDisk { path } => SourceModel::FromDisk { path: path@ },
        }
    }
}

/// Channel definition: one texture input available to the shader.
#[derive(Clone, Debug)]
pub struct Channel {
    pub source: ChannelSource,
    /// Configuration for the channel.
    pub config: ChannelConfig,
}

/// Mathematical model of a channel.
pub struct ChannelModel {
    pub source: SourceModel,
    pub config: ChannelConfig,
}

impl View for Channel {
    type V = ChannelModel;

    open spec fn view(&self) -> ChannelModel {
        ChannelModel { source: self.source@, config: self.config }
    }
}

/// The raw RGBA8 bytes a built-in name stands for.
pub open spec fn spec_builtin_bytes(name: BuiltinName) -> Seq<u8> {
    match name {
        BuiltinName::RgbaNoiseSmall => crate::assets::spec_noise_bytes(),
    }
}

impl Channel {
    /// The raw RGBA8 bitmap bytes of a built-in channel, from the
    /// catalogue. Bitmaps configured from disk are read and decoded by the
    /// host, not here.
    pub fn get_bytes(&self) -> (r: Vec<u8>)
        requires
            self@.source is Builtin,
        ensures
            r@ == spec_builtin_bytes(self@.source->Builtin_name),
    {
        match &self.source {
            ChannelSource::Builtin { name } => match name {
                BuiltinName::RgbaNoiseSmall => crate::assets::rgba_noise_small(),
            },
            ChannelSource::FromDisk { .. } => {
                proof {
                    assert(false);
                }
                Vec::new()
            },
        }
    }
}

/// The channel configuration of one toy, in declaration order.
#[derive(Clone, Debug)]
pub struct Config {
    /// Channels defined for this toy.
    pub channels: Vec<Channel>,
}

impl View for Config {
    type V = Seq<ChannelModel>;

    open spec fn view(&self) -> Seq<ChannelModel> {
        self.channels@.map_values(|c: Channel| c@)
    }
}

impl Default for Config {
    /// A configuration with no channels.
    fn default() -> (c: Config)
        ensures
            c@ =~= Seq::<ChannelModel>::empty(),
    {
        Config { channels: Vec::new() }
    }
}

/// The definition of a shader toy.
#[derive(Clone, Debug)]
pub struct Toy {
    /// Main image definition: the shader entry-function source, verbatim.
    pub main_image: String,
    /// Configuration.
    pub config: Config,
}

/// Mathematical model of a toy descriptor.
pub struct ToyModel {
    pub main_image: Seq<char>,
    pub channels: Seq<ChannelModel>,
}

impl View for Toy {
    type V = ToyModel;

    open spec fn view(&self) -> ToyModel {
        ToyModel { main_image: self.main_image@, channels: self.config@ }
    }
}

impl Default for Toy {
    /// The default toy: the built-in entry shader and no channels.
    fn default() -> (t: Toy)
        ensures
            t@.main_image == shader::MAIN_IMAGE@,
            t@.channels =~= Seq::<ChannelModel>::empty(),
    {
        Toy { main_image: String::from_str(shader::MAIN_IMAGE), config: Config::default() }
    }
}

impl Toy {
    /// The composed fragment program for this toy: the fixed preamble with
    /// one sampler binding per configured channel, the entry function
    /// verbatim, and the fixed trailer that invokes it.
    pub fn fragment_shader(&self) -> (r: String)
        ensures
            r@ == shader::spec_fragment_source(self@.main_image, self@.channels.len()),
    {
        shader::build_fragment_shader(self.main_image.as_str(), self.config.channels.len())
    }

    /// Assemble a toy from what the host read on startup: the entry file's
    /// contents if it was readable, and the configuration file's text if
    /// that was. A missing part, or a configuration that does not parse,
    /// falls back to the built-in default.
    pub fn from_parts(main_image: Option<String>, config_source: Option<&str>) -> (t: Toy)
        ensures
            t@.main_image == match main_image {
                Some(m) => m@,
                None => shader::MAIN_IMAGE@,
            },
            t@.channels == match config_source {
                Some(cs) => match config_text::spec_parse_channels(cs@) {
                    Some(m) => m,
                    None => Seq::<ChannelModel>::empty(),
                },
                None => Seq::<ChannelModel>::empty(),
            },
    {
        let mi = match main_image {
            Some(m) => m,
            None => String::from_str(shader::MAIN_IMAGE),
        };
        let config = match config_source {
            Some(cs) => match config_text::parse_config(cs) {
                Ok(c) => c,
                Err(e) => Config::default(),
            },
            None => Config::default(),
        };
        Toy { main_image: mi, config }
    }

    /// The canonical configuration text for this toy's channels, as the
    /// host writes it beside the entry file.
    pub fn config_text(&self) -> (r: String)
        ensures
            r@ == config_text::spec_render_channels(self@.channels),
    {
        config_text::render_config(&self.config)
    }
}

/// Whether scaffolding may write a file: only a missing file is written,
/// unless an explicit overwrite was requested.
pub fn should_write(present: bool, overwrite: bool) -> (r: bool)
    ensures
        r == (!present || overwrite),
{
    !present || overwrite
}

} // verus!

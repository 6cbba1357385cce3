use toywatch::toy::config_text::{parse_config, render_config};
use toywatch::toy::shader;
use toywatch::toy::{
    BuiltinName, Channel, ChannelConfig, ChannelSource, Config, TextureFilter, TextureWrap, Toy,
};

fn builtin_channel() -> Channel {
    Channel {
        source: ChannelSource::Builtin { name: BuiltinName::RgbaNoiseSmall },
        config: ChannelConfig::from_empty(),
    }
}

#[test]
fn create_frag_shader() {
    let toy = Toy::default();
    let frag = toy.fragment_shader();
    assert!(frag.contains(shader::MAIN_IMAGE));
}

#[test]
fn default_toy_has_no_channels() {
    let toy = Toy::default();
    assert_eq!(toy.main_image, shader::MAIN_IMAGE);
    assert_eq!(toy.config.channels.len(), 0);
}

#[test]
fn descriptor_round_trip_builtin() {
    let mut toy = Toy::default();
    toy.main_image = "X".to_string();
    toy.config.channels = vec![builtin_channel()];

    let config_text = toy.config_text();
    let back = Toy::from_parts(Some(toy.main_image.clone()), Some(config_text.as_str()));

    assert_eq!(back.main_image, "X");
    assert_eq!(back.config.channels.len(), 1);
    let ch = &back.config.channels[0];
    assert!(matches!(
        ch.source,
        ChannelSource::Builtin { name: BuiltinName::RgbaNoiseSmall }
    ));
    assert_eq!(ch.config, ChannelConfig::from_empty());
}

#[test]
fn config_round_trip_all_settings() {
    let mut channels = Vec::new();
    for (vflip, filter, wrap) in [
        (false, TextureFilter::Nearest, TextureWrap::Clamp),
        (true, TextureFilter::Mipmap, TextureWrap::Repeat),
        (true, TextureFilter::Linear, TextureWrap::Clamp),
    ] {
        channels.push(Channel {
            source: ChannelSource::FromDisk { path: "textures/wood.png".to_string() },
            config: ChannelConfig::Texture { vflip, filter, wrap },
        });
    }
    let config = Config { channels };
    let text = render_config(&config);
    let back = parse_config(text.as_str()).expect("canonical text parses");

    assert_eq!(back.channels.len(), 3);
    for (ch, orig) in back.channels.iter().zip(config.channels.iter()) {
        match (&ch.source, &orig.source) {
            (ChannelSource::FromDisk { path }, ChannelSource::FromDisk { path: p0 }) => {
                assert_eq!(path, p0);
            },
            _ => panic!("source kind changed in round trip"),
        }
        assert_eq!(ch.config, orig.config);
    }
}

#[test]
fn config_text_is_canonical() {
    let config = Config { channels: vec![builtin_channel()] };
    let text = render_config(&config);
    assert_eq!(
        text,
        "[[channels]]\nsource = \"builtin:rgba_noise_small\"\nconfig = { vflip = true, filter = \"linear\", wrap = \"repeat\" }\n"
    );
}

#[test]
fn malformed_config_is_an_error() {
    assert!(parse_config("foobarbaz").is_err());
    assert!(parse_config("[[channels]]").is_err());
    assert!(parse_config("[[channels]]\nsource = \"builtin:unknown\"\nconfig = { vflip = true, filter = \"linear\", wrap = \"repeat\" }\n").is_err());
}

#[test]
fn empty_config_is_no_channels() {
    let config = parse_config("").expect("empty text is the empty configuration");
    assert_eq!(config.channels.len(), 0);
}

#[test]
fn from_parts_falls_back_to_defaults() {
    let toy = Toy::from_parts(None, None);
    assert_eq!(toy.main_image, shader::MAIN_IMAGE);
    assert_eq!(toy.config.channels.len(), 0);

    let toy = Toy::from_parts(Some("test".to_string()), Some("foobarbaz"));
    assert_eq!(toy.main_image, "test");
    assert_eq!(toy.config.channels.len(), 0);
}

#[test]
fn fragment_shader_declares_one_sampler_per_channel() {
    let mut toy = Toy::default();
    toy.config.channels = vec![builtin_channel(), builtin_channel()];
    let frag = toy.fragment_shader();
    assert!(frag.contains("uniform sampler2D iChannel0;"));
    assert!(frag.contains("uniform sampler2D iChannel1;"));
    assert!(!frag.contains("uniform sampler2D iChannel2;"));
    assert!(frag.contains("void main() {\n    mainImage(outColor, gl_FragCoord.xy);\n}"));
}

#[test]
fn channel_uniform_names_count_in_decimal() {
    assert_eq!(shader::channel_uniform_name(0), "iChannel0");
    assert_eq!(shader::channel_uniform_name(3), "iChannel3");
    assert_eq!(shader::channel_uniform_name(12), "iChannel12");
}

#[test]
fn uniform_names_in_declaration_order() {
    let names = shader::uniform_names();
    assert_eq!(
        names,
        vec!["iResolution", "iMouse", "iTime", "iTimeDelta", "iFrame", "iFrameRate"]
    );
}

#[test]
fn should_write_only_missing_unless_overwrite() {
    assert!(toywatch::toy::should_write(false, false));
    assert!(toywatch::toy::should_write(false, true));
    assert!(!toywatch::toy::should_write(true, false));
    assert!(toywatch::toy::should_write(true, true));
}

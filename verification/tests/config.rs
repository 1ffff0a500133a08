use chipgame::play::state::MusicId;
use chipgame::config::{Config, TextureFilter, TextureWrap, TransformType};

const SAMPLE: &str = "PixelArtBias=0.25
[SoundFx]
CursorMove=sfx/move.wav
[Music]
MenuMusic=music/menu.ogg
[Shader.Sprite]
VertexShader=sprite.vs
FragmentShader=sprite.fs
[Texture.Tiles]
Path=tiles.png
Transform=Gutter32x32
Filter=Nearest
Wrap=ClampEdge
[Font.Main]
Atlas=font.png
Meta=font.json
Shader=text
[Unknown]
Path=ignored.png
[Shader.Sprite]
VertexShader=sprite2.vs
";

#[test]
fn parse_reads_every_section() {
    let c = Config::parse(SAMPLE);
    assert_eq!(c.pixel_art_bias, vec![String::from("0.25")]);
    assert_eq!(c.sound_fx, vec![(String::from("CursorMove"), String::from("sfx/move.wav"))]);
    assert_eq!(c.music, vec![(String::from("MenuMusic"), String::from("music/menu.ogg"))]);
    assert_eq!(c.shaders.len(), 1);
    assert_eq!(c.shaders[0].0, "Sprite");
    assert_eq!(c.shaders[0].1.vertex_shader, "sprite2.vs");
    assert_eq!(c.shaders[0].1.fragment_shader, "sprite.fs");
    assert_eq!(c.textures.len(), 1);
    let t = &c.textures[0].1;
    assert_eq!(c.textures[0].0, "Tiles");
    assert_eq!(t.path, "tiles.png");
    assert_eq!(t.transform, Some(TransformType::Gutter32x32));
    assert_eq!(t.props.filter_min, TextureFilter::Nearest);
    assert_eq!(t.props.filter_mag, TextureFilter::Nearest);
    assert_eq!(t.props.wrap_u, TextureWrap::ClampEdge);
    assert_eq!(t.props.wrap_v, TextureWrap::ClampEdge);
    assert_eq!(c.fonts.len(), 1);
    assert_eq!(c.fonts[0].1.atlas, "font.png");
    assert_eq!(c.fonts[0].1.meta, "font.json");
    assert_eq!(c.fonts[0].1.shader, "text");
}

#[test]
fn texture_defaults_to_linear_repeat() {
    let c = Config::parse("[Texture.T]\nPath=a.png\nTransform=Other\n");
    let t = &c.textures[0].1;
    assert_eq!(t.transform, None);
    assert_eq!(t.props.filter_min, TextureFilter::Linear);
    assert_eq!(t.props.wrap_u, TextureWrap::Repeat);
}

#[test]
fn empty_document_gives_empty_config() {
    let c = Config::parse("");
    assert!(c.pixel_art_bias.is_empty());
    assert!(c.sound_fx.is_empty() && c.music.is_empty());
    assert!(c.shaders.is_empty() && c.textures.is_empty() && c.fonts.is_empty());
}

#[test]
fn properties_without_value_and_unknown_sections_are_ignored() {
    let c = Config::parse("[Bogus]\nPixelArtBias=9\n[Music]\nNoValue\n");
    assert!(c.pixel_art_bias.is_empty());
    assert!(c.music.is_empty());
}

#[test]
fn unknown_filter_is_refused() {
    assert!(Config::try_parse("[Texture.T]\nFilter=Blurry\n").is_none());
    assert!(Config::try_parse("[Texture.T]\nWrap=Around\n").is_none());
    assert!(Config::try_parse("[Texture.T]\nWrap=Mirror\n").is_some());
    // Only texture sections know these keys.
    assert!(Config::try_parse("[Shader.S]\nFilter=Blurry\n").is_some());
}

#[test]
fn later_sound_and_music_files_replace_earlier_ones() {
    let c = Config::parse("[SoundFx]\nCursorMove=a.wav\nGameWin=win.wav\n[Music]\nMenuMusic=m1.ogg\n[SoundFx]\nCursorMove=b.wav\n[Music]\nMenuMusic=m2.ogg\nGameMusic=g.ogg\n");
    assert_eq!(
        c.sound_fx,
        vec![(String::from("CursorMove"), String::from("b.wav")), (String::from("GameWin"), String::from("win.wav"))]
    );
    assert_eq!(
        c.music,
        vec![(String::from("MenuMusic"), String::from("m2.ogg")), (String::from("GameMusic"), String::from("g.ogg"))]
    );
}

#[test]
fn music_keys_that_name_no_piece_are_dropped() {
    let c = Config::parse("[Music]\nIntro=intro.ogg\nGameMusic=g1.ogg\nMenuMusic=m.ogg\nGameMusic=g2.ogg\n");
    assert_eq!(
        c.music_files(),
        vec![(MusicId::GameMusic, String::from("g2.ogg")), (MusicId::MenuMusic, String::from("m.ogg"))]
    );
}

//! Configuration parsing.
//!
//! The configuration is an ini document: a `[General]` part before any
//! section header, `[SoundFx]`, `[Music]`, and named `[Shader.*]`,
//! `[Texture.*]` and `[Font.*]` sections. The ini syntax itself is read by
//! `ini_core`; this module gives the items their meaning.

use vstd::prelude::*;
use vstd::string::*;
use crate::play::state::MusicId;

verus! {

/// One element of an ini document, as `ini_core` reads it.
pub enum IniItem {
    /// A malformed section header line.
    Error(String),
    /// A section header, with the name between the brackets.
    Section(String),
    /// The end of a section: before each section header and at the end.
    SectionEnd,
    /// A `key=value` line, or a bare `key` line with no value.
    Property(String, Option<String>),
    /// A comment line, without its comment character.
    Comment(String),
    /// A blank line.
    Blank,
}

/// An ini element with its text as character sequences.
pub enum IniItemView {
    Error(Seq<char>),
    Section(Seq<char>),
    SectionEnd,
    Property(Seq<char>, Option<Seq<char>>),
    Comment(Seq<char>),
    Blank,
}

impl View for IniItem {
    type V = IniItemView;

    open spec fn view(&self) -> IniItemView {
        match self {
            IniItem::Error(s) => IniItemView::Error(s@),
            IniItem::Section(s) => IniItemView::Section(s@),
            IniItem::SectionEnd => IniItemView::SectionEnd,
            IniItem::Property(k, v) => IniItemView::Property(
                k@,
                match v {
                    Some(v) => Some(v@),
                    None => None,
                },
            ),
            IniItem::Comment(s) => IniItemView::Comment(s@),
            IniItem::Blank => IniItemView::Blank,
        }
    }
}

/// The views of a list of ini elements.
pub open spec fn items_view(items: Seq<IniItem>) -> Seq<IniItemView> {
    items.map_values(|item: IniItem| item@)
}

/// The elements `ini_core`'s parser reads from a document, in order.
pub uninterp spec fn ini_items(text: Seq<char>) -> Seq<IniItemView>;

/// Reads an ini document with `ini_core::Parser`, element by element.
///
/// Trusted: the result is `ini_items` of the text; what the parser reads
/// (section headers, `key=value` lines, comments, blank lines, the section
/// ends it inserts) is left to `ini_core` and not stated here.
#[verifier::external_body]
fn read_ini(text: &str) -> (r: Vec<IniItem>)
    ensures
        items_view(r@) == ini_items(text@),
{
    let mut items = Vec::new();
    for item in ini_core::Parser::new(text) {
        items.push(match item {
            ini_core::Item::Error(s) => IniItem::Error(s.to_string()),
            ini_core::Item::Section(s) => IniItem::Section(s.to_string()),
            ini_core::Item::SectionEnd => IniItem::SectionEnd,
            ini_core::Item::Property(k, v) => IniItem::Property(k.to_string(), v.map(|v| v.to_string())),
            ini_core::Item::Comment(s) => IniItem::Comment(s.to_string()),
            ini_core::Item::Blank => IniItem::Blank,
        });
    }
    items
}

/// The shaders of a named shader program.
pub struct ShaderConfig {
    pub vertex_shader: String,
    pub fragment_shader: String,
}

/// How a texture image is rearranged after loading.
#[derive(Copy, Clone, Debug, PartialEq, Eq, Structural)]
pub enum TransformType {
    Gutter32x32,
}

/// Texture sampling filter.
#[derive(Copy, Clone, Debug, PartialEq, Eq, Structural)]
pub enum TextureFilter {
    Nearest,
    Linear,
}

/// Texture coordinate wrapping.
#[derive(Copy, Clone, Debug, PartialEq, Eq, Structural)]
pub enum TextureWrap {
    ClampEdge,
    ClampBorder,
    Repeat,
    Mirror,
}

/// Sampling settings of a texture.
#[derive(Copy, Clone, Debug, PartialEq, Eq, Structural)]
pub struct TextureProps {
    pub filter_min: TextureFilter,
    pub filter_mag: TextureFilter,
    pub wrap_u: TextureWrap,
    pub wrap_v: TextureWrap,
}

/// A named texture: the image file, its transform and sampling settings.
pub struct TextureConfig {
    pub path: String,
    pub transform: Option<TransformType>,
    pub props: TextureProps,
}

/// A named font: its atlas image, its metadata file and its shader.
pub struct FontConfig {
    pub atlas: String,
    pub meta: String,
    pub shader: String,
}

/// The configuration as read from the document.
///
/// The pixel art bias is a number; every `PixelArtBias` value of the
/// general part is kept as written, in order, and the last one that reads
/// as a number applies (0.5 if none does). Sound effects and music are
/// kept as `(name, file)` pairs, one per name: a later file for a name
/// replaces the earlier one, in the place the name first got. Which names
/// stand for a sound or a piece of music is for the player of the sounds
/// to decide. Shaders, textures and fonts are kept by name,
/// each name once, in the order the names first got a property.
pub struct Config {
    pub pixel_art_bias: Vec<String>,
    pub sound_fx: Vec<(String, String)>,
    pub music: Vec<(String, String)>,
    pub shaders: Vec<(String, ShaderConfig)>,
    pub textures: Vec<(String, TextureConfig)>,
    pub fonts: Vec<(String, FontConfig)>,
}

pub struct ShaderView {
    pub vertex_shader: Seq<char>,
    pub fragment_shader: Seq<char>,
}

pub struct TextureView {
    pub path: Seq<char>,
    pub transform: Option<TransformType>,
    pub props: TextureProps,
}

pub struct FontView {
    pub atlas: Seq<char>,
    pub meta: Seq<char>,
    pub shader: Seq<char>,
}

#[verifier::ext_equal]
pub struct ConfigView {
    pub pixel_art_bias: Seq<Seq<char>>,
    pub sound_fx: Seq<(Seq<char>, Seq<char>)>,
    pub music: Seq<(Seq<char>, Seq<char>)>,
    pub shaders: Seq<(Seq<char>, ShaderView)>,
    pub textures: Seq<(Seq<char>, TextureView)>,
    pub fonts: Seq<(Seq<char>, FontView)>,
}

impl View for ShaderConfig {
    type V = ShaderView;

    open spec fn view(&self) -> ShaderView {
        ShaderView { vertex_shader: self.vertex_shader@, fragment_shader: self.fragment_shader@ }
    }
}

impl View for TextureConfig {
    type V = TextureView;

    open spec fn view(&self) -> TextureView {
        TextureView { path: self.path@, transform: self.transform, props: self.props }
    }
}

impl View for FontConfig {
    type V = FontView;

    open spec fn view(&self) -> FontView {
        FontView { atlas: self.atlas@, meta: self.meta@, shader: self.shader@ }
    }
}

/// The views of a list of named entries.
pub open spec fn named_view<T: View>(v: Seq<(String, T)>) -> Seq<(Seq<char>, T::V)> {
    v.map_values(|p: (String, T)| (p.0@, p.1@))
}

impl View for Config {
    type V = ConfigView;

    open spec fn view(&self) -> ConfigView {
        ConfigView {
            pixel_art_bias: self.pixel_art_bias@.map_values(|s: String| s@),
            sound_fx: named_view(self.sound_fx@),
            music: named_view(self.music@),
            shaders: named_view(self.shaders@),
            textures: named_view(self.textures@),
            fonts: named_view(self.fonts@),
        }
    }
}

/// An empty shader entry.
pub open spec fn default_shader() -> ShaderView {
    ShaderView { vertex_shader: Seq::empty(), fragment_shader: Seq::empty() }
}

/// The sampling settings of a texture that sets none: linear filtering,
/// repeating.
pub open spec fn default_props() -> TextureProps {
    TextureProps {
        filter_min: TextureFilter::Linear,
        filter_mag: TextureFilter::Linear,
        wrap_u: TextureWrap::Repeat,
        wrap_v: TextureWrap::Repeat,
    }
}

/// A texture entry that sets nothing.
pub open spec fn default_texture() -> TextureView {
    TextureView { path: Seq::empty(), transform: None, props: default_props() }
}

/// An empty font entry.
pub open spec fn default_font() -> FontView {
    FontView { atlas: Seq::empty(), meta: Seq::empty(), shader: Seq::empty() }
}

impl ShaderConfig {
    /// An empty shader entry.
    pub fn default() -> (r: ShaderConfig)
        ensures
            r@ == default_shader(),
    {
        ShaderConfig { vertex_shader: String::new(), fragment_shader: String::new() }
    }
}

impl TextureConfig {
    /// A texture entry that sets nothing.
    pub fn default() -> (r: TextureConfig)
        ensures
            r@ == default_texture(),
    {
        TextureConfig {
            path: String::new(),
            transform: None,
            props: TextureProps {
                filter_min: TextureFilter::Linear,
                filter_mag: TextureFilter::Linear,
                wrap_u: TextureWrap::Repeat,
                wrap_v: TextureWrap::Repeat,
            },
        }
    }
}

impl FontConfig {
    /// An empty font entry.
    pub fn default() -> (r: FontConfig)
        ensures
            r@ == default_font(),
    {
        FontConfig { atlas: String::new(), meta: String::new(), shader: String::new() }
    }
}

/// The section a property belongs to.
pub enum SectionView {
    /// An unknown section; its properties are ignored.
    Error,
    /// The part before the first section header.
    General,
    SoundFx,
    Music,
    Shader(Seq<char>),
    Texture(Seq<char>),
    Font(Seq<char>),
}

/// `s` starts with `p`.
pub open spec fn has_prefix(s: Seq<char>, p: Seq<char>) -> bool {
    p.len() <= s.len() && s.subrange(0, p.len() as int) == p
}

/// The section a header names: `SoundFx`, `Music`, or `Shader.`, `Texture.`
/// or `Font.` followed by the entry's name; any other name is unknown.
pub open spec fn section_of(name: Seq<char>) -> SectionView {
    if name == "SoundFx"@ {
        SectionView::SoundFx
    } else if name == "Music"@ {
        SectionView::Music
    } else if has_prefix(name, "Shader."@) {
        SectionView::Shader(name.skip("Shader."@.len() as int))
    } else if has_prefix(name, "Texture."@) {
        SectionView::Texture(name.skip("Texture."@.len() as int))
    } else if has_prefix(name, "Font."@) {
        SectionView::Font(name.skip("Font."@.len() as int))
    } else {
        SectionView::Error
    }
}

/// Index of the first entry named `name`.
pub open spec fn is_first_named<V>(entries: Seq<(Seq<char>, V)>, name: Seq<char>, i: int) -> bool {
    &&& 0 <= i < entries.len()
    &&& entries[i].0 == name
    &&& forall|j: int| 0 <= j < i ==> entries[j].0 != name
}

/// The entries after changing the one named `name` by `g`; if there is no
/// such entry, `fresh` changed by `g` is added at the end under that name.
pub open spec fn upsert<V>(
    entries: Seq<(Seq<char>, V)>,
    name: Seq<char>,
    fresh: V,
    g: spec_fn(V) -> V,
) -> Seq<(Seq<char>, V)> {
    if exists|i: int| is_first_named(entries, name, i) {
        let i = choose|i: int| is_first_named(entries, name, i);
        entries.update(i, (name, g(entries[i].1)))
    } else {
        entries.push((name, g(fresh)))
    }
}

/// A sound or music entry's file becomes `value`.
pub open spec fn file_set(value: Seq<char>) -> spec_fn(Seq<char>) -> Seq<char> {
    |f: Seq<char>| value
}

/// What a property of a shader section sets.
pub open spec fn shader_set(key: Seq<char>, value: Seq<char>) -> spec_fn(ShaderView) -> ShaderView {
    |s: ShaderView|
        if key == "VertexShader"@ {
            ShaderView { vertex_shader: value, ..s }
        } else if key == "FragmentShader"@ {
            ShaderView { fragment_shader: value, ..s }
        } else {
            s
        }
}

/// The filter a `Filter` value names, if any.
pub open spec fn filter_of(value: Seq<char>) -> Option<TextureFilter> {
    if value == "Nearest"@ {
        Some(TextureFilter::Nearest)
    } else if value == "Linear"@ {
        Some(TextureFilter::Linear)
    } else {
        None
    }
}

/// The wrapping a `Wrap` value names, if any.
pub open spec fn wrap_of(value: Seq<char>) -> Option<TextureWrap> {
    if value == "ClampEdge"@ {
        Some(TextureWrap::ClampEdge)
    } else if value == "ClampBorder"@ {
        Some(TextureWrap::ClampBorder)
    } else if value == "Repeat"@ {
        Some(TextureWrap::Repeat)
    } else if value == "Mirror"@ {
        Some(TextureWrap::Mirror)
    } else {
        None
    }
}

/// The name of a wrap mode as written in the document.
pub open spec fn wrap_name(w: TextureWrap) -> Seq<char> {
    match w {
        TextureWrap::ClampEdge => "ClampEdge"@,
        TextureWrap::ClampBorder => "ClampBorder"@,
        TextureWrap::Repeat => "Repeat"@,
        TextureWrap::Mirror => "Mirror"@,
    }
}

/// The name of a filter as written in the document.
pub open spec fn filter_name(f: TextureFilter) -> Seq<char> {
    match f {
        TextureFilter::Nearest => "Nearest"@,
        TextureFilter::Linear => "Linear"@,
    }
}

/// A `Wrap` or `Filter` value that names a mode gives the mode of that
/// name: `Wrap` sets both wrap directions to it, `Filter` both filters, and
/// nothing else of the texture changes.
pub proof fn law_modes_by_name(w: TextureWrap, f: TextureFilter, t: TextureView)
    ensures
        wrap_of(wrap_name(w)) == Some(w),
        filter_of(filter_name(f)) == Some(f),
        (texture_set("Wrap"@, wrap_name(w)))(t) == (TextureView {
            props: TextureProps { wrap_u: w, wrap_v: w, ..t.props },
            ..t
        }),
        (texture_set("Filter"@, filter_name(f)))(t) == (TextureView {
            props: TextureProps { filter_min: f, filter_mag: f, ..t.props },
            ..t
        }),
{
    reveal_strlit("ClampEdge");
    reveal_strlit("ClampBorder");
    reveal_strlit("Repeat");
    reveal_strlit("Mirror");
    reveal_strlit("Nearest");
    reveal_strlit("Linear");
    assert("ClampEdge"@.len() == 9 && "ClampBorder"@.len() == 11);
    assert("Repeat"@.len() == 6 && "Mirror"@.len() == 6 && "Repeat"@[0] != "Mirror"@[0]);
    assert("Nearest"@.len() == 7 && "Linear"@.len() == 6);
    assert("ClampBorder"@ != "ClampEdge"@);
    assert("Repeat"@ != "ClampEdge"@ && "Repeat"@ != "ClampBorder"@);
    assert("Mirror"@ != "ClampEdge"@ && "Mirror"@ != "ClampBorder"@ && "Mirror"@ != "Repeat"@);
    assert("Linear"@ != "Nearest"@);
    reveal_strlit("Wrap");
    reveal_strlit("Filter");
    reveal_strlit("Path");
    reveal_strlit("Transform");
    assert("Wrap"@.len() == 4 && "Path"@.len() == 4 && "Wrap"@[0] != "Path"@[0]);
    assert("Filter"@.len() == 6 && "Transform"@.len() == 9);
    assert("Wrap"@ != "Path"@ && "Wrap"@ != "Transform"@ && "Wrap"@ != "Filter"@);
    assert("Filter"@ != "Path"@ && "Filter"@ != "Transform"@);
}

/// What a property of a texture section sets. `Filter` sets both filters
/// and `Wrap` both wrap modes; a `Transform` other than `Gutter32x32`
/// clears the transform.
pub open spec fn texture_set(key: Seq<char>, value: Seq<char>) -> spec_fn(TextureView) -> TextureView {
    |t: TextureView|
        if key == "Path"@ {
            TextureView { path: value, ..t }
        } else if key == "Transform"@ {
            TextureView {
                transform: if value == "Gutter32x32"@ { Some(TransformType::Gutter32x32) } else { None },
                ..t
            }
        } else if key == "Filter"@ {
            match filter_of(value) {
                Some(f) => TextureView { props: TextureProps { filter_min: f, filter_mag: f, ..t.props }, ..t },
                None => t,
            }
        } else if key == "Wrap"@ {
            match wrap_of(value) {
                Some(w) => TextureView { props: TextureProps { wrap_u: w, wrap_v: w, ..t.props }, ..t },
                None => t,
            }
        } else {
            t
        }
}

/// What a property of a font section sets.
pub open spec fn font_set(key: Seq<char>, value: Seq<char>) -> spec_fn(FontView) -> FontView {
    |f: FontView|
        if key == "Atlas"@ {
            FontView { atlas: value, ..f }
        } else if key == "Meta"@ {
            FontView { meta: value, ..f }
        } else if key == "Shader"@ {
            FontView { shader: value, ..f }
        } else {
            f
        }
}

/// A property is acceptable unless it is a texture's `Filter` or `Wrap`
/// with a value that names no mode.
pub open spec fn property_ok(section: SectionView, key: Seq<char>, value: Seq<char>) -> bool {
    match section {
        SectionView::Texture(_) => {
            &&& (key == "Filter"@ ==> filter_of(value) is Some)
            &&& (key == "Wrap"@ ==> wrap_of(value) is Some)
        },
        _ => true,
    }
}

/// The configuration after a `key=value` property in `section`.
pub open spec fn apply_property(section: SectionView, c: ConfigView, key: Seq<char>, value: Seq<char>) -> ConfigView {
    match section {
        SectionView::Error => c,
        SectionView::General => if key == "PixelArtBias"@ {
            ConfigView { pixel_art_bias: c.pixel_art_bias.push(value), ..c }
        } else {
            c
        },
        SectionView::SoundFx => ConfigView {
            sound_fx: upsert(c.sound_fx, key, Seq::empty(), file_set(value)),
            ..c
        },
        SectionView::Music => ConfigView { music: upsert(c.music, key, Seq::empty(), file_set(value)), ..c },
        SectionView::Shader(name) => ConfigView {
            shaders: upsert(c.shaders, name, default_shader(), shader_set(key, value)),
            ..c
        },
        SectionView::Texture(name) => ConfigView {
            textures: upsert(c.textures, name, default_texture(), texture_set(key, value)),
            ..c
        },
        SectionView::Font(name) => ConfigView {
            fonts: upsert(c.fonts, name, default_font(), font_set(key, value)),
            ..c
        },
    }
}

/// The reading of a document so far: the current section, the
/// configuration, and whether every property so far was acceptable.
pub struct ParseView {
    pub section: SectionView,
    pub config: ConfigView,
    pub ok: bool,
}

/// The configuration of a document with nothing in it.
pub open spec fn empty_config() -> ConfigView {
    ConfigView {
        pixel_art_bias: Seq::empty(),
        sound_fx: Seq::empty(),
        music: Seq::empty(),
        shaders: Seq::empty(),
        textures: Seq::empty(),
        fonts: Seq::empty(),
    }
}

/// The reading after one more element. A section header switches the
/// section, a property with a value applies to the current section, all
/// else is ignored; after an unacceptable property nothing changes any more.
pub open spec fn parse_step(st: ParseView, item: IniItemView) -> ParseView {
    if !st.ok {
        st
    } else {
        match item {
            IniItemView::Property(key, Some(value)) => if property_ok(st.section, key, value) {
                ParseView { config: apply_property(st.section, st.config, key, value), ..st }
            } else {
                ParseView { ok: false, ..st }
            },
            IniItemView::Section(name) => ParseView { section: section_of(name), ..st },
            _ => st,
        }
    }
}

/// The reading of a list of elements, from the general part on.
pub open spec fn parse_state(items: Seq<IniItemView>) -> ParseView
    decreases items.len(),
{
    if items.len() == 0 {
        ParseView { section: SectionView::General, config: empty_config(), ok: true }
    } else {
        parse_step(parse_state(items.drop_last()), items.last())
    }
}

/// The configuration a list of elements gives.
pub open spec fn config_of(items: Seq<IniItemView>) -> ConfigView {
    parse_state(items).config
}

/// Every property of the list is acceptable.
pub open spec fn items_ok(items: Seq<IniItemView>) -> bool {
    parse_state(items).ok
}

/// Once a property was unacceptable, further elements change nothing.
proof fn lemma_parse_stuck(items: Seq<IniItemView>, j: int, k: int)
    requires
        0 <= j <= k <= items.len(),
        !parse_state(items.take(j)).ok,
    ensures
        parse_state(items.take(k)) == parse_state(items.take(j)),
    decreases k - j,
{
    if k > j {
        lemma_parse_stuck(items, j, k - 1);
        assert(items.take(k).drop_last() =~= items.take(k - 1));
    }
}

/// The section a property belongs to.
enum Section {
    Error,
    General,
    SoundFx,
    Music,
    Shader(String),
    Texture(String),
    Font(String),
}

impl View for Section {
    type V = SectionView;

    closed spec fn view(&self) -> SectionView {
        match self {
            Section::Error => SectionView::Error,
            Section::General => SectionView::General,
            Section::SoundFx => SectionView::SoundFx,
            Section::Music => SectionView::Music,
            Section::Shader(n) => SectionView::Shader(n@),
            Section::Texture(n) => SectionView::Texture(n@),
            Section::Font(n) => SectionView::Font(n@),
        }
    }
}

/// The text is exactly the literal.
fn is_str(s: &String, lit: &str) -> (r: bool)
    ensures
        r == (s@ == lit@),
{
    let l: String = lit.to_owned();
    *s == l
}

/// The rest of `s` after the prefix `p`, if `s` starts with `p`.
fn strip_prefix(s: &String, p: &str) -> (r: Option<String>)
    ensures
        r is Some == has_prefix(s@, p@),
        r matches Some(rest) ==> rest@ == s@.skip(p@.len() as int),
{
    let t = s.as_str();
    let n = t.unicode_len();
    let m = p.unicode_len();
    if m > n {
        return None;
    }
    let mut i: usize = 0;
    while i < m
        invariant
            i <= m <= n,
            n == t@.len(),
            t@ == s@,
            m == p@.len(),
            forall|j: int| 0 <= j < i ==> s@[j] == p@[j],
        decreases m - i,
    {
        if t.get_char(i) != p.get_char(i) {
            assert(s@.subrange(0, m as int)[i as int] != p@[i as int]);
            return None;
        }
        i += 1;
    }
    assert(s@.subrange(0, m as int) =~= p@);
    let rest = t.substring_char(m, n);
    assert(rest@ =~= s@.skip(m as int));
    Some(rest.to_owned())
}

/// The section a header names.
fn section_for(name: &String) -> (r: Section)
    ensures
        r@ == section_of(name@),
{
    if is_str(name, "SoundFx") {
        Section::SoundFx
    } else if is_str(name, "Music") {
        Section::Music
    } else if let Some(rest) = strip_prefix(name, "Shader.") {
        Section::Shader(rest)
    } else if let Some(rest) = strip_prefix(name, "Texture.") {
        Section::Texture(rest)
    } else if let Some(rest) = strip_prefix(name, "Font.") {
        Section::Font(rest)
    } else {
        Section::Error
    }
}

/// The filter a `Filter` value names, if any.
fn filter_for(value: &String) -> (r: Option<TextureFilter>)
    ensures
        r == filter_of(value@),
{
    if is_str(value, "Nearest") {
        Some(TextureFilter::Nearest)
    } else if is_str(value, "Linear") {
        Some(TextureFilter::Linear)
    } else {
        None
    }
}

/// The wrapping a `Wrap` value names, if any.
fn wrap_for(value: &String) -> (r: Option<TextureWrap>)
    ensures
        r == wrap_of(value@),
{
    if is_str(value, "ClampEdge") {
        Some(TextureWrap::ClampEdge)
    } else if is_str(value, "ClampBorder") {
        Some(TextureWrap::ClampBorder)
    } else if is_str(value, "Repeat") {
        Some(TextureWrap::Repeat)
    } else if is_str(value, "Mirror") {
        Some(TextureWrap::Mirror)
    } else {
        None
    }
}

/// Takes the entry named `name` out of the list, or gives `fresh` if there
/// is none; the index is where the entry goes back.
fn take_entry<T: View>(v: &mut Vec<(String, T)>, name: &String, fresh: T) -> (r: (usize, String, T))
    ensures
        r.1@ == name@,
        if exists|k: int| is_first_named(named_view(old(v)@), name@, k) {
            &&& is_first_named(named_view(old(v)@), name@, r.0 as int)
            &&& final(v)@ == old(v)@.remove(r.0 as int)
            &&& r.2@ == old(v)@[r.0 as int].1@
        } else {
            &&& r.0 == old(v)@.len()
            &&& final(v)@ == old(v)@
            &&& r.2 == fresh
        },
{
    let mut i: usize = 0;
    while i < v.len()
        invariant
            i <= v@.len(),
            v@ == old(v)@,
            forall|j: int| 0 <= j < i ==> v@[j].0@ != name@,
        decreases v@.len() - i,
    {
        if v[i].0 == *name {
            assert(is_first_named(named_view(v@), name@, i as int));
            let (n, e) = v.remove(i);
            return (i, n, e);
        }
        i += 1;
    }
    proof {
        if exists|k: int| is_first_named(named_view(v@), name@, k) {
            let k = choose|k: int| is_first_named(named_view(v@), name@, k);
            assert(v@[k].0@ == name@);
        }
    }
    (i, name.clone(), fresh)
}

/// Putting the changed entry back where `take_entry` took it gives the list
/// `upsert` describes.
proof fn lemma_put_back<T: View>(
    old: Seq<(String, T)>,
    mid: Seq<(String, T)>,
    r: (usize, String, T),
    name: Seq<char>,
    fresh: T,
    g: spec_fn(T::V) -> T::V,
    e1: T,
)
    requires
        r.1@ == name,
        if exists|k: int| is_first_named(named_view(old), name, k) {
            &&& is_first_named(named_view(old), name, r.0 as int)
            &&& mid == old.remove(r.0 as int)
            &&& r.2@ == old[r.0 as int].1@
        } else {
            &&& r.0 == old.len()
            &&& mid == old
            &&& r.2 == fresh
        },
        e1@ == g(r.2@),
    ensures
        named_view(mid.insert(r.0 as int, (r.1, e1))) == upsert(named_view(old), name, fresh@, g),
{
    let i = r.0 as int;
    let result = mid.insert(i, (r.1, e1));
    if exists|k: int| is_first_named(named_view(old), name, k) {
        let k = choose|k: int| is_first_named(named_view(old), name, k);
        if k < i {
            assert(named_view(old)[k].0 != name);
        } else if i < k {
            assert(named_view(old)[i].0 != name);
        }
        assert(result =~= old.update(i, (r.1, e1)));
        assert(named_view(result) =~= named_view(old).update(i, (name, g(named_view(old)[i].1))));
    } else {
        assert(result =~= old.push((r.1, e1)));
        assert(named_view(result) =~= named_view(old).push((name, g(fresh@))));
    }
}

/// Sets what a shader property sets.
fn set_shader_key(e: &mut ShaderConfig, key: &String, value: &String)
    ensures
        final(e)@ == (shader_set(key@, value@))(old(e)@),
{
    if is_str(key, "VertexShader") {
        e.vertex_shader = value.clone();
    } else if is_str(key, "FragmentShader") {
        e.fragment_shader = value.clone();
    }
}

/// Sets what a texture property sets.
fn set_texture_key(e: &mut TextureConfig, key: &String, value: &String)
    ensures
        final(e)@ == (texture_set(key@, value@))(old(e)@),
{
    if is_str(key, "Path") {
        e.path = value.clone();
    } else if is_str(key, "Transform") {
        e.transform = if is_str(value, "Gutter32x32") { Some(TransformType::Gutter32x32) } else { None };
    } else if is_str(key, "Filter") {
        if let Some(filter) = filter_for(value) {
            e.props.filter_min = filter;
            e.props.filter_mag = filter;
        }
    } else if is_str(key, "Wrap") {
        if let Some(wrap) = wrap_for(value) {
            e.props.wrap_u = wrap;
            e.props.wrap_v = wrap;
        }
    }
}

/// Sets what a font property sets.
fn set_font_key(e: &mut FontConfig, key: &String, value: &String)
    ensures
        final(e)@ == (font_set(key@, value@))(old(e)@),
{
    if is_str(key, "Atlas") {
        e.atlas = value.clone();
    } else if is_str(key, "Meta") {
        e.meta = value.clone();
    } else if is_str(key, "Shader") {
        e.shader = value.clone();
    }
}

/// Whether a property is acceptable in the section.
fn property_acceptable(section: &Section, key: &String, value: &String) -> (r: bool)
    ensures
        r == property_ok(section@, key@, value@),
{
    match section {
        Section::Texture(_) => {
            if is_str(key, "Filter") && filter_for(value).is_none() {
                return false;
            }
            if is_str(key, "Wrap") && wrap_for(value).is_none() {
                return false;
            }
            true
        },
        _ => true,
    }
}

/// Applies an acceptable `key=value` property of `section`.
fn apply_to(section: &Section, c: &mut Config, key: &String, value: &String)
    ensures
        final(c)@ == apply_property(section@, old(c)@, key@, value@),
{
    match section {
        Section::Error => {},
        Section::General => {
            if is_str(key, "PixelArtBias") {
                c.pixel_art_bias.push(value.clone());
                assert(c@.pixel_art_bias =~= old(c)@.pixel_art_bias.push(value@));
            }
        },
        Section::SoundFx => {
            let ghost before = c.sound_fx@;
            let fresh = String::new();
            let ghost fresh_g = fresh;
            let (i, n, taken) = take_entry(&mut c.sound_fx, key, fresh);
            let ghost r0 = (i, n, taken);
            let e = value.clone();
            proof {
                lemma_put_back(before, c.sound_fx@, r0, key@, fresh_g, file_set(value@), e);
            }
            c.sound_fx.insert(i, (n, e));
        },
        Section::Music => {
            let ghost before = c.music@;
            let fresh = String::new();
            let ghost fresh_g = fresh;
            let (i, n, taken) = take_entry(&mut c.music, key, fresh);
            let ghost r0 = (i, n, taken);
            let e = value.clone();
            proof {
                lemma_put_back(before, c.music@, r0, key@, fresh_g, file_set(value@), e);
            }
            c.music.insert(i, (n, e));
        },
        Section::Shader(name) => {
            let ghost before = c.shaders@;
            let fresh = ShaderConfig::default();
            let ghost fresh_g = fresh;
            let (i, n, mut e) = take_entry(&mut c.shaders, name, fresh);
            let ghost r0 = (i, n, e);
            set_shader_key(&mut e, key, value);
            proof {
                lemma_put_back(before, c.shaders@, r0, name@, fresh_g, shader_set(key@, value@), e);
            }
            c.shaders.insert(i, (n, e));
        },
        Section::Texture(name) => {
            let ghost before = c.textures@;
            let fresh = TextureConfig::default();
            let ghost fresh_g = fresh;
            let (i, n, mut e) = take_entry(&mut c.textures, name, fresh);
            let ghost r0 = (i, n, e);
            set_texture_key(&mut e, key, value);
            proof {
                lemma_put_back(before, c.textures@, r0, name@, fresh_g, texture_set(key@, value@), e);
            }
            c.textures.insert(i, (n, e));
        },
        Section::Font(name) => {
            let ghost before = c.fonts@;
            let fresh = FontConfig::default();
            let ghost fresh_g = fresh;
            let (i, n, mut e) = take_entry(&mut c.fonts, name, fresh);
            let ghost r0 = (i, n, e);
            set_font_key(&mut e, key, value);
            proof {
                lemma_put_back(before, c.fonts@, r0, name@, fresh_g, font_set(key@, value@), e);
            }
            c.fonts.insert(i, (n, e));
        },
    }
}

/// Reads the elements in order; stops at the first unacceptable property
/// and says whether there was none.
fn apply_items(items: &Vec<IniItem>) -> (r: (Config, bool))
    ensures
        r.0@ == config_of(items_view(items@)),
        r.1 == items_ok(items_view(items@)),
{
    let ghost all = items_view(items@);
    let mut section = Section::General;
    let mut config = Config {
        pixel_art_bias: Vec::new(),
        sound_fx: Vec::new(),
        music: Vec::new(),
        shaders: Vec::new(),
        textures: Vec::new(),
        fonts: Vec::new(),
    };
    assert(config@ =~= empty_config());
    let mut i: usize = 0;
    while i < items.len()
        invariant
            i <= items@.len(),
            all == items_view(items@),
            section@ == parse_state(all.take(i as int)).section,
            config@ == parse_state(all.take(i as int)).config,
            parse_state(all.take(i as int)).ok,
        decreases items@.len() - i,
    {
        assert(all.take(i + 1).drop_last() =~= all.take(i as int));
        assert(all.take(i + 1).last() == items@[i as int]@);
        match &items[i] {
            IniItem::Property(key, Some(value)) => {
                if !property_acceptable(&section, key, value) {
                    proof {
                        lemma_parse_stuck(all, i + 1, all.len() as int);
                        assert(all.take(all.len() as int) =~= all);
                    }
                    return (config, false);
                }
                apply_to(&section, &mut config, key, value);
            },
            IniItem::Section(name) => {
                section = section_for(name);
            },
            _ => {},
        }
        i += 1;
    }
    assert(all.take(items@.len() as int) =~= all);
    (config, true)
}

impl Config {
    /// The configuration a list of ini elements gives; every property must
    /// be acceptable (a texture `Filter` or `Wrap` names a known mode).
    pub fn from_items(items: &Vec<IniItem>) -> (r: Config)
        requires
            items_ok(items_view(items@)),
        ensures
            r@ == config_of(items_view(items@)),
    {
        let (config, _) = apply_items(items);
        config
    }

    /// Reads the configuration from an ini document whose texture `Filter`
    /// and `Wrap` values all name known modes.
    pub fn parse(text: &str) -> (r: Config)
        requires
            items_ok(ini_items(text@)),
        ensures
            r@ == config_of(ini_items(text@)),
    {
        let items = read_ini(text);
        Config::from_items(&items)
    }

    /// Reads the configuration from an ini document; `None` if a texture
    /// `Filter` or `Wrap` value names no known mode.
    pub fn try_parse(text: &str) -> (r: Option<Config>)
        ensures
            r is Some == items_ok(ini_items(text@)),
            r matches Some(c) ==> c@ == config_of(ini_items(text@)),
    {
        let items = read_ini(text);
        let (_, ok) = apply_items(&items);
        if ok {
            Some(Config::parse(text))
        } else {
            None
        }
    }
}

/// The piece of music a `[Music]` key names, if any.
pub open spec fn music_id_of(name: Seq<char>) -> Option<MusicId> {
    if name == "MenuMusic"@ {
        Some(MusicId::MenuMusic)
    } else if name == "GameMusic"@ {
        Some(MusicId::GameMusic)
    } else {
        None
    }
}

/// The music files by piece: the entries whose key names a piece of music,
/// in order; other keys are dropped.
pub open spec fn music_files_of(music: Seq<(Seq<char>, Seq<char>)>) -> Seq<(MusicId, Seq<char>)>
    decreases music.len(),
{
    if music.len() == 0 {
        Seq::empty()
    } else {
        let prev = music_files_of(music.drop_last());
        match music_id_of(music.last().0) {
            Some(id) => prev.push((id, music.last().1)),
            None => prev,
        }
    }
}

/// The piece of music a `[Music]` key names, if any.
pub fn music_id_for(name: &String) -> (r: Option<MusicId>)
    ensures
        r == music_id_of(name@),
{
    if is_str(name, "MenuMusic") {
        Some(MusicId::MenuMusic)
    } else if is_str(name, "GameMusic") {
        Some(MusicId::GameMusic)
    } else {
        None
    }
}

impl Config {
    /// The music files by piece, dropping keys that name no piece of music.
    pub fn music_files(&self) -> (r: Vec<(MusicId, String)>)
        ensures
            r@.map_values(|p: (MusicId, String)| (p.0, p.1@)) == music_files_of(self@.music),
    {
        let ghost all = self@.music;
        let mut out: Vec<(MusicId, String)> = Vec::new();
        let mut i: usize = 0;
        while i < self.music.len()
            invariant
                i <= self.music@.len(),
                all == self@.music,
                all.len() == self.music@.len(),
                out@.map_values(|p: (MusicId, String)| (p.0, p.1@)) == music_files_of(all.take(i as int)),
            decreases self.music@.len() - i,
        {
            assert(all.take(i + 1).drop_last() =~= all.take(i as int));
            assert(all.take(i + 1).last() == (self.music@[i as int].0@, self.music@[i as int].1@));
            if let Some(id) = music_id_for(&self.music[i].0) {
                let file = self.music[i].1.clone();
                let ghost before = out@;
                out.push((id, file));
                assert(out@.map_values(|p: (MusicId, String)| (p.0, p.1@)) =~= before.map_values(
                    |p: (MusicId, String)| (p.0, p.1@),
                ).push((id, file@)));
            }
            i += 1;
        }
        assert(all.take(all.len() as int) =~= all);
        out
    }
}

/// No name occurs twice among the entries.
pub open spec fn names_distinct<V>(entries: Seq<(Seq<char>, V)>) -> bool {
    forall|i: int, j: int| 0 <= i < j < entries.len() ==> entries[i].0 != entries[j].0
}

/// Changing or adding an entry by name keeps names distinct.
proof fn lemma_upsert_distinct<V>(entries: Seq<(Seq<char>, V)>, name: Seq<char>, fresh: V, g: spec_fn(V) -> V)
    requires
        names_distinct(entries),
    ensures
        names_distinct(upsert(entries, name, fresh, g)),
{
    let r = upsert(entries, name, fresh, g);
    if exists|i: int| is_first_named(entries, name, i) {
        let k = choose|i: int| is_first_named(entries, name, i);
        assert forall|i: int, j: int| 0 <= i < j < r.len() implies r[i].0 != r[j].0 by {
            assert(r[i].0 == entries[i].0);
            assert(r[j].0 == entries[j].0);
        }
    } else {
        assert forall|i: int, j: int| 0 <= i < j < r.len() implies r[i].0 != r[j].0 by {
            if j == entries.len() {
                assert(!is_first_named(entries, name, i));
            }
        }
    }
}

/// Every shader, texture, font, sound and music name occurs once in the
/// configuration a document gives, whatever the document.
pub proof fn law_config_names_distinct(items: Seq<IniItemView>)
    ensures
        names_distinct(config_of(items).shaders),
        names_distinct(config_of(items).textures),
        names_distinct(config_of(items).fonts),
        names_distinct(config_of(items).sound_fx),
        names_distinct(config_of(items).music),
    decreases items.len(),
{
    if items.len() > 0 {
        law_config_names_distinct(items.drop_last());
        let st = parse_state(items.drop_last());
        match items.last() {
            IniItemView::Property(key, Some(value)) => {
                match st.section {
                    SectionView::Shader(name) => {
                        lemma_upsert_distinct(st.config.shaders, name, default_shader(), shader_set(key, value));
                    },
                    SectionView::Texture(name) => {
                        lemma_upsert_distinct(st.config.textures, name, default_texture(), texture_set(key, value));
                    },
                    SectionView::Font(name) => {
                        lemma_upsert_distinct(st.config.fonts, name, default_font(), font_set(key, value));
                    },
                    SectionView::SoundFx => {
                        lemma_upsert_distinct(st.config.sound_fx, key, Seq::empty(), file_set(value));
                    },
                    SectionView::Music => {
                        lemma_upsert_distinct(st.config.music, key, Seq::empty(), file_set(value));
                    },
                    _ => {},
                }
            },
            _ => {},
        }
    }
}

} // verus!

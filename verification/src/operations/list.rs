//! `tinty list`, and the scheme entries whose colours are handed to hooks as
//! environment variables. Listing files and printing is the caller's; the
//! colours' decimal channels and lightness (floating point) arrive already
//! rendered as text.
use crate::outside::{str_to_uppercase, uppercased};
use crate::paths::{join_path, path_join};
use crate::text::{cat, cat3, decimal, u64_to_decimal};
use vstd::prelude::*;

verus! {

/// Why the schemes cannot be listed.
pub enum ListError {
    /// There is no custom schemes directory; holds its path.
    NoCustomSchemes(String),
    /// The schemes repository is not installed.
    SchemesMissing,
}

impl ListError {
    /// The message this error is reported with.
    pub fn message(&self) -> (res: String)
        ensures
            res@ == match self {
                ListError::NoCustomSchemes(p) => "You don't have any local custom schemes at: "@ + p@,
                ListError::SchemesMissing => "Schemes are missing, run install and then try again: `tinty install`"@,
            },
    {
        match self {
            ListError::NoCustomSchemes(p) => cat("You don't have any local custom schemes at: ", p.as_str()),
            ListError::SchemesMissing => "Schemes are missing, run install and then try again: `tinty install`".to_string(),
        }
    }
}

/// The directory the schemes are listed from: the custom schemes, or the
/// schemes repository under `repos`.
pub open spec fn schemes_dir(data_path: Seq<char>, is_custom: bool) -> Seq<char> {
    if is_custom {
        path_join(data_path, crate::constants::CUSTOM_SCHEMES_DIR_NAME@)
    } else {
        path_join(data_path, "repos/schemes"@)
    }
}

/// The directory the schemes are listed from, when it exists (`exists`
/// telling whether it does).
pub fn schemes_dir_path(data_path: &str, is_custom: bool, exists: bool) -> (res: Result<String, ListError>)
    ensures
        exists ==> (res matches Ok(p) && p@ == schemes_dir(data_path@, is_custom)),
        !exists && is_custom ==> (res matches Err(ListError::NoCustomSchemes(p)) && p@ == schemes_dir(data_path@, true)),
        !exists && !is_custom ==> res matches Err(ListError::SchemesMissing),
{
    let path = if is_custom {
        join_path(data_path, crate::constants::CUSTOM_SCHEMES_DIR_NAME)
    } else {
        join_path(data_path, "repos/schemes")
    };
    if exists {
        Ok(path)
    } else if is_custom {
        Err(ListError::NoCustomSchemes(path))
    } else {
        Err(ListError::SchemesMissing)
    }
}

/// A colour as reported: its `#rrggbb` text, its hex channels, its RGB
/// channels and its decimal channels (rendered).
pub struct ColorOut {
    pub hex_str: String,
    pub hex: (String, String, String),
    pub rgb: (u8, u8, u8),
    pub dec: (String, String, String),
}

/// A [`ColorOut`] with its strings viewed as character sequences.
pub struct ColorOutView {
    pub hex_str: Seq<char>,
    pub hex: (Seq<char>, Seq<char>, Seq<char>),
    pub rgb: (u8, u8, u8),
    pub dec: (Seq<char>, Seq<char>, Seq<char>),
}

impl View for ColorOut {
    type V = ColorOutView;

    open spec fn view(&self) -> ColorOutView {
        ColorOutView {
            hex_str: self.hex_str@,
            hex: (self.hex.0@, self.hex.1@, self.hex.2@),
            rgb: self.rgb,
            dec: (self.dec.0@, self.dec.1@, self.dec.2@),
        }
    }
}

impl ColorOut {
    /// The colour with hex channels `hex`, RGB channels `rgb` and decimal
    /// channels `dec`; its text is `#` and the hex channels.
    pub fn from_channels(hex: (String, String, String), rgb: (u8, u8, u8), dec: (String, String, String)) -> (res: ColorOut)
        ensures
            res@.hex_str == seq!['#'] + hex.0@ + hex.1@ + hex.2@,
            res@.hex == (hex.0@, hex.1@, hex.2@),
            res@.rgb == rgb,
            res@.dec == (dec.0@, dec.1@, dec.2@),
    {
        proof {
            reveal_strlit("#");
        }
        let mut hex_str = cat3("#", hex.0.as_str(), hex.1.as_str());
        hex_str.append(hex.2.as_str());
        ColorOut { hex_str, hex, rgb, dec }
    }
}

/// A scheme's lightness, foreground and background (rendered).
pub struct Lightness {
    pub foreground: String,
    pub background: String,
}

/// A scheme as listed and as handed to hooks.
pub struct SchemeEntry {
    /// `<system>-<slug>`.
    pub id: String,
    pub name: String,
    pub author: String,
    pub system: String,
    pub variant: String,
    pub slug: String,
    /// The palette's colours, by name in name order.
    pub palette: Vec<(String, ColorOut)>,
    pub lightness: Option<Lightness>,
    pub ui: Option<Vec<(String, ColorOut)>>,
    pub syntax: Option<Vec<(String, ColorOut)>>,
}

/// An environment variable's name and value.
pub type EnvPair = (Seq<char>, Seq<char>);

/// The views of a list of environment variables.
pub open spec fn env_views(v: Seq<(String, String)>) -> Seq<EnvPair> {
    v.map_values(|p: (String, String)| (p.0@, p.1@))
}

/// The variables that hand colour `name` to hooks:
/// `TINTY_SCHEME_PALETTE_<NAME>_{HEX,RGB,DEC}_{R,G,B}`.
pub open spec fn color_envs(name: Seq<char>, c: ColorOutView) -> Seq<EnvPair> {
    let n = "TINTY_SCHEME_PALETTE_"@ + uppercased(uppercased(name));
    seq![
        (n + "_HEX_R"@, c.hex.0),
        (n + "_HEX_G"@, c.hex.1),
        (n + "_HEX_B"@, c.hex.2),
        (n + "_RGB_R"@, decimal(c.rgb.0 as nat)),
        (n + "_RGB_G"@, decimal(c.rgb.1 as nat)),
        (n + "_RGB_B"@, decimal(c.rgb.2 as nat)),
        (n + "_DEC_R"@, c.dec.0),
        (n + "_DEC_G"@, c.dec.1),
        (n + "_DEC_B"@, c.dec.2),
    ]
}

/// The variables of every colour of a palette, colour by colour.
pub open spec fn palette_envs(p: Seq<(String, ColorOut)>) -> Seq<EnvPair>
    decreases p.len(),
{
    if p.len() == 0 {
        Seq::empty()
    } else {
        palette_envs(p.drop_last()) + color_envs(p.last().0@, p.last().1@)
    }
}

/// The variables that hand scheme `e` to hooks: its identity, then its
/// lightness when known, then its palette's colours.
pub open spec fn scheme_envs(e: SchemeEntry) -> Seq<EnvPair> {
    seq![
        ("TINTY_SCHEME_ID"@, e.id@),
        ("TINTY_SCHEME_NAME"@, e.name@),
        ("TINTY_SCHEME_SLUG"@, e.slug@),
        ("TINTY_SCHEME_SYSTEM"@, e.system@),
        ("TINTY_SCHEME_VARIANT"@, e.variant@),
    ] + match e.lightness {
        Some(l) => seq![
            ("TINTY_SCHEME_LIGHTNESS_FOREGROUND"@, l.foreground@),
            ("TINTY_SCHEME_LIGHTNESS_BACKGROUND"@, l.background@),
        ],
        None => Seq::empty(),
    } + palette_envs(e.palette@)
}

/// Appends the variable `name`=`value`.
fn push_env(v: &mut Vec<(String, String)>, name: String, value: String)
    ensures
        env_views(final(v)@) == env_views(old(v)@).push((name@, value@)),
{
    let ghost before = env_views(v@);
    v.push((name, value));
    assert(env_views(v@) =~= before.push((name@, value@)));
}

/// Appends the variables of colour `name`.
fn push_color_envs(v: &mut Vec<(String, String)>, name: &str, c: &ColorOut)
    ensures
        env_views(final(v)@) == env_views(old(v)@) + color_envs(name@, c@),
{
    let ghost before = env_views(v@);
    let once = str_to_uppercase(name);
    let upper = str_to_uppercase(once.as_str());
    let n = cat("TINTY_SCHEME_PALETTE_", upper.as_str());
    push_env(v, cat(n.as_str(), "_HEX_R"), c.hex.0.clone());
    push_env(v, cat(n.as_str(), "_HEX_G"), c.hex.1.clone());
    push_env(v, cat(n.as_str(), "_HEX_B"), c.hex.2.clone());
    push_env(v, cat(n.as_str(), "_RGB_R"), u64_to_decimal(c.rgb.0 as u64));
    push_env(v, cat(n.as_str(), "_RGB_G"), u64_to_decimal(c.rgb.1 as u64));
    push_env(v, cat(n.as_str(), "_RGB_B"), u64_to_decimal(c.rgb.2 as u64));
    push_env(v, cat(n.as_str(), "_DEC_R"), c.dec.0.clone());
    push_env(v, cat(n.as_str(), "_DEC_G"), c.dec.1.clone());
    push_env(v, cat(n.as_str(), "_DEC_B"), c.dec.2.clone());
    assert(env_views(v@) =~= before + color_envs(name@, c@));
}

impl SchemeEntry {
    /// The scheme's id: `<system>-<slug>`.
    pub fn scheme_id(system: &str, slug: &str) -> (res: String)
        ensures
            res@ == system@ + seq!['-'] + slug@,
    {
        crate::utils::scheme_key(system, slug)
    }

    /// The environment variables that hand this scheme to hooks.
    pub fn to_envs(&self) -> (res: Vec<(String, String)>)
        ensures
            env_views(res@) == scheme_envs(*self),
    {
        let mut v: Vec<(String, String)> = Vec::new();
        push_env(&mut v, "TINTY_SCHEME_ID".to_string(), self.id.clone());
        push_env(&mut v, "TINTY_SCHEME_NAME".to_string(), self.name.clone());
        push_env(&mut v, "TINTY_SCHEME_SLUG".to_string(), self.slug.clone());
        push_env(&mut v, "TINTY_SCHEME_SYSTEM".to_string(), self.system.clone());
        push_env(&mut v, "TINTY_SCHEME_VARIANT".to_string(), self.variant.clone());
        match &self.lightness {
            Some(l) => {
                push_env(&mut v, "TINTY_SCHEME_LIGHTNESS_FOREGROUND".to_string(), l.foreground.clone());
                push_env(&mut v, "TINTY_SCHEME_LIGHTNESS_BACKGROUND".to_string(), l.background.clone());
            },
            None => {},
        }
        let ghost head = env_views(v@);
        let n = self.palette.len();
        let mut i: usize = 0;
        while i < n
            invariant
                n == self.palette.len(),
                i <= n,
                env_views(v@) == head + palette_envs(self.palette@.take(i as int)),
            decreases n - i,
        {
            let ghost before = env_views(v@);
            push_color_envs(&mut v, self.palette[i].0.as_str(), &self.palette[i].1);
            let ghost t = self.palette@.take(i + 1);
            assert(t.drop_last() =~= self.palette@.take(i as int));
            assert(t.last() == self.palette@[i as int]);
            assert(env_views(v@) =~= head + palette_envs(t));
            i = i + 1;
        }
        assert(self.palette@.take(n as int) =~= self.palette@);
        assert(env_views(v@) =~= scheme_envs(*self));
        v
    }
}

} // verus!

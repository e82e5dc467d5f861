//! `tinty info`: the report on a scheme's palette, and the choice of the
//! scheme files it covers. Reading the files and printing is the caller's.
use crate::config::opt_view;
use crate::outside::{hex_color_error_text, hex_rgb, parse_hex_color};
use crate::paths::{file_extension, file_stem, join_path, path_join, split_file_name};
use crate::scheme_system::SchemeSystem;
use crate::text::{cat, cat3, decimal, join, join_strings, lex_lt, push_char, split_char, str_eq, str_lt, str_split_char, u64_to_decimal, views};
use vstd::prelude::*;

verus! {

// ---------------------------------------------------------------------------
// Scheme files as read for the report.
// ---------------------------------------------------------------------------

/// The colours of a Base16 scheme, `base00` to `base0F`.
pub struct Base16Palette {
    pub base00: String,
    pub base01: String,
    pub base02: String,
    pub base03: String,
    pub base04: String,
    pub base05: String,
    pub base06: String,
    pub base07: String,
    pub base08: String,
    pub base09: String,
    pub base0_a: String,
    pub base0_b: String,
    pub base0_c: String,
    pub base0_d: String,
    pub base0_e: String,
    pub base0_f: String,
}

/// A Base16 scheme: its name, author and palette.
pub struct Base16Scheme {
    pub name: String,
    pub author: String,
    pub palette: Base16Palette,
}

/// The colours of a Base24 scheme, `base00` to `base17`.
pub struct Base24Palette {
    pub base00: String,
    pub base01: String,
    pub base02: String,
    pub base03: String,
    pub base04: String,
    pub base05: String,
    pub base06: String,
    pub base07: String,
    pub base08: String,
    pub base09: String,
    pub base0_a: String,
    pub base0_b: String,
    pub base0_c: String,
    pub base0_d: String,
    pub base0_e: String,
    pub base0_f: String,
    pub base10: String,
    pub base11: String,
    pub base12: String,
    pub base13: String,
    pub base14: String,
    pub base15: String,
    pub base16: String,
    pub base17: String,
}

/// A Base24 scheme: its name, author and palette.
pub struct Base24Scheme {
    pub name: String,
    pub author: String,
    pub palette: Base24Palette,
}

// ---------------------------------------------------------------------------
// Palette rows.
// ---------------------------------------------------------------------------

/// The upper-case hexadecimal digit of `d < 16`.
pub open spec fn upper_hex_digit(d: int) -> char {
    if d < 10 {
        ('0' as int + d) as char
    } else {
        ('A' as int + d - 10) as char
    }
}

/// The name of the `i`-th palette colour: `base00` ... `base0F`,
/// `base10` ... `base17`.
pub open spec fn palette_name(i: int) -> Seq<char> {
    "base"@ + seq![if i < 16 { '0' } else { '1' }, upper_hex_digit(i % 16)]
}

/// The ANSI colour(s) the `i`-th colour stands for, as Base16 0.4.2 and
/// Base24 0.1.3 assign them.
pub open spec fn ansi_code_spec(system: SchemeSystem, i: int) -> Seq<char> {
    if i == 0 { "0"@ }
    else if i == 1 { "18"@ }
    else if i == 2 { "19"@ }
    else if i == 3 { "8"@ }
    else if i == 4 { "20"@ }
    else if i == 5 { "7"@ }
    else if i == 6 { "21"@ }
    else if i == 7 { "15"@ }
    else if i == 9 { "16"@ }
    else if i == 15 { "17"@ }
    else if system == SchemeSystem::Base16 {
        if i == 8 { "1 and 9"@ }
        else if i == 10 { "3 and 11"@ }
        else if i == 11 { "2 and 10"@ }
        else if i == 12 { "6 and 14"@ }
        else if i == 13 { "4 and 12"@ }
        else { "5 and 13"@ }
    } else {
        if i == 8 { "1"@ }
        else if i == 10 { "3"@ }
        else if i == 11 { "2"@ }
        else if i == 12 { "6"@ }
        else if i == 13 { "4"@ }
        else if i == 14 { "5"@ }
        else if i == 16 || i == 17 { "-"@ }
        else if i == 18 { "9"@ }
        else if i == 19 { "11"@ }
        else if i == 20 { "10"@ }
        else if i == 21 { "14"@ }
        else if i == 22 { "12"@ }
        else { "13"@ }
    }
}

/// The ANSI colour(s) of the `i`-th colour of `system`'s palette.
fn ansi_code(system: SchemeSystem, i: usize) -> (res: &'static str)
    ensures
        res@ == ansi_code_spec(system, i as int),
{
    if i == 0 { "0" }
    else if i == 1 { "18" }
    else if i == 2 { "19" }
    else if i == 3 { "8" }
    else if i == 4 { "20" }
    else if i == 5 { "7" }
    else if i == 6 { "21" }
    else if i == 7 { "15" }
    else if i == 9 { "16" }
    else if i == 15 { "17" }
    else if system == SchemeSystem::Base16 {
        if i == 8 { "1 and 9" }
        else if i == 10 { "3 and 11" }
        else if i == 11 { "2 and 10" }
        else if i == 12 { "6 and 14" }
        else if i == 13 { "4 and 12" }
        else { "5 and 13" }
    } else {
        if i == 8 { "1" }
        else if i == 10 { "3" }
        else if i == 11 { "2" }
        else if i == 12 { "6" }
        else if i == 13 { "4" }
        else if i == 14 { "5" }
        else if i == 16 || i == 17 { "-" }
        else if i == 18 { "9" }
        else if i == 19 { "11" }
        else if i == 20 { "10" }
        else if i == 21 { "14" }
        else if i == 22 { "12" }
        else { "13" }
    }
}

/// The name of the `i`-th palette colour.
fn palette_name_exec(i: usize) -> (res: String)
    requires
        i < 32,
    ensures
        res@ == palette_name(i as int),
{
    proof {
        reveal_strlit("base");
    }
    let mut s = "base".to_string();
    push_char(&mut s, if i < 16 { '0' } else { '1' });
    let d = i % 16;
    let c = if d < 10 {
        proof {
            assert(('0' as int + d) < 0xD800);
        }
        ('0' as u8 + d as u8) as char
    } else {
        ('A' as u8 + (d - 10) as u8) as char
    };
    push_char(&mut s, c);
    s
}

/// One row of the palette table: a colour's name, its configured hex value
/// and the ANSI colour(s) it stands for.
pub struct PaletteRow {
    pub name: String,
    pub hex: String,
    pub ansi: String,
}

/// `row` is the `i`-th row of a `system` palette whose colour is `hex`.
pub open spec fn is_palette_row(row: PaletteRow, system: SchemeSystem, i: int, hex: Seq<char>) -> bool {
    row.name@ == palette_name(i) && row.hex@ == hex && row.ansi@ == ansi_code_spec(system, i)
}

/// The rows of a palette whose colours are `hexes`, in order.
fn rows_of(system: SchemeSystem, hexes: Vec<String>) -> (res: Vec<PaletteRow>)
    requires
        hexes.len() <= 24,
    ensures
        res.len() == hexes.len(),
        forall|i: int| 0 <= i < hexes.len() ==> is_palette_row(#[trigger] res@[i], system, i, hexes@[i]@),
{
    let mut rows: Vec<PaletteRow> = Vec::new();
    let n = hexes.len();
    let mut i: usize = 0;
    while i < n
        invariant
            n == hexes.len(),
            n <= 24,
            i <= n,
            rows.len() == i,
            forall|k: int| 0 <= k < i ==> is_palette_row(#[trigger] rows@[k], system, k, hexes@[k]@),
        decreases n - i,
    {
        let row = PaletteRow {
            name: palette_name_exec(i),
            hex: hexes[i].clone(),
            ansi: ansi_code(system, i).to_string(),
        };
        rows.push(row);
        i = i + 1;
    }
    rows
}

impl Base16Palette {
    /// The colours, `base00` to `base0F`.
    pub open spec fn colours(self) -> Seq<Seq<char>> {
        seq![
            self.base00@, self.base01@, self.base02@, self.base03@,
            self.base04@, self.base05@, self.base06@, self.base07@,
            self.base08@, self.base09@, self.base0_a@, self.base0_b@,
            self.base0_c@, self.base0_d@, self.base0_e@, self.base0_f@,
        ]
    }

    /// The palette table's rows.
    pub fn rows(&self) -> (res: Vec<PaletteRow>)
        ensures
            res.len() == 16,
            forall|i: int| 0 <= i < 16 ==> is_palette_row(#[trigger] res@[i], SchemeSystem::Base16, i, self.colours()[i]),
    {
        let hexes = vec![
            self.base00.clone(), self.base01.clone(), self.base02.clone(), self.base03.clone(),
            self.base04.clone(), self.base05.clone(), self.base06.clone(), self.base07.clone(),
            self.base08.clone(), self.base09.clone(), self.base0_a.clone(), self.base0_b.clone(),
            self.base0_c.clone(), self.base0_d.clone(), self.base0_e.clone(), self.base0_f.clone(),
        ];
        assert(views(hexes@) =~= self.colours());
        let rows = rows_of(SchemeSystem::Base16, hexes);
        assert forall|i: int| 0 <= i < 16 implies is_palette_row(#[trigger] rows@[i], SchemeSystem::Base16, i, self.colours()[i]) by {
            assert(views(hexes@)[i] == hexes@[i]@);
        }
        rows
    }
}

impl Base24Palette {
    /// The colours, `base00` to `base17`.
    pub open spec fn colours(self) -> Seq<Seq<char>> {
        seq![
            self.base00@, self.base01@, self.base02@, self.base03@,
            self.base04@, self.base05@, self.base06@, self.base07@,
            self.base08@, self.base09@, self.base0_a@, self.base0_b@,
            self.base0_c@, self.base0_d@, self.base0_e@, self.base0_f@,
            self.base10@, self.base11@, self.base12@, self.base13@,
            self.base14@, self.base15@, self.base16@, self.base17@,
        ]
    }

    /// The palette table's rows.
    pub fn rows(&self) -> (res: Vec<PaletteRow>)
        ensures
            res.len() == 24,
            forall|i: int| 0 <= i < 24 ==> is_palette_row(#[trigger] res@[i], SchemeSystem::Base24, i, self.colours()[i]),
    {
        let hexes = vec![
            self.base00.clone(), self.base01.clone(), self.base02.clone(), self.base03.clone(),
            self.base04.clone(), self.base05.clone(), self.base06.clone(), self.base07.clone(),
            self.base08.clone(), self.base09.clone(), self.base0_a.clone(), self.base0_b.clone(),
            self.base0_c.clone(), self.base0_d.clone(), self.base0_e.clone(), self.base0_f.clone(),
            self.base10.clone(), self.base11.clone(), self.base12.clone(), self.base13.clone(),
            self.base14.clone(), self.base15.clone(), self.base16.clone(), self.base17.clone(),
        ];
        assert(views(hexes@) =~= self.colours());
        let rows = rows_of(SchemeSystem::Base24, hexes);
        assert forall|i: int| 0 <= i < 24 implies is_palette_row(#[trigger] rows@[i], SchemeSystem::Base24, i, self.colours()[i]) by {
            assert(views(hexes@)[i] == hexes@[i]@);
        }
        rows
    }
}

// ---------------------------------------------------------------------------
// Errors.
// ---------------------------------------------------------------------------

/// Why `tinty info` could not report.
pub enum InfoError {
    /// The scheme's directory names no supported system; holds that name and
    /// the scheme file's path.
    UnsupportedSystem(String, String),
    /// A palette colour is not a hex colour; holds the parser's message.
    InvalidHex(String),
    /// The requested name has no known system prefix; holds the prefix and
    /// the name.
    InvalidSchemeSystem(String, String),
    /// No scheme file has the requested name.
    SchemeFileMissing,
    /// There is no custom schemes directory; holds its path.
    NoCustomSchemes(String),
    /// There is no schemes repository; holds its path.
    NoSchemesRepo(String),
}

/// An [`InfoError`] with its strings viewed as character sequences.
pub enum InfoErrorView {
    UnsupportedSystem(Seq<char>, Seq<char>),
    InvalidHex(Seq<char>),
    InvalidSchemeSystem(Seq<char>, Seq<char>),
    SchemeFileMissing,
    NoCustomSchemes(Seq<char>),
    NoSchemesRepo(Seq<char>),
}

impl View for InfoError {
    type V = InfoErrorView;

    open spec fn view(&self) -> InfoErrorView {
        match self {
            InfoError::UnsupportedSystem(s, p) => InfoErrorView::UnsupportedSystem(s@, p@),
            InfoError::InvalidHex(m) => InfoErrorView::InvalidHex(m@),
            InfoError::InvalidSchemeSystem(s, n) => InfoErrorView::InvalidSchemeSystem(s@, n@),
            InfoError::SchemeFileMissing => InfoErrorView::SchemeFileMissing,
            InfoError::NoCustomSchemes(p) => InfoErrorView::NoCustomSchemes(p@),
            InfoError::NoSchemesRepo(p) => InfoErrorView::NoSchemesRepo(p@),
        }
    }
}

/// The message an info error is reported with.
pub open spec fn info_error_message(e: InfoErrorView) -> Seq<char> {
    match e {
        InfoErrorView::UnsupportedSystem(s, p) => "Scheme system is not supported \""@ + s + "\": "@ + p,
        InfoErrorView::InvalidHex(m) => m,
        InfoErrorView::InvalidSchemeSystem(s, n) => "Invalid scheme system: \""@ + s + "\" from scheme name \""@ + n
            + "\"\nMake sure to add the system prefix to the theme name. Eg: base16-oceanicnext\nRun `tinty list` to get a list of scheme names"@,
        InfoErrorView::SchemeFileMissing => "Scheme file does not exist. Perhaps schemes are outdated, try running `tinty update`\nIf the problem persist please create an issue at https://github.com/tinted-theming/tinty/issues"@,
        InfoErrorView::NoCustomSchemes(p) => "You don't have any local custom schemes at: "@ + p,
        InfoErrorView::NoSchemesRepo(p) => "Scheme repo path does not exist: "@ + p + "\nRun `tinty install` and try again"@,
    }
}

impl InfoError {
    /// The message this error is reported with.
    pub fn message(&self) -> (res: String)
        ensures
            res@ == info_error_message(self@),
    {
        let m = match self {
            InfoError::UnsupportedSystem(s, p) => cat3(cat3("Scheme system is not supported \"", s, "\": ").as_str(), p, ""),
            InfoError::InvalidHex(m) => m.clone(),
            InfoError::InvalidSchemeSystem(s, n) => {
                let mut m = cat3("Invalid scheme system: \"", s, "\" from scheme name \"");
                m.append(n);
                m.append("\"\nMake sure to add the system prefix to the theme name. Eg: base16-oceanicnext\nRun `tinty list` to get a list of scheme names");
                m
            },
            InfoError::SchemeFileMissing => "Scheme file does not exist. Perhaps schemes are outdated, try running `tinty update`\nIf the problem persist please create an issue at https://github.com/tinted-theming/tinty/issues".to_string(),
            InfoError::NoCustomSchemes(p) => cat("You don't have any local custom schemes at: ", p),
            InfoError::NoSchemesRepo(p) => cat3("Scheme repo path does not exist: ", p, "\nRun `tinty install` and try again"),
        };
        proof {
            reveal_strlit("");
            assert(m@ =~= info_error_message(self@));
        }
        m
    }
}

// ---------------------------------------------------------------------------
// The report.
// ---------------------------------------------------------------------------

/// The system of a scheme whose file lies in the directory `dir_name` (at
/// `path`): Base16 and Base24 are reported on.
pub fn info_system(dir_name: &str, path: &str) -> (res: Result<SchemeSystem, InfoError>)
    ensures
        dir_name@ == SchemeSystem::Base16.name() ==> res == Ok::<SchemeSystem, InfoError>(SchemeSystem::Base16),
        dir_name@ == SchemeSystem::Base24.name() ==> res == Ok::<SchemeSystem, InfoError>(SchemeSystem::Base24),
        dir_name@ != SchemeSystem::Base16.name() && dir_name@ != SchemeSystem::Base24.name()
            ==> (res matches Err(e) && e@ == InfoErrorView::UnsupportedSystem(dir_name@, path@)),
{
    match SchemeSystem::from_str(dir_name) {
        Some(SchemeSystem::Base16) => Ok(SchemeSystem::Base16),
        Some(SchemeSystem::Base24) => Ok(SchemeSystem::Base24),
        _ => Err(InfoError::UnsupportedSystem(dir_name.to_string(), path.to_string())),
    }
}

/// `n` spaces (none for `n <= 0`).
pub open spec fn spaces(n: int) -> Seq<char> {
    Seq::new(if n > 0 { n as nat } else { 0 }, |i: int| ' ')
}

/// The lines that open the report on a scheme: its system, slug, name,
/// author and path, then the palette table's header.
pub open spec fn header_lines(system: SchemeSystem, slug: Seq<char>, name: Seq<char>, author: Seq<char>, path: Seq<char>) -> Seq<Seq<char>> {
    let base16 = system == SchemeSystem::Base16;
    seq![
        "System: "@ + system.name(),
        "Slug: "@ + slug,
        "Name: "@ + name,
        "Author: "@ + author,
        "Scheme path: "@ + path,
        "| Color       | Name   | Hex     | ANSI "@ + (if base16 { spaces(4) } else { Seq::empty() }) + "|"@,
        "|-------------|--------|---------|------"@ + (if base16 { "----"@ } else { Seq::empty() }) + "|"@,
    ]
}

/// `n` spaces.
fn spaces_exec(n: usize) -> (res: String)
    ensures
        res@ == spaces(n as int),
{
    let mut s = String::new();
    let mut i: usize = 0;
    while i < n
        invariant
            i <= n,
            s@ == spaces(i as int),
        decreases n - i,
    {
        push_char(&mut s, ' ');
        i = i + 1;
        assert(s@ =~= spaces(i as int));
    }
    s
}

/// The lines that open the report on a scheme.
pub fn info_header_lines(system: SchemeSystem, slug: &str, name: &str, author: &str, path: &str) -> (res: Vec<String>)
    ensures
        views(res@) == header_lines(system, slug@, name@, author@, path@),
{
    let base16 = system == SchemeSystem::Base16;
    let mut v: Vec<String> = Vec::new();
    v.push(cat("System: ", system.as_str()));
    v.push(cat("Slug: ", slug));
    v.push(cat("Name: ", name));
    v.push(cat("Author: ", author));
    v.push(cat("Scheme path: ", path));
    let sp = if base16 { spaces_exec(4) } else { String::new() };
    v.push(cat3("| Color       | Name   | Hex     | ANSI ", sp.as_str(), "|"));
    let dash = if base16 { "----".to_string() } else { String::new() };
    v.push(cat3("|-------------|--------|---------|------", dash.as_str(), "|"));
    proof {
        assert(sp@ == (if base16 { spaces(4) } else { Seq::<char>::empty() }));
        assert(views(v@) =~= header_lines(system, slug@, name@, author@, path@));
    }
    v
}

/// A colour's hex value as printed: `#` followed by the value without one
/// leading `#`.
pub open spec fn hex_text(hex: Seq<char>) -> Seq<char> {
    seq!['#'] + if hex.len() > 0 && hex[0] == '#' {
        hex.drop_first()
    } else {
        hex
    }
}

/// The escape sequence that selects an RGB colour as background (`48`) or
/// foreground (`38`).
pub open spec fn rgb_escape(layer: Seq<char>, c: (u8, u8, u8)) -> Seq<char> {
    "\x1B["@ + layer + ";2;"@ + decimal(c.0 as nat) + ";"@ + decimal(c.1 as nat) + ";"@ + decimal(c.2 as nat) + "m"@
}

/// The padding after a row's ANSI column: up to eight characters for
/// Base16, four for Base24.
pub open spec fn ansi_padding(system: SchemeSystem, ansi: Seq<char>) -> Seq<char> {
    match system {
        SchemeSystem::Base16 => spaces(8 - ansi.len()),
        SchemeSystem::Base24 => spaces(4 - ansi.len()),
        _ => Seq::empty(),
    }
}

/// A palette table row as printed: a swatch in the colour, then the
/// colour's name, hex value and ANSI colour(s).
pub open spec fn palette_line(system: SchemeSystem, name: Seq<char>, hex: Seq<char>, c: (u8, u8, u8), ansi: Seq<char>) -> Seq<char> {
    "| "@ + rgb_escape("48"@, c) + rgb_escape("38"@, c) + "           "@ + "\x1B[0m"@ + " | "@ + name + " | "@
        + hex_text(hex) + " | "@ + ansi + " "@ + ansi_padding(system, ansi) + "|"@
}

/// The escape sequence that selects an RGB colour.
fn rgb_escape_exec(layer: &str, c: (u8, u8, u8)) -> (res: String)
    ensures
        res@ == rgb_escape(layer@, c),
{
    let mut s = cat3("\x1B[", layer, ";2;");
    s.append(u64_to_decimal(c.0 as u64).as_str());
    s.append(";");
    s.append(u64_to_decimal(c.1 as u64).as_str());
    s.append(";");
    s.append(u64_to_decimal(c.2 as u64).as_str());
    s.append("m");
    s
}

/// The table line of a palette row, or the hex parser's complaint when the
/// colour is no hex colour.
pub fn palette_row_line(system: SchemeSystem, row: &PaletteRow) -> (res: Result<String, InfoError>)
    ensures
        match hex_rgb(hex_text(row.hex@)) {
            Some(c) => res matches Ok(l) && l@ == palette_line(system, row.name@, row.hex@, c, row.ansi@),
            None => res matches Err(InfoError::InvalidHex(_)),
        },
{
    let v = crate::text::chars_of(row.hex.as_str());
    let rest = if v.len() > 0 && v[0] == '#' {
        crate::text::string_of(&crate::text::slice_chars(&v, 1, v.len()))
    } else {
        row.hex.clone()
    };
    let mut text = String::new();
    push_char(&mut text, '#');
    text.append(rest.as_str());
    proof {
        if v@.len() > 0 && v@[0] == '#' {
            assert(v@.subrange(1, v@.len() as int) =~= v@.drop_first());
        }
        assert(text@ =~= hex_text(row.hex@));
    }
    let c = match parse_hex_color(text.as_str()) {
        Ok(c) => c,
        Err(e) => {
            return Err(InfoError::InvalidHex(hex_color_error_text(&e)));
        },
    };
    let pad = match system {
        SchemeSystem::Base16 => {
            let a = crate::text::chars_of(row.ansi.as_str());
            if a.len() < 8 { spaces_exec(8 - a.len()) } else { spaces_exec(0) }
        },
        SchemeSystem::Base24 => {
            let a = crate::text::chars_of(row.ansi.as_str());
            if a.len() < 4 { spaces_exec(4 - a.len()) } else { spaces_exec(0) }
        },
        _ => String::new(),
    };
    proof {
        assert(pad@ =~= ansi_padding(system, row.ansi@));
    }
    let mut line = cat("| ", rgb_escape_exec("48", c).as_str());
    line.append(rgb_escape_exec("38", c).as_str());
    line.append("           ");
    line.append("\x1B[0m");
    line.append(" | ");
    line.append(row.name.as_str());
    line.append(" | ");
    line.append(text.as_str());
    line.append(" | ");
    line.append(row.ansi.as_str());
    line.append(" ");
    line.append(pad.as_str());
    line.append("|");
    proof {
        assert(line@ =~= palette_line(system, row.name@, row.hex@, c, row.ansi@));
    }
    Ok(line)
}

// ---------------------------------------------------------------------------
// Which scheme files are reported on.
// ---------------------------------------------------------------------------

/// A scheme file found in a system's directory of the schemes directory.
pub struct SchemeFileEntry {
    /// The name of the directory it was found in (the system's name).
    pub dir_name: String,
    /// Its file name.
    pub file_name: String,
    /// Its path, as reported.
    pub path: String,
}

impl View for SchemeFileEntry {
    type V = (Seq<char>, Seq<char>, Seq<char>);

    open spec fn view(&self) -> (Seq<char>, Seq<char>, Seq<char>) {
        (self.dir_name@, self.file_name@, self.path@)
    }
}

/// The views of a sequence of scheme file entries.
pub open spec fn entry_views(v: Seq<SchemeFileEntry>) -> Seq<(Seq<char>, Seq<char>, Seq<char>)> {
    v.map_values(|e: SchemeFileEntry| e@)
}

/// Entry `a` sorts before entry `b`: by directory, then by file name (the
/// order of their paths under one schemes directory).
pub open spec fn entry_lt(a: (Seq<char>, Seq<char>, Seq<char>), b: (Seq<char>, Seq<char>, Seq<char>)) -> bool {
    lex_lt(a.0, b.0) || (a.0 == b.0 && lex_lt(a.1, b.1))
}

/// `x` inserted into `s` after every entry that does not sort after it.
pub open spec fn insert_entry(x: (Seq<char>, Seq<char>, Seq<char>), s: Seq<(Seq<char>, Seq<char>, Seq<char>)>) -> Seq<(Seq<char>, Seq<char>, Seq<char>)>
    decreases s.len(),
{
    if s.len() == 0 {
        seq![x]
    } else if entry_lt(x, s[0]) {
        seq![x] + s
    } else {
        seq![s[0]] + insert_entry(x, s.drop_first())
    }
}

/// `s` stably sorted by `entry_lt`.
pub open spec fn sort_entries(s: Seq<(Seq<char>, Seq<char>, Seq<char>)>) -> Seq<(Seq<char>, Seq<char>, Seq<char>)>
    decreases s.len(),
{
    if s.len() == 0 {
        Seq::empty()
    } else {
        insert_entry(s.last(), sort_entries(s.drop_last()))
    }
}

/// Inserting at the first position whose entry sorts after `x` is
/// `insert_entry`.
proof fn lemma_insert_entry_at(x: (Seq<char>, Seq<char>, Seq<char>), s: Seq<(Seq<char>, Seq<char>, Seq<char>)>, p: int)
    requires
        0 <= p <= s.len(),
        forall|i: int| 0 <= i < p ==> !entry_lt(x, #[trigger] s[i]),
        p < s.len() ==> entry_lt(x, s[p]),
    ensures
        insert_entry(x, s) == s.insert(p, x),
    decreases s.len(),
{
    if s.len() == 0 {
        assert(s.insert(p, x) =~= seq![x]);
    } else if p == 0 {
        assert(s.insert(0, x) =~= seq![x] + s);
    } else {
        let t = s.drop_first();
        assert forall|i: int| 0 <= i < p - 1 implies !entry_lt(x, #[trigger] t[i]) by {
            assert(t[i] == s[i + 1]);
        }
        lemma_insert_entry_at(x, t, p - 1);
        assert(s.insert(p, x) =~= seq![s[0]] + t.insert(p - 1, x));
    }
}

/// Whether entry `a` sorts before entry `b`.
fn entry_lt_exec(a: &SchemeFileEntry, b: &SchemeFileEntry) -> (res: bool)
    ensures
        res == entry_lt(a@, b@),
{
    if str_lt(&a.dir_name, &b.dir_name) {
        true
    } else if str_eq(&a.dir_name, &b.dir_name) {
        str_lt(&a.file_name, &b.file_name)
    } else {
        false
    }
}

/// The scheme files in the order of their paths.
pub fn sort_scheme_files(files: Vec<SchemeFileEntry>) -> (res: Vec<SchemeFileEntry>)
    ensures
        entry_views(res@) == sort_entries(entry_views(files@)),
{
    let mut files = files;
    let ghost orig = entry_views(files@);
    let mut out: Vec<SchemeFileEntry> = Vec::new();
    let mut taken: usize = 0;
    let n = files.len();
    assert(orig.take(0) =~= Seq::empty());
    assert(orig.skip(0) =~= orig);
    assert(entry_views(out@) =~= Seq::empty());
    while files.len() > 0
        invariant
            taken + files.len() == n,
            n == orig.len(),
            entry_views(files@) == orig.skip(taken as int),
            entry_views(out@) == sort_entries(orig.take(taken as int)),
        decreases files.len(),
    {
        let ghost before_files = files@;
        let x = files.remove(0);
        assert(entry_views(before_files)[0] == x@);
        assert(orig.skip(taken as int)[0] == orig[taken as int]);
        assert(entry_views(files@) =~= entry_views(before_files).drop_first());
        assert(orig.skip(taken as int).drop_first() =~= orig.skip(taken + 1));
        let m = out.len();
        let mut p: usize = 0;
        while p < m && !entry_lt_exec(&x, &out[p])
            invariant
                m == out.len(),
                p <= m,
                forall|k: int| 0 <= k < p ==> !entry_lt(x@, #[trigger] entry_views(out@)[k]),
            decreases m - p,
        {
            p = p + 1;
        }
        let ghost before = entry_views(out@);
        proof {
            lemma_insert_entry_at(x@, before, p as int);
        }
        let ghost xv = x@;
        out.insert(p, x);
        assert(entry_views(out@) =~= before.insert(p as int, xv));
        let ghost t = orig.take(taken + 1);
        assert(t.drop_last() =~= orig.take(taken as int));
        assert(t.last() == xv);
        taken = taken + 1;
    }
    assert(orig.take(n as int) =~= orig);
    out
}

/// The system prefix of a requested scheme name: its text before the
/// first `-`.
pub open spec fn name_system(name: Seq<char>) -> Seq<char> {
    split_char(name, '-')[0]
}

/// A requested scheme name without its system prefix.
pub open spec fn name_without_system(name: Seq<char>) -> Seq<char> {
    join(split_char(name, '-').skip(1), seq!['-'])
}

/// The system and the bare name of a requested scheme, or the complaint
/// that its prefix is no known system.
pub fn single_scheme_target(scheme_name: &str) -> (res: Result<(String, String), InfoError>)
    ensures
        SchemeSystem::from_name(name_system(scheme_name@)) is Some ==> (res matches Ok((s, r))
            && s@ == name_system(scheme_name@) && r@ == name_without_system(scheme_name@)),
        SchemeSystem::from_name(name_system(scheme_name@)) is None ==> (res matches Err(e)
            && e@ == InfoErrorView::InvalidSchemeSystem(name_system(scheme_name@), scheme_name@)),
{
    let pieces = str_split_char(scheme_name, '-');
    proof {
        crate::text::lemma_split_char_nonempty(scheme_name@, '-');
        assert(views(pieces@)[0] == pieces@[0]@);
    }
    let system = pieces[0].clone();
    if SchemeSystem::from_str(system.as_str()).is_none() {
        return Err(InfoError::InvalidSchemeSystem(system, scheme_name.to_string()));
    }
    let mut rest: Vec<String> = Vec::new();
    let n = pieces.len();
    let mut i: usize = 1;
    while i < n
        invariant
            n == pieces.len(),
            1 <= i <= n,
            views(rest@) == views(pieces@).subrange(1, i as int),
        decreases n - i,
    {
        let p = pieces[i].clone();
        let ghost before = views(rest@);
        rest.push(p);
        assert(views(rest@) =~= before.push(pieces@[i as int]@));
        assert(views(pieces@).subrange(1, i + 1) =~= views(pieces@).subrange(1, i as int).push(
            views(pieces@)[i as int],
        ));
        i = i + 1;
    }
    assert(views(pieces@).subrange(1, n as int) =~= split_char(scheme_name@, '-').skip(1));
    proof {
        reveal_strlit("-");
        assert("-"@ =~= seq!['-']);
    }
    let bare = join_strings(&rest, "-");
    Ok((system, bare))
}

/// Whether entry `e` is the file of scheme `bare` of system `system`.
pub open spec fn is_requested_file(e: (Seq<char>, Seq<char>, Seq<char>), system: Seq<char>, bare: Seq<char>) -> bool {
    e.0 == system && file_stem(e.1) == bare
}

/// The file chosen for a requested scheme `name` lies in the directory of
/// the requested system: its directory name is the text of `name` before
/// its first '-' (all of `name` when it has none), so a file of another
/// system with the same stem is never taken for it.
pub proof fn law_requested_file_is_in_the_named_system(e: (Seq<char>, Seq<char>, Seq<char>), name: Seq<char>)
    requires
        is_requested_file(e, name_system(name), name_without_system(name)),
    ensures
        e.0.len() <= name.len(),
        name.take(e.0.len() as int) == e.0,
        e.0.len() == name.len() || name[e.0.len() as int] == '-',
        forall|k: int| 0 <= k < e.0.len() ==> e.0[k] != '-',
{
    crate::text::lemma_split_char_first(name, '-');
    assert forall|k: int| 0 <= k < e.0.len() implies e.0[k] != '-' by {
        assert(e.0[k] == split_char(name, '-')[0][k]);
    }
}

/// The first of `files` that is the file of scheme `bare` of `system`.
pub fn find_scheme_file(files: &Vec<SchemeFileEntry>, system: &str, bare: &str) -> (res: Option<usize>)
    ensures
        match res {
            Some(i) => i < files.len() && is_requested_file(files@[i as int]@, system@, bare@)
                && forall|j: int| 0 <= j < i ==> !is_requested_file(#[trigger] files@[j]@, system@, bare@),
            None => forall|j: int| 0 <= j < files.len() ==> !is_requested_file(#[trigger] files@[j]@, system@, bare@),
        },
{
    let n = files.len();
    let mut i: usize = 0;
    while i < n
        invariant
            n == files.len(),
            i <= n,
            forall|j: int| 0 <= j < i ==> !is_requested_file(#[trigger] files@[j]@, system@, bare@),
        decreases n - i,
    {
        if str_eq(files[i].dir_name.as_str(), system) {
            let (stem, _) = split_file_name(files[i].file_name.as_str());
            if str_eq(stem.as_str(), bare) {
                return Some(i);
            }
        }
        i = i + 1;
    }
    None
}

/// Whether a file named `name` is reported on when every scheme is: a
/// `.yaml` file.
pub open spec fn is_yaml_name(name: Seq<char>) -> bool {
    name.len() > 0 && file_extension(name) == Some("yaml"@)
}

/// Whether a file named `name` is reported on when every scheme is.
pub fn is_yaml_file(name: &str) -> (res: bool)
    ensures
        res == is_yaml_name(name@),
{
    let (_, ext) = split_file_name(name);
    match ext {
        Some(e) => str_eq(e.as_str(), "yaml"),
        None => false,
    }
}

/// Whether an entry is reported on when every scheme is.
pub open spec fn yaml_entry() -> spec_fn((Seq<char>, Seq<char>, Seq<char>)) -> bool {
    |e: (Seq<char>, Seq<char>, Seq<char>)| is_yaml_name(e.1)
}

/// The scheme files `tinty info` reports on, and in which order: the files
/// sorted by path; then, when a scheme is named (`requested`, or the
/// current scheme `current` unless every scheme is asked for), that
/// scheme's file; otherwise every `.yaml` file.
pub fn info_selection(files: Vec<SchemeFileEntry>, requested: Option<&str>, current: &str, exhaustive: bool) -> (res: Result<Vec<SchemeFileEntry>, InfoError>)
    ensures
        ({
            let sorted = sort_entries(entry_views(files@));
            if requested is Some || !exhaustive {
                let name = match requested {
                    Some(r) => r@,
                    None => current@,
                };
                if SchemeSystem::from_name(name_system(name)) is None {
                    res matches Err(e) && e@ == InfoErrorView::InvalidSchemeSystem(name_system(name), name)
                } else if exists|i: int| 0 <= i < sorted.len() && is_requested_file(#[trigger] sorted[i], name_system(name), name_without_system(name)) {
                    res matches Ok(v) && v.len() == 1 && is_requested_file(v@[0]@, name_system(name), name_without_system(name))
                        && exists|i: int| 0 <= i < sorted.len() && v@[0]@ == sorted[i]
                            && forall|j: int| 0 <= j < i ==> !is_requested_file(#[trigger] sorted[j], name_system(name), name_without_system(name))
                } else {
                    res matches Err(InfoError::SchemeFileMissing)
                }
            } else {
                res matches Ok(v) && entry_views(v@) == sorted.filter(yaml_entry())
            }
        }),
{
    let sorted = sort_scheme_files(files);
    let ghost sv = entry_views(sorted@);
    if requested.is_some() || !exhaustive {
        let name: &str = match requested {
            Some(r) => r,
            None => current,
        };
        let (system, bare) = single_scheme_target(name)?;
        match find_scheme_file(&sorted, system.as_str(), bare.as_str()) {
            Some(i) => {
                let mut sorted = sorted;
                let e = sorted.remove(i);
                proof {
                    assert(sv[i as int] == e@);
                }
                let mut v: Vec<SchemeFileEntry> = Vec::new();
                v.push(e);
                Ok(v)
            },
            None => {
                proof {
                    assert forall|i: int| 0 <= i < sv.len() implies !is_requested_file(#[trigger] sv[i], system@, bare@) by {
                        assert(sv[i] == sorted@[i]@);
                    }
                }
                Err(InfoError::SchemeFileMissing)
            },
        }
    } else {
        let mut rest = sorted;
        let mut out: Vec<SchemeFileEntry> = Vec::new();
        let ghost pred = yaml_entry();
        let mut k: usize = 0;
        let n = rest.len();
        proof {
            reveal(Seq::filter);
            assert(sv.take(0) =~= Seq::empty());
            assert(entry_views(out@) =~= sv.take(0).filter(pred));
            assert(sv.skip(0) =~= sv);
        }
        while rest.len() > 0
            invariant
                k + rest.len() == n,
                n == sv.len(),
                entry_views(rest@) == sv.skip(k as int),
                entry_views(out@) == sv.take(k as int).filter(pred),
                pred == yaml_entry(),
            decreases rest.len(),
        {
            let ghost before_rest = rest@;
            let e = rest.remove(0);
            assert(entry_views(before_rest)[0] == e@);
            assert(sv.skip(k as int)[0] == sv[k as int]);
            assert(entry_views(rest@) =~= entry_views(before_rest).drop_first());
            assert(sv.skip(k as int).drop_first() =~= sv.skip(k + 1));
            let ghost before = entry_views(out@);
            let keep = is_yaml_file(e.file_name.as_str());
            let ghost ev = e@;
            if keep {
                out.push(e);
            }
            proof {
                reveal(Seq::filter);
                let t = sv.take(k + 1);
                assert(t.drop_last() =~= sv.take(k as int));
                assert(t.last() == ev);
                assert(ev.1 == e.file_name@);
                assert(is_yaml_name(ev.1) == keep);
                assert(pred(ev) == is_yaml_name(ev.1));
                assert(t.filter(pred) == (if pred(t.last()) {
                    t.drop_last().filter(pred).push(t.last())
                } else {
                    t.drop_last().filter(pred)
                }));
                if keep {
                    assert(entry_views(out@) =~= before.push(ev));
                } else {
                    assert(entry_views(out@) =~= before);
                }
            }
            k = k + 1;
        }
        assert(sv.take(n as int) =~= sv);
        Ok(out)
    }
}

/// The schemes directory `tinty info` reads: the custom schemes, or the
/// schemes repository under `repos`.
pub fn info_schemes_dir(data_path: &str, is_custom: bool) -> (res: String)
    ensures
        res@ == if is_custom {
            path_join(data_path@, crate::constants::CUSTOM_SCHEMES_DIR_NAME@)
        } else {
            path_join(data_path@, "repos/schemes"@)
        },
{
    if is_custom {
        join_path(data_path, crate::constants::CUSTOM_SCHEMES_DIR_NAME)
    } else {
        join_path(data_path, "repos/schemes")
    }
}

/// The complaint when the schemes directory `path` does not exist.
pub fn missing_schemes_dir(path: &str, is_custom: bool) -> (res: InfoError)
    ensures
        res@ == if is_custom {
            InfoErrorView::NoCustomSchemes(path@)
        } else {
            InfoErrorView::NoSchemesRepo(path@)
        },
{
    if is_custom {
        InfoError::NoCustomSchemes(path.to_string())
    } else {
        InfoError::NoSchemesRepo(path.to_string())
    }
}

} // verus!

//! Nerd Font icons for file manager entries, chosen by entry kind and by
//! the file name's extension, compared without regard to ASCII case.

use vstd::prelude::*;

use crate::text::{ascii_lower, chars_of, seq_eq, to_ascii_lower};

verus! {
/// Glyph `U+F15B`.
pub const GENERIC: &'static str = "\u{f15b}";
/// Glyph `U+F07B`.
pub const DIR_CLOSED: &'static str = "\u{f07b}";
/// Glyph `U+F07C`.
pub const DIR_OPEN: &'static str = "\u{f07c}";
/// Glyph `U+F15C`.
pub const FILE_TEXT_O: &'static str = "\u{f15c}";
/// Glyph `U+F1C3`.
pub const FILE_CSV: &'static str = "\u{f1c3}";
/// Glyph `U+F489`.
pub const CONSOLE: &'static str = "\u{f489}";
/// Glyph `U+E7A8`.
pub const SETI_RUST: &'static str = "\u{e7a8}";
/// Glyph `U+E73C`.
pub const SETI_PYTHON: &'static str = "\u{e73c}";
/// Glyph `U+E74E`.
pub const SETI_JS: &'static str = "\u{e74e}";
/// Glyph `U+E628`.
pub const SETI_TS: &'static str = "\u{e628}";
/// Glyph `U+E61E`.
pub const SETI_C: &'static str = "\u{e61e}";
/// Glyph `U+E61D`.
pub const SETI_CPP: &'static str = "\u{e61d}";
/// Glyph `U+E738`.
pub const SETI_JAVA: &'static str = "\u{e738}";
/// Glyph `U+E634`.
pub const SETI_KOTLIN: &'static str = "\u{e634}";
/// Glyph `U+E626`.
pub const SETI_GO: &'static str = "\u{e626}";
/// Glyph `U+E739`.
pub const SETI_RUBY: &'static str = "\u{e739}";
/// Glyph `U+E73D`.
pub const SETI_PHP: &'static str = "\u{e73d}";
/// Glyph `U+E67E`.
pub const SETI_PERL: &'static str = "\u{e67e}";
/// Glyph `U+E620`.
pub const SETI_LUA: &'static str = "\u{e620}";
/// Glyph `U+E755`.
pub const SETI_SWIFT: &'static str = "\u{e755}";
/// Glyph `U+E737`.
pub const SETI_SCALA: &'static str = "\u{e737}";
/// Glyph `U+E798`.
pub const SETI_DART: &'static str = "\u{e798}";
/// Glyph `U+E61F`.
pub const SETI_HASKELL: &'static str = "\u{e61f}";
/// Glyph `U+E62D`.
pub const SETI_ELIXIR: &'static str = "\u{e62d}";
/// Glyph `U+E62B`.
pub const SETI_ERLANG: &'static str = "\u{e62b}";
/// Glyph `U+E62C`.
pub const SETI_ELM: &'static str = "\u{e62c}";
/// Glyph `U+E68A`.
pub const SETI_RLANG: &'static str = "\u{e68a}";
/// Glyph `U+E624`.
pub const SETI_JULIA: &'static str = "\u{e624}";
/// Glyph `U+E706`.
pub const SETI_DB: &'static str = "\u{e706}";
/// Glyph `U+E662`.
pub const SETI_GRAPHQL: &'static str = "\u{e662}";
/// Glyph `U+F023`.
pub const LOCK: &'static str = "\u{f023}";
/// Glyph `U+F084`.
pub const KEY: &'static str = "\u{f084}";
/// Glyph `U+E736`.
pub const SETI_HTML: &'static str = "\u{e736}";
/// Glyph `U+E749`.
pub const SETI_CSS: &'static str = "\u{e749}";
/// Glyph `U+E6A0`.
pub const SETI_VUE: &'static str = "\u{e6a0}";
/// Glyph `U+E6A1`.
pub const SETI_SVELTE: &'static str = "\u{e6a1}";
/// Glyph `U+F1C5`.
pub const FILE_IMAGE_O: &'static str = "\u{f1c5}";
/// Glyph `U+E7B4`.
pub const SETI_ILLUSTRATOR: &'static str = "\u{e7b4}";
/// Glyph `U+F1C8`.
pub const FILE_VIDEO_O: &'static str = "\u{f1c8}";
/// Glyph `U+F1C7`.
pub const FILE_AUDIO_O: &'static str = "\u{f1c7}";
/// Glyph `U+F1C6`.
pub const FILE_ARCHIVE_O: &'static str = "\u{f1c6}";
/// Glyph `U+F1C1`.
pub const FILE_PDF_O: &'static str = "\u{f1c1}";
/// Glyph `U+F1C2`.
pub const FILE_WORD_O: &'static str = "\u{f1c2}";
/// Glyph `U+F1C4`.
pub const FILE_EXCEL_O: &'static str = "\u{f1c4}";
/// Glyph `U+F135`.
pub const ROCKET: &'static str = "\u{f135}";
/// Glyph `U+F031`.
pub const FONT: &'static str = "\u{f031}";

/// The kinds of entry that have an icon of their own.
#[derive(Debug, Clone, Copy, PartialEq, Eq, Structural)]
pub enum FileKind {
    Generic,
    DirClosed,
    DirOpen,
    Text,
    Csv,
    Console,
    Rust,
    Python,
    Js,
    Ts,
    C,
    Cpp,
    Java,
    Kotlin,
    Go,
    Ruby,
    Php,
    Perl,
    Lua,
    Swift,
    Scala,
    Dart,
    Haskell,
    Elixir,
    Erlang,
    Elm,
    RLang,
    Julia,
    Database,
    GraphQl,
    Lock,
    Key,
    Html,
    Css,
    Vue,
    Svelte,
    Image,
    Illustrator,
    Video,
    Audio,
    Archive,
    Pdf,
    Word,
    Spreadsheet,
    Executable,
    Font,
}

/// The kind of file an ASCII-lower-case extension stands for.
pub open spec fn kind_of_ext(ext: Seq<char>) -> FileKind {
    if ext == "txt"@ || ext == "md"@ || ext == "rst"@ || ext == "log"@ || ext == "json"@ || ext == "yaml"@ || ext == "yml"@ || ext == "toml"@ || ext == "ini"@ || ext == "conf"@ || ext == "cfg"@ || ext == "xml"@ || ext == "proto"@ {
        FileKind::Text
    } else if ext == "csv"@ || ext == "tsv"@ {
        FileKind::Csv
    } else if ext == "sh"@ || ext == "bash"@ || ext == "zsh"@ || ext == "fish"@ || ext == "ps1"@ || ext == "bat"@ {
        FileKind::Console
    } else if ext == "rs"@ {
        FileKind::Rust
    } else if ext == "py"@ {
        FileKind::Python
    } else if ext == "js"@ || ext == "jsx"@ || ext == "mjs"@ || ext == "cjs"@ {
        FileKind::Js
    } else if ext == "ts"@ || ext == "tsx"@ {
        FileKind::Ts
    } else if ext == "c"@ || ext == "h"@ {
        FileKind::C
    } else if ext == "cpp"@ || ext == "hpp"@ || ext == "cc"@ || ext == "hh"@ {
        FileKind::Cpp
    } else if ext == "java"@ || ext == "jar"@ || ext == "war"@ {
        FileKind::Java
    } else if ext == "kt"@ || ext == "kts"@ {
        FileKind::Kotlin
    } else if ext == "go"@ {
        FileKind::Go
    } else if ext == "rb"@ {
        FileKind::Ruby
    } else if ext == "php"@ {
        FileKind::Php
    } else if ext == "pl"@ {
        FileKind::Perl
    } else if ext == "lua"@ {
        FileKind::Lua
    } else if ext == "swift"@ {
        FileKind::Swift
    } else if ext == "scala"@ {
        FileKind::Scala
    } else if ext == "dart"@ {
        FileKind::Dart
    } else if ext == "hs"@ {
        FileKind::Haskell
    } else if ext == "ex"@ || ext == "exs"@ {
        FileKind::Elixir
    } else if ext == "erl"@ {
        FileKind::Erlang
    } else if ext == "elm"@ {
        FileKind::Elm
    } else if ext == "r"@ {
        FileKind::RLang
    } else if ext == "jl"@ {
        FileKind::Julia
    } else if ext == "sql"@ {
        FileKind::Database
    } else if ext == "graphql"@ {
        FileKind::GraphQl
    } else if ext == "lock"@ {
        FileKind::Lock
    } else if ext == "pem"@ || ext == "key"@ || ext == "crt"@ || ext == "cer"@ || ext == "pub"@ {
        FileKind::Key
    } else if ext == "html"@ || ext == "htm"@ {
        FileKind::Html
    } else if ext == "css"@ || ext == "scss"@ || ext == "sass"@ || ext == "less"@ {
        FileKind::Css
    } else if ext == "vue"@ {
        FileKind::Vue
    } else if ext == "svelte"@ {
        FileKind::Svelte
    } else if ext == "png"@ || ext == "jpg"@ || ext == "jpeg"@ || ext == "gif"@ || ext == "bmp"@ || ext == "svg"@ || ext == "webp"@ || ext == "ico"@ || ext == "tif"@ || ext == "tiff"@ || ext == "eps"@ || ext == "fig"@ {
        FileKind::Image
    } else if ext == "ai"@ {
        FileKind::Illustrator
    } else if ext == "mp4"@ || ext == "mkv"@ || ext == "mov"@ || ext == "avi"@ || ext == "webm"@ || ext == "flv"@ || ext == "wmv"@ || ext == "m4v"@ {
        FileKind::Video
    } else if ext == "mp3"@ || ext == "wav"@ || ext == "flac"@ || ext == "ogg"@ || ext == "m4a"@ || ext == "aac"@ || ext == "opus"@ {
        FileKind::Audio
    } else if ext == "zip"@ || ext == "tar"@ || ext == "gz"@ || ext == "bz2"@ || ext == "xz"@ || ext == "7z"@ || ext == "rar"@ || ext == "tgz"@ || ext == "tbz"@ || ext == "txz"@ || ext == "deb"@ || ext == "rpm"@ || ext == "apk"@ || ext == "iso"@ || ext == "dmg"@ {
        FileKind::Archive
    } else if ext == "pdf"@ {
        FileKind::Pdf
    } else if ext == "doc"@ || ext == "docx"@ || ext == "odt"@ || ext == "rtf"@ {
        FileKind::Word
    } else if ext == "xls"@ || ext == "xlsx"@ || ext == "ods"@ || ext == "ppt"@ || ext == "pptx"@ || ext == "odp"@ {
        FileKind::Spreadsheet
    } else if ext == "exe"@ || ext == "msi"@ || ext == "app"@ || ext == "dll"@ || ext == "so"@ || ext == "dylib"@ || ext == "bin"@ {
        FileKind::Executable
    } else if ext == "ttf"@ || ext == "otf"@ || ext == "woff"@ || ext == "woff2"@ || ext == "eot"@ {
        FileKind::Font
    } else {
        FileKind::Generic
    }
}

fn ext_is(ext: &[char], lit: &str) -> (res: bool)
    ensures
        res == (ext@ == lit@),
{
    seq_eq(ext, &chars_of(lit))
}

/// The icon kind of a lower-cased extension.
fn icon_by_ext(ext: &[char]) -> (res: FileKind)
    ensures
        res == kind_of_ext(ext@),
{
    if ext_is(ext, "txt") || ext_is(ext, "md") || ext_is(ext, "rst") || ext_is(ext, "log") || ext_is(ext, "json") || ext_is(ext, "yaml") || ext_is(ext, "yml") || ext_is(ext, "toml") || ext_is(ext, "ini") || ext_is(ext, "conf") || ext_is(ext, "cfg") || ext_is(ext, "xml") || ext_is(ext, "proto") {
        FileKind::Text
    } else if ext_is(ext, "csv") || ext_is(ext, "tsv") {
        FileKind::Csv
    } else if ext_is(ext, "sh") || ext_is(ext, "bash") || ext_is(ext, "zsh") || ext_is(ext, "fish") || ext_is(ext, "ps1") || ext_is(ext, "bat") {
        FileKind::Console
    } else if ext_is(ext, "rs") {
        FileKind::Rust
    } else if ext_is(ext, "py") {
        FileKind::Python
    } else if ext_is(ext, "js") || ext_is(ext, "jsx") || ext_is(ext, "mjs") || ext_is(ext, "cjs") {
        FileKind::Js
    } else if ext_is(ext, "ts") || ext_is(ext, "tsx") {
        FileKind::Ts
    } else if ext_is(ext, "c") || ext_is(ext, "h") {
        FileKind::C
    } else if ext_is(ext, "cpp") || ext_is(ext, "hpp") || ext_is(ext, "cc") || ext_is(ext, "hh") {
        FileKind::Cpp
    } else if ext_is(ext, "java") || ext_is(ext, "jar") || ext_is(ext, "war") {
        FileKind::Java
    } else if ext_is(ext, "kt") || ext_is(ext, "kts") {
        FileKind::Kotlin
    } else if ext_is(ext, "go") {
        FileKind::Go
    } else if ext_is(ext, "rb") {
        FileKind::Ruby
    } else if ext_is(ext, "php") {
        FileKind::Php
    } else if ext_is(ext, "pl") {
        FileKind::Perl
    } else if ext_is(ext, "lua") {
        FileKind::Lua
    } else if ext_is(ext, "swift") {
        FileKind::Swift
    } else if ext_is(ext, "scala") {
        FileKind::Scala
    } else if ext_is(ext, "dart") {
        FileKind::Dart
    } else if ext_is(ext, "hs") {
        FileKind::Haskell
    } else if ext_is(ext, "ex") || ext_is(ext, "exs") {
        FileKind::Elixir
    } else if ext_is(ext, "erl") {
        FileKind::Erlang
    } else if ext_is(ext, "elm") {
        FileKind::Elm
    } else if ext_is(ext, "r") {
        FileKind::RLang
    } else if ext_is(ext, "jl") {
        FileKind::Julia
    } else if ext_is(ext, "sql") {
        FileKind::Database
    } else if ext_is(ext, "graphql") {
        FileKind::GraphQl
    } else if ext_is(ext, "lock") {
        FileKind::Lock
    } else if ext_is(ext, "pem") || ext_is(ext, "key") || ext_is(ext, "crt") || ext_is(ext, "cer") || ext_is(ext, "pub") {
        FileKind::Key
    } else if ext_is(ext, "html") || ext_is(ext, "htm") {
        FileKind::Html
    } else if ext_is(ext, "css") || ext_is(ext, "scss") || ext_is(ext, "sass") || ext_is(ext, "less") {
        FileKind::Css
    } else if ext_is(ext, "vue") {
        FileKind::Vue
    } else if ext_is(ext, "svelte") {
        FileKind::Svelte
    } else if ext_is(ext, "png") || ext_is(ext, "jpg") || ext_is(ext, "jpeg") || ext_is(ext, "gif") || ext_is(ext, "bmp") || ext_is(ext, "svg") || ext_is(ext, "webp") || ext_is(ext, "ico") || ext_is(ext, "tif") || ext_is(ext, "tiff") || ext_is(ext, "eps") || ext_is(ext, "fig") {
        FileKind::Image
    } else if ext_is(ext, "ai") {
        FileKind::Illustrator
    } else if ext_is(ext, "mp4") || ext_is(ext, "mkv") || ext_is(ext, "mov") || ext_is(ext, "avi") || ext_is(ext, "webm") || ext_is(ext, "flv") || ext_is(ext, "wmv") || ext_is(ext, "m4v") {
        FileKind::Video
    } else if ext_is(ext, "mp3") || ext_is(ext, "wav") || ext_is(ext, "flac") || ext_is(ext, "ogg") || ext_is(ext, "m4a") || ext_is(ext, "aac") || ext_is(ext, "opus") {
        FileKind::Audio
    } else if ext_is(ext, "zip") || ext_is(ext, "tar") || ext_is(ext, "gz") || ext_is(ext, "bz2") || ext_is(ext, "xz") || ext_is(ext, "7z") || ext_is(ext, "rar") || ext_is(ext, "tgz") || ext_is(ext, "tbz") || ext_is(ext, "txz") || ext_is(ext, "deb") || ext_is(ext, "rpm") || ext_is(ext, "apk") || ext_is(ext, "iso") || ext_is(ext, "dmg") {
        FileKind::Archive
    } else if ext_is(ext, "pdf") {
        FileKind::Pdf
    } else if ext_is(ext, "doc") || ext_is(ext, "docx") || ext_is(ext, "odt") || ext_is(ext, "rtf") {
        FileKind::Word
    } else if ext_is(ext, "xls") || ext_is(ext, "xlsx") || ext_is(ext, "ods") || ext_is(ext, "ppt") || ext_is(ext, "pptx") || ext_is(ext, "odp") {
        FileKind::Spreadsheet
    } else if ext_is(ext, "exe") || ext_is(ext, "msi") || ext_is(ext, "app") || ext_is(ext, "dll") || ext_is(ext, "so") || ext_is(ext, "dylib") || ext_is(ext, "bin") {
        FileKind::Executable
    } else if ext_is(ext, "ttf") || ext_is(ext, "otf") || ext_is(ext, "woff") || ext_is(ext, "woff2") || ext_is(ext, "eot") {
        FileKind::Font
    } else {
        FileKind::Generic
    }
}

/// The text of the glyph shown for a kind of entry.
pub open spec fn glyph_text(kind: FileKind) -> Seq<char> {
    match kind {
        FileKind::Generic => "\u{f15b}"@,
        FileKind::DirClosed => "\u{f07b}"@,
        FileKind::DirOpen => "\u{f07c}"@,
        FileKind::Text => "\u{f15c}"@,
        FileKind::Csv => "\u{f1c3}"@,
        FileKind::Console => "\u{f489}"@,
        FileKind::Rust => "\u{e7a8}"@,
        FileKind::Python => "\u{e73c}"@,
        FileKind::Js => "\u{e74e}"@,
        FileKind::Ts => "\u{e628}"@,
        FileKind::C => "\u{e61e}"@,
        FileKind::Cpp => "\u{e61d}"@,
        FileKind::Java => "\u{e738}"@,
        FileKind::Kotlin => "\u{e634}"@,
        FileKind::Go => "\u{e626}"@,
        FileKind::Ruby => "\u{e739}"@,
        FileKind::Php => "\u{e73d}"@,
        FileKind::Perl => "\u{e67e}"@,
        FileKind::Lua => "\u{e620}"@,
        FileKind::Swift => "\u{e755}"@,
        FileKind::Scala => "\u{e737}"@,
        FileKind::Dart => "\u{e798}"@,
        FileKind::Haskell => "\u{e61f}"@,
        FileKind::Elixir => "\u{e62d}"@,
        FileKind::Erlang => "\u{e62b}"@,
        FileKind::Elm => "\u{e62c}"@,
        FileKind::RLang => "\u{e68a}"@,
        FileKind::Julia => "\u{e624}"@,
        FileKind::Database => "\u{e706}"@,
        FileKind::GraphQl => "\u{e662}"@,
        FileKind::Lock => "\u{f023}"@,
        FileKind::Key => "\u{f084}"@,
        FileKind::Html => "\u{e736}"@,
        FileKind::Css => "\u{e749}"@,
        FileKind::Vue => "\u{e6a0}"@,
        FileKind::Svelte => "\u{e6a1}"@,
        FileKind::Image => "\u{f1c5}"@,
        FileKind::Illustrator => "\u{e7b4}"@,
        FileKind::Video => "\u{f1c8}"@,
        FileKind::Audio => "\u{f1c7}"@,
        FileKind::Archive => "\u{f1c6}"@,
        FileKind::Pdf => "\u{f1c1}"@,
        FileKind::Word => "\u{f1c2}"@,
        FileKind::Spreadsheet => "\u{f1c4}"@,
        FileKind::Executable => "\u{f135}"@,
        FileKind::Font => "\u{f031}"@,
    }
}

/// The glyph shown for a kind of entry.
pub fn glyph(kind: FileKind) -> (res: &'static str)
    ensures
        res@ == glyph_text(kind),
{
    match kind {
        FileKind::Generic => GENERIC,
        FileKind::DirClosed => DIR_CLOSED,
        FileKind::DirOpen => DIR_OPEN,
        FileKind::Text => FILE_TEXT_O,
        FileKind::Csv => FILE_CSV,
        FileKind::Console => CONSOLE,
        FileKind::Rust => SETI_RUST,
        FileKind::Python => SETI_PYTHON,
        FileKind::Js => SETI_JS,
        FileKind::Ts => SETI_TS,
        FileKind::C => SETI_C,
        FileKind::Cpp => SETI_CPP,
        FileKind::Java => SETI_JAVA,
        FileKind::Kotlin => SETI_KOTLIN,
        FileKind::Go => SETI_GO,
        FileKind::Ruby => SETI_RUBY,
        FileKind::Php => SETI_PHP,
        FileKind::Perl => SETI_PERL,
        FileKind::Lua => SETI_LUA,
        FileKind::Swift => SETI_SWIFT,
        FileKind::Scala => SETI_SCALA,
        FileKind::Dart => SETI_DART,
        FileKind::Haskell => SETI_HASKELL,
        FileKind::Elixir => SETI_ELIXIR,
        FileKind::Erlang => SETI_ERLANG,
        FileKind::Elm => SETI_ELM,
        FileKind::RLang => SETI_RLANG,
        FileKind::Julia => SETI_JULIA,
        FileKind::Database => SETI_DB,
        FileKind::GraphQl => SETI_GRAPHQL,
        FileKind::Lock => LOCK,
        FileKind::Key => KEY,
        FileKind::Html => SETI_HTML,
        FileKind::Css => SETI_CSS,
        FileKind::Vue => SETI_VUE,
        FileKind::Svelte => SETI_SVELTE,
        FileKind::Image => FILE_IMAGE_O,
        FileKind::Illustrator => SETI_ILLUSTRATOR,
        FileKind::Video => FILE_VIDEO_O,
        FileKind::Audio => FILE_AUDIO_O,
        FileKind::Archive => FILE_ARCHIVE_O,
        FileKind::Pdf => FILE_PDF_O,
        FileKind::Word => FILE_WORD_O,
        FileKind::Spreadsheet => FILE_EXCEL_O,
        FileKind::Executable => ROCKET,
        FileKind::Font => FONT,
    }
}

/// The index of the last `.` in `s`, or -1 when there is none.
pub open spec fn last_dot(s: Seq<char>) -> int
    decreases s.len(),
{
    if s.len() == 0 {
        -1
    } else if s.last() == '.' {
        s.len() - 1
    } else {
        last_dot(s.drop_last())
    }
}

/// The kind of icon for an entry named `name`: directories by whether they
/// are `..`; files by their ASCII-lower-cased extension, where a name
/// without a dot, or whose only dot leads it, has none.
pub open spec fn kind_for(name: Seq<char>, is_dir: bool) -> FileKind {
    if is_dir {
        if name == ".."@ {
            FileKind::DirOpen
        } else {
            FileKind::DirClosed
        }
    } else if last_dot(name) <= 0 {
        FileKind::Generic
    } else {
        kind_of_ext(name.skip(last_dot(name) + 1).map_values(|c: char| ascii_lower(c)))
    }
}

/// The kind of icon for an entry named `name`.
pub fn icon_kind(name: &str, is_dir: bool) -> (res: FileKind)
    ensures
        res == kind_for(name@, is_dir),
{
    let cs = chars_of(name);
    if is_dir {
        if seq_eq(&cs, &chars_of("..")) {
            return FileKind::DirOpen;
        }
        return FileKind::DirClosed;
    }
    let mut n: usize = cs.len();
    assert(cs@.take(n as int) =~= cs@);
    while n > 0 && cs[n - 1] != '.'
        invariant
            n <= cs.len(),
            last_dot(cs@) == last_dot(cs@.take(n as int)),
        decreases n,
    {
        assert(cs@.take(n as int).drop_last() =~= cs@.take(n - 1));
        n = n - 1;
    }
    if n <= 1 {
        proof {
            if n == 1 {
                assert(cs@.take(1).last() == '.');
            }
        }
        return FileKind::Generic;
    }
    assert(cs@.take(n as int).last() == '.');
    assert(last_dot(cs@) == n - 1);
    let mut ext: Vec<char> = Vec::new();
    let mut i: usize = n;
    while i < cs.len()
        invariant
            n <= i <= cs.len(),
            ext@ == cs@.subrange(n as int, i as int).map_values(|c: char| ascii_lower(c)),
        decreases cs.len() - i,
    {
        let ghost before = ext@;
        ext.push(to_ascii_lower(cs[i]));
        assert(cs@.subrange(n as int, i + 1) =~= cs@.subrange(n as int, i as int).push(cs@[i as int]));
        assert(ext@ =~= cs@.subrange(n as int, i + 1).map_values(|c: char| ascii_lower(c)));
        i = i + 1;
    }
    assert(cs@.subrange(n as int, cs.len() as int) =~= cs@.skip(n as int));
    icon_by_ext(&ext)
}

/// The Nerd Font glyph for an entry: folder glyphs for directories (open
/// for `..`), else by the file's extension, in any letter case.
pub fn icon_for(name: &str, is_dir: bool) -> (res: &'static str)
    ensures
        res@ == glyph_text(kind_for(name@, is_dir)),
{
    glyph(icon_kind(name, is_dir))
}

/// Lower-casing keeps a dot and makes no other character one.
proof fn lemma_lower_dot(c: char)
    ensures
        (ascii_lower(c) == '.') == (c == '.'),
{
}

proof fn lemma_last_dot_lower(a: Seq<char>, b: Seq<char>)
    requires
        a.map_values(|c: char| ascii_lower(c)) == b.map_values(|c: char| ascii_lower(c)),
    ensures
        last_dot(a) == last_dot(b),
        -1 <= last_dot(a) < a.len(),
    decreases a.len(),
{
    let la = a.map_values(|c: char| ascii_lower(c));
    let lb = b.map_values(|c: char| ascii_lower(c));
    assert(a.len() == la.len() && b.len() == lb.len());
    if a.len() > 0 {
        assert(la[a.len() - 1] == lb[a.len() - 1]);
        lemma_lower_dot(a.last());
        lemma_lower_dot(b.last());
        assert(a.drop_last().map_values(|c: char| ascii_lower(c)) =~= la.drop_last());
        assert(b.drop_last().map_values(|c: char| ascii_lower(c)) =~= lb.drop_last());
        lemma_last_dot_lower(a.drop_last(), b.drop_last());
    }
}

/// Icons do not depend on letter case: two names equal up to ASCII case get
/// the same icon.
pub proof fn lemma_icon_case_insensitive(a: Seq<char>, b: Seq<char>, is_dir: bool)
    requires
        a.map_values(|c: char| ascii_lower(c)) == b.map_values(|c: char| ascii_lower(c)),
    ensures
        kind_for(a, is_dir) == kind_for(b, is_dir),
{
    let la = a.map_values(|c: char| ascii_lower(c));
    let lb = b.map_values(|c: char| ascii_lower(c));
    assert(a.len() == la.len() && b.len() == lb.len());
    lemma_last_dot_lower(a, b);
    let d = last_dot(a);
    if d > 0 {
        assert(a.skip(d + 1).map_values(|c: char| ascii_lower(c)) =~= la.skip(d + 1));
        assert(b.skip(d + 1).map_values(|c: char| ascii_lower(c)) =~= lb.skip(d + 1));
    }
    reveal_strlit("..");
    if a == ".."@ || b == ".."@ {
        assert forall|i: int| 0 <= i < a.len() implies a[i] == b[i] by {
            assert(la[i] == lb[i]);
            lemma_lower_dot(a[i]);
            lemma_lower_dot(b[i]);
        }
        assert(a =~= b);
    }
}

} // verus!

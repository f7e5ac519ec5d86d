use crate::escape::{
    encode_safe, escape_safe, lemma_escape_has_no_markup, lemma_escape_round_trip, unescape,
};
use crate::strings::{decimal, join2, str_eq, u64_text};
use vstd::prelude::*;
use vstd::string::*;

verus! {

/// Properties of the image-embed fragment.
#[derive(Debug, Clone, PartialEq, Eq)]
pub struct ImgProp {
    pub url: String,
}

/// The MIME type that some browsers do not recognise for audio.
pub const OPUS_OGG: &'static str = "audio/x-opus+ogg";

/// What browsers are told in its place.
pub const OGG_AUDIO: &'static str = "audio/ogg";

/// The MIME type shown and embedded for `mime`.
pub open spec fn friendly_mime(mime: Seq<char>) -> Seq<char> {
    if mime == OPUS_OGG@ {
        OGG_AUDIO@
    } else {
        mime
    }
}

/// The browser-friendly form of a MIME type: the opus-in-ogg type becomes the
/// generic ogg-audio type, every other type is returned as given.
pub fn html_friendly_mime(mime: &str) -> (r: &str)
    ensures
        r@ == friendly_mime(mime@),
{
    if str_eq(mime, OPUS_OGG) {
        OGG_AUDIO
    } else {
        mime
    }
}

pub const AUDIO_OPEN: &'static str = "<audio controls autoplay id=\"audio\">\n  <source src=\"";

pub const AUDIO_TYPE: &'static str = "\" type=\"";

pub const AUDIO_CLOSE: &'static str =
    "\">\nYour browser does not support the audio element.\n</audio>";

/// The audio-player fragment for a source URL and its MIME type.
pub open spec fn audio_markup(mime: Seq<char>, url: Seq<char>) -> Seq<char> {
    AUDIO_OPEN@ + escape_safe(url) + AUDIO_TYPE@ + escape_safe(friendly_mime(mime))
        + AUDIO_CLOSE@
}

/// Renders the audio player for `url`, announcing the browser-friendly form
/// of `mime`.
pub fn audio(mime: &str, url: &str) -> (r: String)
    ensures
        r@ == audio_markup(mime@, url@),
{
    let mut r = String::from_str(AUDIO_OPEN);
    let u = encode_safe(url);
    r.append(u.as_str());
    r.append(AUDIO_TYPE);
    let m = encode_safe(html_friendly_mime(mime));
    r.append(m.as_str());
    r.append(AUDIO_CLOSE);
    r
}

pub const VIDEO_OPEN: &'static str = "<video id=\"player\" controls>\n    <source src=\"";

pub const VIDEO_CLOSE: &'static str = "\">\nYour browser does not support the video tag.\n</video> ";

/// The video-player fragment for a source URL.
pub open spec fn video_markup(url: Seq<char>) -> Seq<char> {
    VIDEO_OPEN@ + escape_safe(url) + VIDEO_CLOSE@
}

/// Renders the video player for `url`.
pub fn video(url: &str) -> (r: String)
    ensures
        r@ == video_markup(url@),
{
    let mut r = String::from_str(VIDEO_OPEN);
    let u = encode_safe(url);
    r.append(u.as_str());
    r.append(VIDEO_CLOSE);
    r
}

pub const TEX_CSS: &'static str =
    "<link href=\"/static/css/prism/tex.css\" rel=\"stylesheet\" /><script src=\"/static/scripts/prism/tex.js\"></script>";

pub const RUST_CSS: &'static str =
    "<link href=\"/static/css/prism/rust.css\" rel=\"stylesheet\" /><script src=\"/static/scripts/prism/rust.js\"></script>";

pub const MD_CSS: &'static str =
    "<link href=\"/static/css/prism/md.css\" rel=\"stylesheet\" /><script src=\"/static/scripts/prism/md.js\"></script>";

pub const PLAIN_CSS: &'static str =
    "<link href=\"/static/css/prism/plain.css\" rel=\"stylesheet\" /><script src=\"/static/scripts/prism/plain.js\"></script>";

/// The highlighter language class for a file extension.
pub open spec fn highlight_class(ext: Seq<char>) -> Seq<char> {
    if ext == "tex"@ {
        "latex"@
    } else if ext == "rs"@ {
        "rust"@
    } else if ext == "md"@ {
        "markdown"@
    } else {
        "text"@
    }
}

/// The highlighter stylesheet and script for a file extension.
pub open spec fn highlight_assets(ext: Seq<char>) -> Seq<char> {
    if ext == "tex"@ {
        TEX_CSS@
    } else if ext == "rs"@ {
        RUST_CSS@
    } else if ext == "md"@ {
        MD_CSS@
    } else {
        PLAIN_CSS@
    }
}

pub const TEXT_OPEN: &'static str = "<pre id=\"display\" class=\"line-numbers\"><code class=\"language-";

pub const TEXT_MID: &'static str = "\">";

pub const TEXT_CLOSE: &'static str = "</code></pre>";

/// The opening tags of a text display, up to the text itself.
pub open spec fn text_open(ext: Seq<char>) -> Seq<char> {
    TEXT_OPEN@ + highlight_class(ext) + TEXT_MID@
}

/// The text display of `content`, read from a file with extension `ext`.
pub open spec fn text_markup(ext: Seq<char>, content: Seq<char>) -> Seq<char> {
    text_open(ext) + escape_safe(content) + TEXT_CLOSE@
}

/// Renders the content of a text or source file as a highlight-ready block,
/// with the highlighter's stylesheet and script for its extension (the plain
/// one for an extension that has none).
pub fn text(ext: &str, content: &str) -> (r: (String, &'static str))
    ensures
        r.0@ == text_markup(ext@, content@),
        r.1@ == highlight_assets(ext@),
{
    let (class, css) = if str_eq(ext, "tex") {
        ("latex", TEX_CSS)
    } else if str_eq(ext, "rs") {
        ("rust", RUST_CSS)
    } else if str_eq(ext, "md") {
        ("markdown", MD_CSS)
    } else {
        ("text", PLAIN_CSS)
    };
    let mut r = String::from_str(TEXT_OPEN);
    r.append(class);
    r.append(TEXT_MID);
    let c = encode_safe(content);
    r.append(c.as_str());
    r.append(TEXT_CLOSE);
    (r, css)
}

pub const IMG_CSS_LINK: &'static str = "<link rel=\"stylesheet\" href=\"/static/css/img.css\" />";

pub const AUDIO_CSS_LINK: &'static str = "<link rel=\"stylesheet\" href=\"/static/css/audio.css\" />";

pub const HTML_CSS: &'static str = "<link href=\"/static/css/html.css\" rel=\"stylesheet\" />";

/// Serves HTML content as it is, with its stylesheet.
pub fn html(content: String) -> (r: (String, &'static str))
    ensures
        r.0@ == content@,
        r.1@ == HTML_CSS@,
{
    (content, HTML_CSS)
}

pub const KIB: u64 = 1024;

pub const MIB: u64 = 1048576;

pub const GIB: u64 = 1073741824;

pub const TIB: u64 = 1099511627776;

/// `n` in units of `unit`, with one decimal place, cut rather than rounded.
pub open spec fn scaled(n: nat, unit: nat) -> Seq<char>
    recommends
        unit > 0,
{
    decimal(n / unit) + "."@ + decimal((n % unit) * 10 / unit)
}

/// A byte count as people read it: whole bytes below one kibibyte, else in
/// the largest binary unit it reaches, up to tebibytes.
pub open spec fn size_text(n: nat) -> Seq<char> {
    if n < KIB {
        decimal(n) + " B"@
    } else if n < MIB {
        scaled(n, KIB as nat) + " KiB"@
    } else if n < GIB {
        scaled(n, MIB as nat) + " MiB"@
    } else if n < TIB {
        scaled(n, GIB as nat) + " GiB"@
    } else {
        scaled(n, TIB as nat) + " TiB"@
    }
}

fn scaled_text(n: u64, unit: u64, suffix: &str) -> (r: String)
    requires
        0 < unit <= TIB,
    ensures
        r@ == scaled(n as nat, unit as nat) + suffix@,
{
    let mut r = u64_text(n / unit);
    r.append(".");
    let tenth = (n % unit) * 10 / unit;
    let t = u64_text(tenth);
    r.append(t.as_str());
    r.append(suffix);
    r
}

/// Formats a byte count for people.
pub fn size(n: u64) -> (r: String)
    ensures
        r@ == size_text(n as nat),
{
    if n < KIB {
        let mut r = u64_text(n);
        r.append(" B");
        r
    } else if n < MIB {
        scaled_text(n, KIB, " KiB")
    } else if n < GIB {
        scaled_text(n, MIB, " MiB")
    } else if n < TIB {
        scaled_text(n, GIB, " GiB")
    } else {
        scaled_text(n, TIB, " TiB")
    }
}

/// The caption under a file display: its browser-friendly MIME type and its
/// size, escaped.
pub open spec fn caption_markup(mime: Seq<char>, n: nat) -> Seq<char> {
    escape_safe(friendly_mime(mime) + " "@ + size_text(n))
}

/// Renders the caption of a file of type `mime` and `n` bytes.
pub fn caption(mime: &str, n: u64) -> (r: String)
    ensures
        r@ == caption_markup(mime@, n as nat),
{
    let mut raw = join2(html_friendly_mime(mime), " ");
    let s = size(n);
    raw.append(s.as_str());
    encode_safe(raw.as_str())
}

/// The content of a text file comes back whole from its display: the text
/// between the opening tags and `</code>` holds no tag and reads back, as
/// markup text, as the file's own characters, `<`, `&` and `"` included.
pub proof fn lemma_text_display_decodes(ext: Seq<char>, content: Seq<char>)
    ensures
        text_markup(ext, content) == text_open(ext) + escape_safe(content) + TEXT_CLOSE@,
        unescape(escape_safe(content)) == content,
        !escape_safe(content).contains('<'),
{
    lemma_escape_round_trip(content);
    lemma_escape_has_no_markup(content);
}

/// The caption reads back as the browser-friendly MIME type and the size: the
/// opus-in-ogg type shows as the generic ogg-audio type, any other type as it
/// is.
pub proof fn lemma_caption_mime(mime: Seq<char>, n: nat)
    ensures
        unescape(caption_markup(mime, n)) == friendly_mime(mime) + " "@ + size_text(n),
        mime == OPUS_OGG@ ==> friendly_mime(mime) == OGG_AUDIO@,
        mime != OPUS_OGG@ ==> friendly_mime(mime) == mime,
{
    lemma_escape_round_trip(friendly_mime(mime) + " "@ + size_text(n));
}

} // verus!

//! Encoding resolution and byte decoding: mapping a clipboard target name
//! to a canonical charset label, and turning raw bytes plus a label into
//! text.
use vstd::prelude::*;

use crate::chars::{lower_of, lowercase, str_eq};

verus! {

/// Whether `mime::Mime::from_str` parses the string.
pub uninterp spec fn mime_parses(s: Seq<char>) -> bool;

/// The value `Mime::get_param` yields for the `charset` parameter of the
/// parsed string, if any.
pub uninterp spec fn mime_charset_of(s: Seq<char>) -> Option<Seq<char>>;

/// The top-level type `Mime::type_` yields for the parsed string.
pub uninterp spec fn mime_type_of(s: Seq<char>) -> Seq<char>;

/// What the mime crate reports about one target name.
pub struct MimeInfo {
    /// Whether the name parses as a MIME type.
    pub parses: bool,
    /// The `charset` parameter value, when present.
    pub charset: Option<String>,
    /// The top-level type, when the name parses.
    pub top_type: Option<String>,
}

/// Relies on `mime::Mime::from_str`, `Mime::get_param(mime::CHARSET)` and
/// `Mime::type_`: each result depends on the input characters alone.
#[verifier::external_body]
fn parse_mime(s: &str) -> (r: MimeInfo)
    ensures
        r.parses == mime_parses(s@),
        mime_parses(s@) ==> r.charset.deep_view() == mime_charset_of(s@),
        mime_parses(s@) ==> (match r.top_type {
            Some(t) => t@ == mime_type_of(s@),
            None => false,
        }),
        !mime_parses(s@) ==> r.charset is None && r.top_type is None,
{
    match <mime::Mime as std::str::FromStr>::from_str(s) {
        Ok(m) => MimeInfo {
            parses: true,
            charset: m.get_param(mime::CHARSET).map(|n| n.as_str().to_owned()),
            top_type: Some(m.type_().as_str().to_owned()),
        },
        Err(_) => MimeInfo { parses: false, charset: None, top_type: None },
    }
}

/// The canonical charset label for a recognized `charset` parameter value.
pub open spec fn charset_for(cs: Seq<char>) -> Option<Seq<char>> {
    if cs == "utf-8"@ {
        Some("utf-8"@)
    } else if cs == "utf-16le"@ {
        Some("utf-16le"@)
    } else if cs == "utf-16be"@ {
        Some("utf-16be"@)
    } else if cs == "utf-16"@ || cs == "unicode"@ {
        Some("utf-16"@)
    } else if cs == "iso-8859-1"@ {
        Some("iso-8859-1"@)
    } else if cs == "iso-8859-15"@ {
        Some("iso-8859-15"@)
    } else if cs == "us-ascii"@ {
        Some("us-ascii"@)
    } else {
        None
    }
}

/// The charset label for an already-lowercased target name. `UTF8_STRING`
/// is UTF-8; the untyped `STRING` and `TEXT` targets are Latin-1 by the
/// ICCCM convention. Any other name is read as a MIME type: its
/// recognized `charset` parameter decides; with no parameter, a `text`
/// type defaults to UTF-8; a name that does not parse at all defaults to
/// UTF-8; everything else resolves to nothing.
pub open spec fn spec_resolve_lowered(t: Seq<char>) -> Option<Seq<char>> {
    if t == "utf8_string"@ {
        Some("utf-8"@)
    } else if t == "string"@ || t == "text"@ {
        Some("iso-8859-1"@)
    } else if !mime_parses(t) {
        Some("utf-8"@)
    } else if mime_charset_of(t) is Some {
        charset_for(mime_charset_of(t)->0)
    } else if mime_type_of(t) == "text"@ {
        Some("utf-8"@)
    } else {
        None
    }
}

/// The charset label for a lowercased target name; see
/// [`spec_resolve_lowered`].
pub fn resolve_lowered(target: &str) -> (r: Option<&'static str>)
    ensures
        r.deep_view() == spec_resolve_lowered(target@),
{
    if str_eq(target, "utf8_string") {
        Some("utf-8")
    } else if str_eq(target, "string") || str_eq(target, "text") {
        Some("iso-8859-1")
    } else {
        let info = parse_mime(target);
        if !info.parses {
            Some("utf-8")
        } else {
            match info.charset {
                Some(cs) => {
                    if str_eq(cs.as_str(), "utf-8") {
                        Some("utf-8")
                    } else if str_eq(cs.as_str(), "utf-16le") {
                        Some("utf-16le")
                    } else if str_eq(cs.as_str(), "utf-16be") {
                        Some("utf-16be")
                    } else if str_eq(cs.as_str(), "utf-16") || str_eq(cs.as_str(), "unicode") {
                        Some("utf-16")
                    } else if str_eq(cs.as_str(), "iso-8859-1") {
                        Some("iso-8859-1")
                    } else if str_eq(cs.as_str(), "iso-8859-15") {
                        Some("iso-8859-15")
                    } else if str_eq(cs.as_str(), "us-ascii") {
                        Some("us-ascii")
                    } else {
                        None
                    }
                },
                None => {
                    match info.top_type {
                        Some(t) => {
                            if str_eq(t.as_str(), "text") {
                                Some("utf-8")
                            } else {
                                None
                            }
                        },
                        None => None,
                    }
                },
            }
        }
    }
}

/// The charset label for a clipboard target name, compared
/// case-insensitively; see [`spec_resolve_lowered`].
pub fn resolve_target_encoding(target: &str) -> (r: Option<&'static str>)
    ensures
        r.deep_view() == spec_resolve_lowered(lower_of(target@)),
{
    let lowered = lowercase(target);
    resolve_lowered(lowered.as_str())
}

/// The characters the encoding crate's UTF-16LE decoder produces for the
/// bytes under the replacement policy (invalid units become U+FFFD).
pub uninterp spec fn utf16le_replace_of(bytes: Seq<u8>) -> Seq<char>;

/// The characters the encoding crate's UTF-16BE decoder produces for the
/// bytes under the replacement policy (invalid units become U+FFFD).
pub uninterp spec fn utf16be_replace_of(bytes: Seq<u8>) -> Seq<char>;

/// Relies on encoding's `UTF_16LE` decoder with `DecoderTrap::Replace`,
/// which never fails: the trap turns every error into U+FFFD. The result
/// depends on the bytes alone.
#[verifier::external_body]
fn utf16le_decode(bytes: &Vec<u8>) -> (r: String)
    ensures
        r@ == utf16le_replace_of(bytes@),
{
    match encoding::Encoding::decode(
        encoding::all::UTF_16LE,
        bytes.as_slice(),
        encoding::DecoderTrap::Replace,
    ) {
        Ok(s) => s,
        Err(_) => String::new(),
    }
}

/// Relies on encoding's `UTF_16BE` decoder with `DecoderTrap::Replace`,
/// which never fails: the trap turns every error into U+FFFD. The result
/// depends on the bytes alone.
#[verifier::external_body]
fn utf16be_decode(bytes: &Vec<u8>) -> (r: String)
    ensures
        r@ == utf16be_replace_of(bytes@),
{
    match encoding::Encoding::decode(
        encoding::all::UTF_16BE,
        bytes.as_slice(),
        encoding::DecoderTrap::Replace,
    ) {
        Ok(s) => s,
        Err(_) => String::new(),
    }
}

/// The character ISO-8859-1 assigns to a byte: the code point equal to the
/// byte value.
pub open spec fn latin1_char(b: u8) -> char {
    b as char
}

/// The character ISO-8859-15 assigns to a byte: as ISO-8859-1 except for
/// the eight positions revised by that standard.
pub open spec fn latin9_char(b: u8) -> char {
    if b == 0xA4 {
        '\u{20ac}'
    } else if b == 0xA6 {
        '\u{160}'
    } else if b == 0xA8 {
        '\u{161}'
    } else if b == 0xB4 {
        '\u{17d}'
    } else if b == 0xB8 {
        '\u{17e}'
    } else if b == 0xBC {
        '\u{152}'
    } else if b == 0xBD {
        '\u{153}'
    } else if b == 0xBE {
        '\u{178}'
    } else {
        b as char
    }
}

/// The character the ASCII decoder produces for a byte under the
/// replacement policy: the byte itself below 0x80, U+FFFD otherwise.
pub open spec fn ascii_replace_char(b: u8) -> char {
    if b < 0x80 {
        b as char
    } else {
        '\u{fffd}'
    }
}

/// Relies on encoding's `ISO_8859_1` decoder with `DecoderTrap::Replace`:
/// its forward table maps every byte to the code point of the same value,
/// so decoding never fails.
#[verifier::external_body]
fn latin1_decode(bytes: &Vec<u8>) -> (r: String)
    ensures
        r@ == bytes@.map_values(|b: u8| latin1_char(b)),
{
    match encoding::Encoding::decode(
        encoding::all::ISO_8859_1,
        bytes.as_slice(),
        encoding::DecoderTrap::Replace,
    ) {
        Ok(s) => s,
        Err(_) => String::new(),
    }
}

/// Relies on encoding's `ISO_8859_15` decoder with `DecoderTrap::Replace`:
/// its forward table maps every byte to a code point (the byte value,
/// except for the eight revised positions), so decoding never fails.
#[verifier::external_body]
fn latin9_decode(bytes: &Vec<u8>) -> (r: String)
    ensures
        r@ == bytes@.map_values(|b: u8| latin9_char(b)),
{
    match encoding::Encoding::decode(
        encoding::all::ISO_8859_15,
        bytes.as_slice(),
        encoding::DecoderTrap::Replace,
    ) {
        Ok(s) => s,
        Err(_) => String::new(),
    }
}

/// Relies on encoding's `ASCII` decoder with `DecoderTrap::Replace`: bytes
/// below 0x80 pass through, every other byte becomes one U+FFFD.
#[verifier::external_body]
fn ascii_decode(bytes: &Vec<u8>) -> (r: String)
    ensures
        r@ == bytes@.map_values(|b: u8| ascii_replace_char(b)),
{
    match encoding::Encoding::decode(
        encoding::all::ASCII,
        bytes.as_slice(),
        encoding::DecoderTrap::Replace,
    ) {
        Ok(s) => s,
        Err(_) => String::new(),
    }
}

/// Relies on `String::from_utf8`: it succeeds exactly on valid UTF-8 and
/// returns the decoded characters.
#[verifier::external_body]
fn utf8_decode(bytes: &Vec<u8>) -> (r: Option<String>)
    ensures
        match r {
            Some(s) => vstd::utf8::valid_utf8(bytes@) && s@ == vstd::utf8::decode_utf8(bytes@),
            None => !vstd::utf8::valid_utf8(bytes@),
        },
{
    String::from_utf8(bytes.clone()).ok()
}

/// Relies on `u16::from_ne_bytes`: the result reflects the machine's byte
/// order, of which nothing is promised.
#[verifier::external_body]
fn native_big_endian() -> bool {
    u16::from_ne_bytes([1, 0]) != 1
}

/// The bytes from index `from` on.
fn vec_tail(v: &Vec<u8>, from: usize) -> (r: Vec<u8>)
    requires
        from <= v@.len(),
    ensures
        r@ == v@.skip(from as int),
{
    let mut r: Vec<u8> = Vec::new();
    let mut i: usize = from;
    while i < v.len()
        invariant
            from <= i <= v@.len(),
            r@ == v@.subrange(from as int, i as int),
        decreases v@.len() - i,
    {
        r.push(v[i]);
        proof {
            assert(r@ =~= v@.subrange(from as int, (i + 1) as int));
        }
        i += 1;
    }
    proof {
        assert(r@ =~= v@.skip(from as int));
    }
    r
}

/// The text a lowercased charset label and a byte buffer decode to, given
/// the machine's byte order. UTF-8 is decoded strictly (`None` on invalid
/// input); the fixed-endianness UTF-16 labels and the single-byte charsets
/// decode under the replacement policy; the generic `utf-16`/`unicode`
/// label consumes a leading byte-order mark, falls back to the machine's
/// byte order without one, and fails on fewer than two bytes; an unknown
/// label decodes to nothing.
pub open spec fn spec_decode(label: Seq<char>, bytes: Seq<u8>, native_big: bool) -> Option<
    Seq<char>,
> {
    if label == "utf-8"@ {
        if vstd::utf8::valid_utf8(bytes) {
            Some(vstd::utf8::decode_utf8(bytes))
        } else {
            None
        }
    } else if label == "utf-16le"@ {
        Some(utf16le_replace_of(bytes))
    } else if label == "utf-16be"@ {
        Some(utf16be_replace_of(bytes))
    } else if label == "utf-16"@ || label == "unicode"@ {
        if bytes.len() < 2 {
            None
        } else if bytes[0] == 0xFE && bytes[1] == 0xFF {
            Some(utf16be_replace_of(bytes.skip(2)))
        } else if bytes[0] == 0xFF && bytes[1] == 0xFE {
            Some(utf16le_replace_of(bytes.skip(2)))
        } else if native_big {
            Some(utf16be_replace_of(bytes))
        } else {
            Some(utf16le_replace_of(bytes))
        }
    } else if label == "iso-8859-1"@ {
        Some(bytes.map_values(|b: u8| latin1_char(b)))
    } else if label == "iso-8859-15"@ {
        Some(bytes.map_values(|b: u8| latin9_char(b)))
    } else if label == "us-ascii"@ || label == "ascii"@ {
        Some(bytes.map_values(|b: u8| ascii_replace_char(b)))
    } else {
        None
    }
}

/// Decodes `bytes` under an already-lowercased charset label, taking the
/// machine's byte order as an argument; see [`spec_decode`].
pub fn decode_with_byte_order(label: &str, bytes: &Vec<u8>, native_big: bool) -> (r: Option<
    String,
>)
    ensures
        r.deep_view() == spec_decode(label@, bytes@, native_big),
{
    if str_eq(label, "utf-8") {
        utf8_decode(bytes)
    } else if str_eq(label, "utf-16le") {
        Some(utf16le_decode(bytes))
    } else if str_eq(label, "utf-16be") {
        Some(utf16be_decode(bytes))
    } else if str_eq(label, "utf-16") || str_eq(label, "unicode") {
        if bytes.len() < 2 {
            None
        } else if bytes[0] == 0xFE && bytes[1] == 0xFF {
            let rest = vec_tail(bytes, 2);
            Some(utf16be_decode(&rest))
        } else if bytes[0] == 0xFF && bytes[1] == 0xFE {
            let rest = vec_tail(bytes, 2);
            Some(utf16le_decode(&rest))
        } else if native_big {
            Some(utf16be_decode(bytes))
        } else {
            Some(utf16le_decode(bytes))
        }
    } else if str_eq(label, "iso-8859-1") {
        Some(latin1_decode(bytes))
    } else if str_eq(label, "iso-8859-15") {
        Some(latin9_decode(bytes))
    } else if str_eq(label, "us-ascii") || str_eq(label, "ascii") {
        Some(ascii_decode(bytes))
    } else {
        None
    }
}

/// Decodes `bytes` under a charset label, compared case-insensitively.
/// The machine's byte order decides only the generic `utf-16`/`unicode`
/// label without a byte-order mark; every other case is pinned down for
/// both orders.
pub fn decode(charset_label: &str, bytes: &Vec<u8>) -> (r: Option<String>)
    ensures
        r.deep_view() == spec_decode(lower_of(charset_label@), bytes@, true) || r.deep_view()
            == spec_decode(lower_of(charset_label@), bytes@, false),
{
    let lowered = lowercase(charset_label);
    let native_big = native_big_endian();
    decode_with_byte_order(lowered.as_str(), bytes, native_big)
}

} // verus!

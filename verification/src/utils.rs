//! Microsoft Graph paths and URLs: the segments of a OneDrive path, their
//! percent-encoding, and the item and children URLs built from them.
use vstd::prelude::*;
use vstd::utf8::{
    decode_utf8, encode_scalar, encode_utf8, encode_utf8_decode_utf8, encode_utf8_valid_utf8,
    is_scalar, valid_utf8,
};
use crate::error::OneDriveApiError;
use crate::graph_url::{parse_url, url_parse_failure, url_serialization, GraphUrl};
use crate::text::{
    join, lemma_slash_segments_of_join, lemma_slash_segments_wellformed, lemma_trim_subset,
    parse_u16, push_char, push_text, slash_segments, split_slash_segments, string_views, trim, trim_text,
    TrimClass, unsigned_text_value, trim_start,
};
use percent_encoding::{percent_decode_str, percent_encode_byte};

verus! {

broadcast use vstd::string::group_string_axioms;

// ---------------------------------------------------------------------------
// Specifications
// ---------------------------------------------------------------------------

/// The bytes that the Graph path-segment encode set escapes: every
/// non-ASCII byte, the C0 controls and DEL, and
/// `space " # % < > ? ` { } / \ ^ [ ] | :`.
pub open spec fn escaped_in_segment(b: u8) -> bool {
    ||| b >= 0x80
    ||| b <= 0x1f
    ||| b == 0x7f
    ||| b == 0x20
    ||| b == 0x22
    ||| b == 0x23
    ||| b == 0x25
    ||| b == 0x3c
    ||| b == 0x3e
    ||| b == 0x3f
    ||| b == 0x60
    ||| b == 0x7b
    ||| b == 0x7d
    ||| b == 0x2f
    ||| b == 0x5c
    ||| b == 0x5e
    ||| b == 0x5b
    ||| b == 0x5d
    ||| b == 0x7c
    ||| b == 0x3a
}

/// An upper-case hexadecimal digit.
pub open spec fn hex_upper(d: u8) -> char {
    if d < 10 {
        (48 + d) as char
    } else {
        (55 + d) as char
    }
}

/// `%` and the two upper-case hexadecimal digits of `b`.
pub open spec fn percent_escape(b: u8) -> Seq<char> {
    seq!['%', hex_upper(b / 16), hex_upper(b % 16)]
}

/// The percent-encoding of one byte with the path-segment encode set.
pub open spec fn byte_encoding(b: u8) -> Seq<char> {
    if escaped_in_segment(b) {
        percent_escape(b)
    } else {
        seq![b as char]
    }
}

/// The percent-encoding of `bytes` with the path-segment encode set.
pub open spec fn segment_encoding(bytes: Seq<u8>) -> Seq<char>
    decreases bytes.len(),
{
    if bytes.len() == 0 {
        Seq::empty()
    } else {
        segment_encoding(bytes.drop_last()) + byte_encoding(bytes.last())
    }
}

/// The encoding of one path segment: its UTF-8 bytes, percent-encoded.
pub open spec fn encoded_segment(segment: Seq<char>) -> Seq<char> {
    segment_encoding(encode_utf8(segment))
}

/// The encoded segments joined with slashes.
pub open spec fn encoded_path(segments: Seq<Seq<char>>) -> Seq<char> {
    join(Seq::new(segments.len(), |i: int| encoded_segment(segments[i])), seq!['/'])
}

/// Whether `b` is an ASCII hexadecimal digit (either case).
pub open spec fn is_hex_byte(b: u8) -> bool {
    (0x30 <= b <= 0x39) || (0x41 <= b <= 0x46) || (0x61 <= b <= 0x66)
}

/// The value of a hexadecimal digit.
pub open spec fn hex_byte_value(b: u8) -> int {
    if b <= 0x39 {
        b - 0x30
    } else if b <= 0x46 {
        b - 0x41 + 10
    } else {
        b - 0x61 + 10
    }
}

/// Percent-decoding: every `%` followed by two hexadecimal digits stands
/// for the byte they spell; every other byte stands for itself.
pub open spec fn percent_decoded(bytes: Seq<u8>) -> Seq<u8>
    decreases bytes.len(),
{
    if bytes.len() == 0 {
        Seq::empty()
    } else if bytes[0] == 0x25 && bytes.len() >= 3 && is_hex_byte(bytes[1]) && is_hex_byte(bytes[2]) {
        seq![(hex_byte_value(bytes[1]) * 16 + hex_byte_value(bytes[2])) as u8] + percent_decoded(
            bytes.skip(3),
        )
    } else {
        seq![bytes[0]] + percent_decoded(bytes.drop_first())
    }
}

/// What the lossy UTF-8 reading of `decode_utf8_lossy` makes of bytes
/// that are not valid UTF-8 (invalid sequences replaced by U+FFFD).
pub uninterp spec fn utf8_lossy_reading(bytes: Seq<u8>) -> Seq<char>;

/// The lossy UTF-8 reading of bytes: the decoding where they are valid
/// UTF-8.
pub open spec fn lossy_text(bytes: Seq<u8>) -> Seq<char> {
    if valid_utf8(bytes) {
        decode_utf8(bytes)
    } else {
        utf8_lossy_reading(bytes)
    }
}

/// What `percent_decode_str(text).decode_utf8_lossy()` returns.
pub open spec fn percent_decoded_text(text: Seq<char>) -> Seq<char> {
    lossy_text(percent_decoded(encode_utf8(text)))
}

/// The segments of a OneDrive path: the path without leading and trailing
/// slashes, percent-decoded, split at slashes, empty pieces dropped.
pub open spec fn path_segments(path: Seq<char>) -> Seq<Seq<char>> {
    slash_segments(percent_decoded_text(trim(path, TrimClass::Slash)))
}

/// The Graph URL of the item that the segments name.
pub open spec fn item_url_text(segments: Seq<Seq<char>>) -> Seq<char> {
    if segments.len() == 0 {
        "https://graph.microsoft.com/v1.0/me/drive/root"@
    } else {
        "https://graph.microsoft.com/v1.0/me/drive/root:/"@ + encoded_path(segments) + ":"@
    }
}

/// The Graph URL of the children of the item that the segments name.
pub open spec fn children_url_text(segments: Seq<Seq<char>>) -> Seq<char> {
    if segments.len() == 0 {
        "https://graph.microsoft.com/v1.0/me/drive/root/children"@
    } else {
        "https://graph.microsoft.com/v1.0/me/drive/root:/"@ + encoded_path(segments) + ":/children"@
    }
}

proof fn lemma_scalar_bytes_not_percent(v: u32)
    requires
        v != 0x25,
        is_scalar(v),
    ensures
        !encode_scalar(v).contains(0x25u8),
{
    let e = encode_scalar(v);
    assert(v <= 0x7f ==> (v & 0x7f) as u8 != 0x25u8) by (bit_vector)
        requires
            v != 0x25,
    ;
    assert((0xC0u8 | ((v >> 6) & 0x1F) as u8) >= 0x80u8) by (bit_vector);
    assert((0xE0u8 | ((v >> 12) & 0x0F) as u8) >= 0x80u8) by (bit_vector);
    assert((0xF0u8 | ((v >> 18) & 0x7) as u8) >= 0x80u8) by (bit_vector);
    assert((0x80u8 | (v & 0x3F) as u8) >= 0x80u8) by (bit_vector);
    assert((0x80u8 | ((v >> 6) & 0x3F) as u8) >= 0x80u8) by (bit_vector);
    assert((0x80u8 | ((v >> 12) & 0x3F) as u8) >= 0x80u8) by (bit_vector);
    if e.contains(0x25u8) {
        let j = choose|j: int| 0 <= j < e.len() && e[j] == 0x25u8;
        assert(false);
    }
}

proof fn lemma_utf8_of_plain_text(t: Seq<char>)
    requires
        !t.contains('%'),
    ensures
        !encode_utf8(t).contains(0x25u8),
    decreases t.len(),
{
    if t.len() > 0 {
        assert(!t.drop_first().contains('%')) by {
            if t.drop_first().contains('%') {
                let j = choose|j: int| 0 <= j < t.drop_first().len() && t.drop_first()[j] == '%';
                assert(t[j + 1] == '%');
            }
        }
        lemma_utf8_of_plain_text(t.drop_first());
        assert(t[0] != '%');
        vstd::utf8::char_is_scalar(t[0]);
        assert((t[0] as u32) != 0x25) by {
            vstd::utf8::char_u32_cast(t[0], t[0] as u32);
            vstd::utf8::char_u32_cast('%', '%' as u32);
            assert(('%' as u32) == 0x25);
        }
        lemma_scalar_bytes_not_percent(t[0] as u32);
        let head = encode_scalar(t[0] as u32);
        let tail = encode_utf8(t.drop_first());
        if (head + tail).contains(0x25u8) {
            let j = choose|j: int| 0 <= j < (head + tail).len() && (head + tail)[j] == 0x25u8;
            if j < head.len() {
                assert(head[j] == 0x25u8);
            } else {
                assert(tail[j - head.len()] == 0x25u8);
            }
        }
    }
}

proof fn lemma_percent_decoded_plain(bytes: Seq<u8>)
    requires
        !bytes.contains(0x25u8),
    ensures
        percent_decoded(bytes) == bytes,
    decreases bytes.len(),
{
    if bytes.len() > 0 {
        assert(bytes[0] != 0x25u8);
        assert(!bytes.drop_first().contains(0x25u8)) by {
            if bytes.drop_first().contains(0x25u8) {
                let j = choose|j: int| 0 <= j < bytes.drop_first().len() && bytes.drop_first()[j] == 0x25u8;
                assert(bytes[j + 1] == 0x25u8);
            }
        }
        lemma_percent_decoded_plain(bytes.drop_first());
        assert(seq![bytes[0]] + bytes.drop_first() =~= bytes);
    }
}

/// Percent-decoding leaves the UTF-8 bytes of a text without percent signs
/// as they are, and they read back as the text.
proof fn lemma_plain_text_decodes_to_itself(t: Seq<char>)
    requires
        !t.contains('%'),
    ensures
        percent_decoded(encode_utf8(t)) == encode_utf8(t),
        valid_utf8(encode_utf8(t)),
        decode_utf8(encode_utf8(t)) == t,
{
    lemma_utf8_of_plain_text(t);
    lemma_percent_decoded_plain(encode_utf8(t));
    encode_utf8_valid_utf8(t);
    encode_utf8_decode_utf8(t);
}

// ---------------------------------------------------------------------------
// Calls into percent_encoding and url
// ---------------------------------------------------------------------------

/// `percent_encoding::percent_encode_byte`: `%` followed by the two
/// upper-case hexadecimal digits of the byte.
#[verifier::external_body]
fn percent_encode_byte_text(byte: u8) -> (r: &'static str)
    ensures
        r@ == percent_escape(byte),
{
    percent_encode_byte(byte)
}

/// `percent_encoding::percent_decode_str(text).decode_utf8_lossy()`: the
/// text's UTF-8 bytes percent-decoded, then read as UTF-8 with invalid
/// sequences replaced. Where the decoded bytes are valid UTF-8 the result is
/// their reading; the replacements are a named result.
#[verifier::external_body]
fn percent_decode_lossy(text: &str) -> (r: String)
    ensures
        r@ == percent_decoded_text(text@),
        !valid_utf8(percent_decoded(encode_utf8(text@))) ==> r@ == utf8_lossy_reading(
            percent_decoded(encode_utf8(text@)),
        ),
{
    percent_decode_str(text).decode_utf8_lossy().into_owned()
}

fn escaped_in_segment_exec(b: u8) -> (r: bool)
    ensures
        r == escaped_in_segment(b),
{
    b >= 0x80 || b <= 0x1f || b == 0x7f || b == 0x20 || b == 0x22 || b == 0x23 || b == 0x25 || b
        == 0x3c || b == 0x3e || b == 0x3f || b == 0x60 || b == 0x7b || b == 0x7d || b == 0x2f || b
        == 0x5c || b == 0x5e || b == 0x5b || b == 0x5d || b == 0x7c || b == 0x3a
}

/// `utf8_percent_encode(segment, set).to_string()` for the Graph
/// path-segment encode set: each byte of the UTF-8 encoding of `segment`
/// that the set escapes becomes `%XX`, every other byte stays.
pub fn percent_encode_segment(segment: &str) -> (r: String)
    ensures
        r@ == encoded_segment(segment@),
{
    let bytes = segment.as_bytes();
    let mut r = String::new();
    let mut i: usize = 0;
    assert(bytes@.take(0) =~= Seq::<u8>::empty());
    while i < bytes.len()
        invariant
            0 <= i <= bytes.len(),
            bytes@ == encode_utf8(segment@),
            r@ == segment_encoding(bytes@.take(i as int)),
        decreases bytes.len() - i,
    {
        let b = bytes[i];
        if escaped_in_segment_exec(b) {
            push_text(&mut r, percent_encode_byte_text(b));
        } else {
            push_char(&mut r, b as char);
        }
        assert(bytes@.take(i + 1).drop_last() =~= bytes@.take(i as int));
        assert(bytes@.take(i + 1).last() == b);
        i += 1;
    }
    assert(bytes@.take(bytes.len() as int) =~= bytes@);
    r
}

// ---------------------------------------------------------------------------
// Path segments
// ---------------------------------------------------------------------------

/// The segments of one OneDrive path. A path without percent signs is
/// split as it is written.
pub fn decode_path_segments(path: &str) -> (r: Vec<String>)
    ensures
        string_views(r@) == path_segments(path@),
        !path@.contains('%') ==> string_views(r@) == slash_segments(trim(path@, TrimClass::Slash)),
{
    let trimmed = trim_text(path, TrimClass::Slash);
    let decoded = percent_decode_lossy(trimmed.as_str());
    proof {
        if !path@.contains('%') {
            assert(!trimmed@.contains('%')) by {
                if trimmed@.contains('%') {
                    lemma_trim_subset(path@, TrimClass::Slash, '%');
                }
            }
            lemma_plain_text_decodes_to_itself(trimmed@);
        }
    }
    split_slash_segments(decoded.as_str())
}

/// The segments of a path under the configured root: the root's segments
/// followed by the path's.
pub fn onedrive_path_segments(root_path: &str, path: &str) -> (r: Vec<String>)
    ensures
        string_views(r@) == path_segments(root_path@) + path_segments(path@),
{
    let mut r = decode_path_segments(root_path);
    let tail = decode_path_segments(path);
    let ghost head = r@;
    let mut i: usize = 0;
    while i < tail.len()
        invariant
            0 <= i <= tail.len(),
            string_views(head) == path_segments(root_path@),
            string_views(tail@) == path_segments(path@),
            r@ == head + tail@.take(i as int),
        decreases tail.len() - i,
    {
        r.push(tail[i].clone());
        assert(tail@.take(i + 1) =~= tail@.take(i as int).push(tail@[i as int]));
        i += 1;
    }
    assert(tail@.take(tail.len() as int) =~= tail@);
    assert(string_views(r@) =~= string_views(head) + string_views(tail@));
    r
}

/// The segments, each percent-encoded, joined with slashes.
pub fn encode_graph_path(segments: &Vec<String>) -> (r: String)
    ensures
        r@ == encoded_path(string_views(segments@)),
{
    let ghost views = string_views(segments@);
    let ghost parts = Seq::new(views.len(), |i: int| encoded_segment(views[i]));
    let mut r = String::new();
    let mut i: usize = 0;
    while i < segments.len()
        invariant
            0 <= i <= segments.len(),
            views == string_views(segments@),
            parts == Seq::new(views.len(), |i: int| encoded_segment(views[i])),
            r@ == join(parts.take(i as int), seq!['/']),
        decreases segments.len() - i,
    {
        let encoded = percent_encode_segment(segments[i].as_str());
        let ghost before = r@;
        if i > 0 {
            push_char_slash(&mut r);
        }
        push_text(&mut r, encoded.as_str());
        proof {
            let next = parts.take(i + 1);
            assert(next.drop_last() =~= parts.take(i as int));
            assert(next.last() == encoded@);
            if i == 0 {
                assert(next.len() == 1);
                assert(before =~= Seq::<char>::empty());
                assert(r@ =~= next[0]);
            } else {
                assert(r@ =~= join(parts.take(i as int), seq!['/']) + seq!['/'] + next.last());
            }
        }
        i += 1;
    }
    assert(parts.take(segments.len() as int) =~= parts);
    r
}

fn push_char_slash(s: &mut String)
    ensures
        final(s)@ == old(s)@ + seq!['/'],
{
    push_text(s, "/");
    proof {
        reveal_strlit("/");
    }
}

// ---------------------------------------------------------------------------
// Settings
// ---------------------------------------------------------------------------

/// The port that a setting names: its value read as a `u16`, or `default`
/// where the setting is absent or not a port number.
pub fn port_or_default(value: Option<String>, default: u16) -> (r: u16)
    ensures
        r == (match value {
            Some(v) => match unsigned_text_value(v@) {
                Some(n) => if n <= 65535 {
                    n as u16
                } else {
                    default
                },
                None => default,
            },
            None => default,
        }),
{
    match value {
        Some(v) => match parse_u16(v.as_str()) {
            Some(n) => n,
            None => default,
        },
        None => default,
    }
}

// ---------------------------------------------------------------------------
// URLs
// ---------------------------------------------------------------------------

/// The text of the Graph URL of the children of the item at `path` under
/// `root_path`.
pub fn graph_children_url_text(root_path: &str, path: &str) -> (r: String)
    ensures
        r@ == children_url_text(path_segments(root_path@) + path_segments(path@)),
{
    let segments = onedrive_path_segments(root_path, path);
    if segments.len() == 0 {
        return "https://graph.microsoft.com/v1.0/me/drive/root/children".to_owned();
    }
    let encoded = encode_graph_path(&segments);
    let mut r = "https://graph.microsoft.com/v1.0/me/drive/root:/".to_owned();
    push_text(&mut r, encoded.as_str());
    push_text(&mut r, ":/children");
    r
}

/// The text of the Graph URL of the item at `path` under `root_path`.
pub fn graph_item_url_text(root_path: &str, path: &str) -> (r: String)
    ensures
        r@ == item_url_text(path_segments(root_path@) + path_segments(path@)),
{
    let segments = onedrive_path_segments(root_path, path);
    if segments.len() == 0 {
        return "https://graph.microsoft.com/v1.0/me/drive/root".to_owned();
    }
    let encoded = encode_graph_path(&segments);
    let mut r = "https://graph.microsoft.com/v1.0/me/drive/root:/".to_owned();
    push_text(&mut r, encoded.as_str());
    push_text(&mut r, ":");
    r
}

/// Parses a Graph URL; a refusal becomes `GraphUrlBuild` with the parser's
/// reason.
pub fn parse_graph_url(url: &str) -> (r: Result<GraphUrl, OneDriveApiError>)
    ensures
        match r {
            Ok(g) => url_parse_failure(url@) is None && g@ == url_serialization(url@),
            Err(e) => e matches OneDriveApiError::GraphUrlBuild(m) && url_parse_failure(url@) == Some(
                m@,
            ),
        },
{
    match parse_url(url) {
        Ok(u) => Ok(u),
        Err(m) => Err(OneDriveApiError::GraphUrlBuild(m)),
    }
}

/// The Graph URL of the children of the item at `path` under `root_path`.
pub fn graph_children_url(root_path: &str, path: &str) -> (r: Result<GraphUrl, OneDriveApiError>)
    ensures
        ({
            let text = children_url_text(path_segments(root_path@) + path_segments(path@));
            match r {
                Ok(g) => url_parse_failure(text) is None && g@ == url_serialization(text),
                Err(e) => e matches OneDriveApiError::GraphUrlBuild(m) && url_parse_failure(text)
                    == Some(m@),
            }
        }),
{
    let text = graph_children_url_text(root_path, path);
    parse_graph_url(text.as_str())
}

/// The Graph URL of the item at `path` under `root_path`.
pub fn graph_item_url(root_path: &str, path: &str) -> (r: Result<GraphUrl, OneDriveApiError>)
    ensures
        ({
            let text = item_url_text(path_segments(root_path@) + path_segments(path@));
            match r {
                Ok(g) => url_parse_failure(text) is None && g@ == url_serialization(text),
                Err(e) => e matches OneDriveApiError::GraphUrlBuild(m) && url_parse_failure(text)
                    == Some(m@),
            }
        }),
{
    let text = graph_item_url_text(root_path, path);
    parse_graph_url(text.as_str())
}

// ---------------------------------------------------------------------------
// Laws
// ---------------------------------------------------------------------------

/// The children URL of an item is the item's URL followed by `/children`.
pub proof fn lemma_children_url_extends_item_url(segments: Seq<Seq<char>>)
    ensures
        children_url_text(segments) == item_url_text(segments) + "/children"@,
{
    reveal_strlit("https://graph.microsoft.com/v1.0/me/drive/root/children");
    reveal_strlit("https://graph.microsoft.com/v1.0/me/drive/root");
    reveal_strlit("/children");
    reveal_strlit(":/children");
    reveal_strlit(":");
    if segments.len() == 0 {
        assert(children_url_text(segments) =~= item_url_text(segments) + "/children"@);
    } else {
        assert(children_url_text(segments) =~= item_url_text(segments) + "/children"@);
    }
}

proof fn lemma_segment_encoding_shape(bytes: Seq<u8>)
    ensures
        !segment_encoding(bytes).contains('/'),
        bytes.len() > 0 ==> segment_encoding(bytes).len() > 0,
    decreases bytes.len(),
{
    if bytes.len() > 0 {
        lemma_segment_encoding_shape(bytes.drop_last());
        let head = segment_encoding(bytes.drop_last());
        let tail = byte_encoding(bytes.last());
        assert(!tail.contains('/')) by {
            if tail.contains('/') {
                let j = choose|j: int| 0 <= j < tail.len() && tail[j] == '/';
                assert(false);
            }
        }
        assert(!(head + tail).contains('/')) by {
            if (head + tail).contains('/') {
                let j = choose|j: int| 0 <= j < (head + tail).len() && (head + tail)[j] == '/';
                if j < head.len() {
                    assert(head.contains('/')) by {
                        assert(head[j] == '/');
                    }
                } else {
                    assert(tail.contains('/')) by {
                        assert(tail[j - head.len()] == '/');
                    }
                }
            }
        }
    }
}

/// Every segment of a Graph path is encoded free of slashes, so the encoded
/// path falls apart at its slashes into exactly one encoded piece per
/// (non-empty) segment.
pub proof fn lemma_encoded_path_splits_back(segments: Seq<Seq<char>>)
    requires
        forall|i: int| 0 <= i < segments.len() ==> (#[trigger] segments[i]).len() > 0,
    ensures
        slash_segments(encoded_path(segments)) == Seq::new(
            segments.len(),
            |i: int| encoded_segment(segments[i]),
        ),
{
    let parts = Seq::new(segments.len(), |i: int| encoded_segment(segments[i]));
    assert forall|i: int| 0 <= i < parts.len() implies (#[trigger] parts[i]).len() > 0 && !parts[i].contains(
        '/',
    ) by {
        assert(segments[i].len() > 0);
        assert(encode_utf8(segments[i]).len() > 0);
        lemma_segment_encoding_shape(encode_utf8(segments[i]));
    }
    lemma_slash_segments_of_join(parts);
}

/// Every segment of a OneDrive path under its root is non-empty and free of
/// slashes.
pub proof fn lemma_path_segments_wellformed(root_path: Seq<char>, path: Seq<char>)
    ensures
        forall|i: int|
            0 <= i < (path_segments(root_path) + path_segments(path)).len() ==> (#[trigger] (
            path_segments(root_path) + path_segments(path))[i]).len() > 0 && !(path_segments(
            root_path) + path_segments(path))[i].contains('/'),
{
    let a = path_segments(root_path);
    let b = path_segments(path);
    lemma_slash_segments_wellformed(percent_decoded_text(trim(root_path, TrimClass::Slash)));
    lemma_slash_segments_wellformed(percent_decoded_text(trim(path, TrimClass::Slash)));
    assert forall|i: int| 0 <= i < (a + b).len() implies (#[trigger] (a + b)[i]).len() > 0 && !(a
        + b)[i].contains('/') by {
        if i < a.len() {
            assert((a + b)[i] == a[i]);
        } else {
            assert((a + b)[i] == b[i - a.len()]);
        }
    }
}

/// The Graph path of a OneDrive path falls apart at its slashes into one
/// encoded piece per segment of the path.
pub proof fn lemma_graph_path_unambiguous(root_path: Seq<char>, path: Seq<char>)
    ensures
        ({
            let segments = path_segments(root_path) + path_segments(path);
            slash_segments(encoded_path(segments)) == Seq::new(
                segments.len(),
                |i: int| encoded_segment(segments[i]),
            )
        }),
{
    lemma_path_segments_wellformed(root_path, path);
    lemma_encoded_path_splits_back(path_segments(root_path) + path_segments(path));
}

/// The bytes of a text whose characters are all below 0x80.
pub open spec fn ascii_bytes(t: Seq<char>) -> Seq<u8> {
    Seq::new(t.len(), |i: int| (t[i] as u32) as u8)
}

proof fn lemma_encode_utf8_ascii(t: Seq<char>)
    requires
        forall|i: int| 0 <= i < t.len() ==> (#[trigger] t[i] as u32) < 0x80,
    ensures
        encode_utf8(t) == ascii_bytes(t),
    decreases t.len(),
{
    if t.len() > 0 {
        let rest = t.drop_first();
        assert forall|i: int| 0 <= i < rest.len() implies (#[trigger] rest[i] as u32) < 0x80 by {
            assert(rest[i] == t[i + 1]);
        }
        lemma_encode_utf8_ascii(rest);
        let v = t[0] as u32;
        assert(v < 0x80);
        assert(v <= 0x7f ==> (v & 0x7f) as u8 == v as u8) by (bit_vector);
        assert(encode_scalar(v) =~= seq![v as u8]);
        assert(ascii_bytes(t) =~= seq![v as u8] + ascii_bytes(rest));
    } else {
        assert(ascii_bytes(t) =~= Seq::<u8>::empty());
    }
}

proof fn lemma_encode_utf8_concat(a: Seq<char>, b: Seq<char>)
    ensures
        encode_utf8(a + b) == encode_utf8(a) + encode_utf8(b),
    decreases a.len(),
{
    if a.len() == 0 {
        assert(a + b =~= b);
        assert(encode_utf8(a) =~= Seq::<u8>::empty());
        assert(encode_utf8(a) + encode_utf8(b) =~= encode_utf8(b));
    } else {
        lemma_encode_utf8_concat(a.drop_first(), b);
        assert((a + b).drop_first() =~= a.drop_first() + b);
        assert((a + b)[0] == a[0]);
        assert(encode_utf8(a + b) =~= encode_utf8(a) + encode_utf8(b));
    }
}

proof fn lemma_hex_digit(d: u8)
    requires
        d < 16,
    ensures
        ({
            let h = (hex_upper(d) as u32) as u8;
            &&& (hex_upper(d) as u32) < 0x80
            &&& is_hex_byte(h)
            &&& hex_byte_value(h) == d
        }),
{
}

/// Decoding undoes the encoding of one byte.
proof fn lemma_decode_byte_encoding(b: u8, rest: Seq<u8>)
    ensures
        percent_decoded(encode_utf8(byte_encoding(b)) + rest) == seq![b] + percent_decoded(rest),
{
    let e = byte_encoding(b);
    if escaped_in_segment(b) {
        lemma_hex_digit(b / 16);
        lemma_hex_digit(b % 16);
        assert(('%' as u32) == 0x25);
        lemma_encode_utf8_ascii(e);
        let x = encode_utf8(e) + rest;
        assert(x[0] == 0x25u8);
        assert(x[1] == (hex_upper(b / 16) as u32) as u8);
        assert(x[2] == (hex_upper(b % 16) as u32) as u8);
        assert(x.skip(3) =~= rest);
        assert((b / 16) * 16 + b % 16 == b);
    } else {
        assert(b < 0x80);
        assert(((b as char) as u32) == b);
        lemma_encode_utf8_ascii(e);
        let x = encode_utf8(e) + rest;
        assert(x[0] == b);
        assert(b != 0x25u8);
        assert(x.drop_first() =~= rest);
    }
}

/// Decoding undoes the encoding of a byte sequence.
proof fn lemma_decode_segment_encoding(bytes: Seq<u8>, rest: Seq<u8>)
    ensures
        percent_decoded(encode_utf8(segment_encoding(bytes)) + rest) == bytes + percent_decoded(rest),
    decreases bytes.len(),
{
    if bytes.len() == 0 {
        assert(encode_utf8(segment_encoding(bytes)) =~= Seq::<u8>::empty());
        assert(Seq::<u8>::empty() + rest =~= rest);
        assert(bytes + percent_decoded(rest) =~= percent_decoded(rest));
    } else {
        let init = bytes.drop_last();
        let b = bytes.last();
        lemma_encode_utf8_concat(segment_encoding(init), byte_encoding(b));
        lemma_decode_byte_encoding(b, rest);
        lemma_decode_segment_encoding(init, encode_utf8(byte_encoding(b)) + rest);
        assert(encode_utf8(segment_encoding(bytes)) + rest =~= encode_utf8(segment_encoding(init))
            + (encode_utf8(byte_encoding(b)) + rest));
        assert(init + (seq![b] + percent_decoded(rest)) =~= bytes + percent_decoded(rest));
    }
}

proof fn lemma_encoded_parts(segments: Seq<Seq<char>>)
    requires
        forall|i: int| 0 <= i < segments.len() ==> (#[trigger] segments[i]).len() > 0,
    ensures
        ({
            let parts = Seq::new(segments.len(), |i: int| encoded_segment(segments[i]));
            forall|i: int| 0 <= i < parts.len() ==> (#[trigger] parts[i]).len() > 0 && !parts[i].contains(
                '/',
            )
        }),
{
    let parts = Seq::new(segments.len(), |i: int| encoded_segment(segments[i]));
    assert forall|i: int| 0 <= i < parts.len() implies (#[trigger] parts[i]).len() > 0 && !parts[i].contains(
        '/',
    ) by {
        assert(segments[i].len() > 0);
        assert(encode_utf8(segments[i]).len() > 0);
        lemma_segment_encoding_shape(encode_utf8(segments[i]));
    }
}

/// Decoding an encoded path gives the slash-joined segments back.
proof fn lemma_decode_encoded_path(segments: Seq<Seq<char>>, rest: Seq<u8>)
    requires
        segments.len() >= 1,
    ensures
        percent_decoded(encode_utf8(encoded_path(segments)) + rest) == encode_utf8(
            join(segments, seq!['/']),
        ) + percent_decoded(rest),
    decreases segments.len(),
{
    let parts = Seq::new(segments.len(), |i: int| encoded_segment(segments[i]));
    if segments.len() == 1 {
        assert(encoded_path(segments) == parts[0]);
        lemma_decode_segment_encoding(encode_utf8(segments[0]), rest);
    } else {
        let init = segments.drop_last();
        let last = segments.last();
        let init_parts = Seq::new(init.len(), |i: int| encoded_segment(init[i]));
        assert(parts.drop_last() =~= init_parts);
        assert(parts.last() == encoded_segment(last));
        assert(encoded_path(segments) == encoded_path(init) + seq!['/'] + encoded_segment(last));
        lemma_encode_utf8_concat(encoded_path(init) + seq!['/'], encoded_segment(last));
        lemma_encode_utf8_concat(encoded_path(init), seq!['/']);
        assert(('/' as u32) == 0x2f);
        lemma_encode_utf8_ascii(seq!['/']);
        assert(encode_utf8(seq!['/']) =~= seq![0x2fu8]);
        let tail = encode_utf8(encoded_segment(last)) + rest;
        lemma_decode_encoded_path(init, seq![0x2fu8] + tail);
        assert(encode_utf8(encoded_path(segments)) + rest =~= encode_utf8(encoded_path(init)) + (
        seq![0x2fu8] + tail));
        assert((seq![0x2fu8] + tail).drop_first() =~= tail);
        assert(percent_decoded(seq![0x2fu8] + tail) == seq![0x2fu8] + percent_decoded(tail));
        lemma_decode_segment_encoding(encode_utf8(last), rest);
        assert(join(segments, seq!['/']) == join(init, seq!['/']) + seq!['/'] + last);
        lemma_encode_utf8_concat(join(init, seq!['/']) + seq!['/'], last);
        lemma_encode_utf8_concat(join(init, seq!['/']), seq!['/']);
        assert(encode_utf8(join(init, seq!['/'])) + (seq![0x2fu8] + (encode_utf8(last) + percent_decoded(
            rest,
        ))) =~= encode_utf8(join(segments, seq!['/'])) + percent_decoded(rest));
    }
}

proof fn lemma_join_ends(parts: Seq<Seq<char>>)
    requires
        parts.len() >= 1,
        forall|i: int| 0 <= i < parts.len() ==> (#[trigger] parts[i]).len() > 0,
    ensures
        join(parts, seq!['/']).len() > 0,
        join(parts, seq!['/'])[0] == parts[0][0],
        join(parts, seq!['/']).last() == parts.last().last(),
    decreases parts.len(),
{
    if parts.len() > 1 {
        let init = parts.drop_last();
        assert forall|i: int| 0 <= i < init.len() implies (#[trigger] init[i]).len() > 0 by {
            assert(init[i] == parts[i]);
        }
        lemma_join_ends(init);
        assert(parts[parts.len() - 1] == parts.last());
    }
}

/// Decoding an encoded path gives its segments back: the segments of the
/// Graph path of non-empty, slash-free segments are those segments.
pub proof fn lemma_decoding_inverts_encoding(segments: Seq<Seq<char>>)
    requires
        forall|i: int| 0 <= i < segments.len() ==> (#[trigger] segments[i]).len() > 0 && !segments[i].contains(
            '/',
        ),
    ensures
        path_segments(encoded_path(segments)) == segments,
{
    let t = encoded_path(segments);
    let parts = Seq::new(segments.len(), |i: int| encoded_segment(segments[i]));
    if segments.len() == 0 {
        assert(t =~= Seq::<char>::empty());
        assert(trim(t, TrimClass::Slash) =~= Seq::<char>::empty());
        encode_utf8_valid_utf8(Seq::<char>::empty());
        encode_utf8_decode_utf8(Seq::<char>::empty());
        assert(encode_utf8(Seq::<char>::empty()) =~= Seq::<u8>::empty());
        assert(percent_decoded(Seq::<u8>::empty()) =~= Seq::<u8>::empty());
        assert(percent_decoded_text(t) =~= Seq::<char>::empty());
        lemma_slash_segments_of_join(segments);
        assert(join(segments, seq!['/']) =~= Seq::<char>::empty());
    } else {
        lemma_encoded_parts(segments);
        lemma_join_ends(parts);
        assert(!parts[0].contains('/'));
        assert(parts[0][0] != '/');
        assert(!parts.last().contains('/')) by {
            assert(parts[parts.len() - 1] == parts.last());
        }
        assert(parts.last().last() != '/') by {
            assert(parts.last()[parts.last().len() - 1] == parts.last().last());
        }
        assert(trim_start(t, TrimClass::Slash) == t);
        assert(trim(t, TrimClass::Slash) == t);
        lemma_decode_encoded_path(segments, Seq::<u8>::empty());
        assert(encode_utf8(t) + Seq::<u8>::empty() =~= encode_utf8(t));
        let joined = join(segments, seq!['/']);
        assert(percent_decoded(Seq::<u8>::empty()) =~= Seq::<u8>::empty());
        assert(encode_utf8(joined) + Seq::<u8>::empty() =~= encode_utf8(joined));
        encode_utf8_valid_utf8(joined);
        encode_utf8_decode_utf8(joined);
        assert(percent_decoded_text(t) == joined);
        lemma_slash_segments_of_join(segments);
    }
}

/// The Graph URLs of a request name its whole path: without segments they
/// are the drive root and its children; otherwise, between
/// `.../drive/root:/` and the closing `:` (item) or `:/children` (children)
/// stands one and the same text, and the segments of that text, decoded,
/// are every segment of the root followed by every segment of the path.
pub proof fn lemma_graph_urls_name_whole_path(root_path: Seq<char>, path: Seq<char>)
    ensures
        ({
            let segments = path_segments(root_path) + path_segments(path);
            &&& segments.len() == 0 ==> item_url_text(segments)
                == "https://graph.microsoft.com/v1.0/me/drive/root"@ && children_url_text(segments)
                == "https://graph.microsoft.com/v1.0/me/drive/root/children"@
            &&& segments.len() > 0 ==> exists|middle: Seq<char>|
                #![trigger path_segments(middle)]
                item_url_text(segments) == "https://graph.microsoft.com/v1.0/me/drive/root:/"@
                    + middle + ":"@ && children_url_text(segments)
                    == "https://graph.microsoft.com/v1.0/me/drive/root:/"@ + middle
                    + ":/children"@ && path_segments(middle) == segments
        }),
{
    let segments = path_segments(root_path) + path_segments(path);
    if segments.len() > 0 {
        lemma_path_segments_wellformed(root_path, path);
        lemma_decoding_inverts_encoding(segments);
        let middle = encoded_path(segments);
        assert(path_segments(middle) == segments);
    }
}

} // verus!

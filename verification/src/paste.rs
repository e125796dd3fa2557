//! Pasted text that names image files: shell-like tokenizing, `file://`
//! URIs with percent escapes, image extensions and MIME types, and the
//! transcript line that records attached images.
use vstd::prelude::*;
use vstd::utf8::{decode_utf8, encode_utf8, valid_utf8};
use vstd::string::StringSliceAdditionalSpecFns;
use crate::text::{
    ascii_lower_seq, ascii_lowercase_range, chars_of, is_whitespace, is_ws, range_eq,
    push_str, range_starts_with, string_from, string_of, trim, trim_range,
};
use crate::plural_s;
use base64::Engine;

verus! {

broadcast use vstd::string::group_string_axioms;

// ---------------------------------------------------------------------------
// Shell-like tokens
// ---------------------------------------------------------------------------

/// Characters that a backslash escapes inside a pasted path.
pub open spec fn is_shell_escape(c: char) -> bool {
    is_ws(c) || c == '\\' || c == '\'' || c == '"'
}

pub fn shell_escape_char(ch: char) -> (r: bool)
    ensures
        r == is_shell_escape(ch),
{
    is_whitespace(ch) || ch == '\\' || ch == '\'' || ch == '"'
}

pub open spec fn is_quote(c: char) -> bool {
    c == '\'' || c == '"'
}

/// The tokens of `s` given the tokens already closed, the token being built
/// and the open quote, if any.
pub open spec fn tokens_from(
    s: Seq<char>,
    tokens: Seq<Seq<char>>,
    current: Seq<char>,
    quote: Option<char>,
) -> Seq<Seq<char>>
    decreases s.len(),
{
    if s.len() == 0 {
        if current.len() > 0 {
            tokens.push(current)
        } else {
            tokens
        }
    } else {
        let ch = s[0];
        let rest = s.drop_first();
        if ch == '\\' {
            if s.len() > 1 && is_shell_escape(s[1]) {
                tokens_from(s.subrange(2, s.len() as int), tokens, current.push(s[1]), quote)
            } else {
                tokens_from(rest, tokens, current.push(ch), quote)
            }
        } else if is_quote(ch) && quote is None {
            tokens_from(rest, tokens, current, Some(ch))
        } else if is_quote(ch) && quote == Some(ch) {
            tokens_from(rest, tokens, current, None)
        } else if quote is None && is_ws(ch) {
            if current.len() > 0 {
                tokens_from(rest, tokens.push(current), seq![], None)
            } else {
                tokens_from(rest, tokens, current, None)
            }
        } else {
            tokens_from(rest, tokens, current.push(ch), quote)
        }
    }
}

/// The tokens of pasted text: split at unquoted whitespace, quotes removed,
/// and a backslash before whitespace, a backslash or a quote dropped.
pub open spec fn shell_tokens(text: Seq<char>) -> Seq<Seq<char>> {
    tokens_from(trim(text), seq![], seq![], None)
}

pub open spec fn views(v: Seq<String>) -> Seq<Seq<char>> {
    v.map_values(|t: String| t@)
}

pub fn shell_like_tokens(text: &str) -> (r: Vec<String>)
    ensures
        views(r@) == shell_tokens(text@),
{
    let v = chars_of(text);
    let (from, to) = trim_range(&v, 0, v.len());
    assert(v@.subrange(0, v@.len() as int) =~= v@);
    let mut tokens: Vec<String> = Vec::new();
    let mut current = String::new();
    let mut quote: Option<char> = None;
    let mut i = from;
    assert(views(tokens@) =~= Seq::<Seq<char>>::empty());
    assert(current@ =~= Seq::<char>::empty());
    while i < to
        invariant
            from <= i <= to <= v@.len(),
            shell_tokens(text@) == tokens_from(
                v@.subrange(i as int, to as int),
                views(tokens@),
                current@,
                quote,
            ),
        decreases to - i,
    {
        let ghost s = v@.subrange(i as int, to as int);
        let ch = v[i];
        assert(s[0] == ch);
        assert(s.drop_first() =~= v@.subrange(i + 1, to as int));
        if ch == '\\' {
            if i + 1 < to && shell_escape_char(v[i + 1]) {
                assert(s[1] == v@[i + 1]);
                assert(s.subrange(2, s.len() as int) =~= v@.subrange(i + 2, to as int));
                current.push(v[i + 1]);
                i += 2;
            } else {
                proof {
                    if s.len() > 1 {
                        assert(s[1] == v@[i + 1]);
                    }
                }
                current.push(ch);
                i += 1;
            }
        } else if (ch == '\'' || ch == '"') && quote.is_none() {
            quote = Some(ch);
            i += 1;
        } else if (ch == '\'' || ch == '"') && quote == Some(ch) {
            quote = None;
            i += 1;
        } else if quote.is_none() && is_whitespace(ch) {
            if !current.as_str().is_empty() {
                let ghost old_tokens = views(tokens@);
                tokens.push(current);
                current = String::new();
                proof {
                    assert(views(tokens@) =~= old_tokens.push(views(tokens@).last()));
                }
            }
            i += 1;
        } else {
            current.push(ch);
            i += 1;
        }
    }
    let ghost s = v@.subrange(i as int, to as int);
    assert(s.len() == 0);
    if !current.as_str().is_empty() {
        let ghost old_tokens = views(tokens@);
        tokens.push(current);
        proof {
            assert(views(tokens@) =~= old_tokens.push(views(tokens@).last()));
        }
    }
    tokens
}


// ---------------------------------------------------------------------------
// Percent escapes and file URIs
// ---------------------------------------------------------------------------

/// The value of an ASCII hex digit.
pub open spec fn hex_digit(b: u8) -> Option<u8> {
    if 48 <= b <= 57 {
        Some((b - 48) as u8)
    } else if 97 <= b <= 102 {
        Some((b - 97 + 10) as u8)
    } else if 65 <= b <= 70 {
        Some((b - 65 + 10) as u8)
    } else {
        None
    }
}

pub fn hex_value(byte: u8) -> (r: Option<u8>)
    ensures
        r == hex_digit(byte),
{
    if 48 <= byte && byte <= 57 {
        Some(byte - 48)
    } else if 97 <= byte && byte <= 102 {
        Some(byte - 97 + 10)
    } else if 65 <= byte && byte <= 70 {
        Some(byte - 65 + 10)
    } else {
        None
    }
}

/// The bytes of `b` with every `%XY` escape replaced by the byte `0xXY`,
/// appended to `acc`; `None` when a `%` is not followed by two hex digits.
pub open spec fn unescape_bytes(b: Seq<u8>, acc: Seq<u8>) -> Option<Seq<u8>>
    decreases b.len(),
{
    if b.len() == 0 {
        Some(acc)
    } else if b[0] == 37 {
        if b.len() < 3 {
            None
        } else {
            match (hex_digit(b[1]), hex_digit(b[2])) {
                (Some(hi), Some(lo)) => unescape_bytes(
                    b.subrange(3, b.len() as int),
                    acc.push((hi * 16 + lo) as u8),
                ),
                _ => None,
            }
        }
    } else {
        unescape_bytes(b.drop_first(), acc.push(b[0]))
    }
}

/// What `percent_decode` gives for the text `value`: the unescaped bytes,
/// read as UTF-8, or `None`.
pub open spec fn percent_decoded(value: Seq<char>) -> Option<Seq<char>> {
    match unescape_bytes(encode_utf8(value), seq![]) {
        Some(bytes) => if valid_utf8(bytes) {
            Some(decode_utf8(bytes))
        } else {
            None
        },
        None => None,
    }
}

/// `String::from_utf8`: the string whose bytes are `bytes`, or an error when
/// they are not valid UTF-8.
#[verifier::external_body]
fn string_from_utf8(bytes: Vec<u8>) -> (r: Option<String>)
    ensures
        r is Some <==> valid_utf8(bytes@),
        r matches Some(s) ==> s@ == decode_utf8(bytes@),
{
    String::from_utf8(bytes).ok()
}

pub fn percent_decode(value: &str) -> (r: Option<String>)
    ensures
        match r {
            Some(s) => percent_decoded(value@) == Some(s@),
            None => percent_decoded(value@) is None,
        },
{
    let bytes = value.as_bytes();
    let n = bytes.len();
    let mut decoded: Vec<u8> = Vec::new();
    let mut i: usize = 0;
    assert(bytes@.subrange(0, n as int) =~= bytes@);
    assert(decoded@ =~= Seq::<u8>::empty());
    while i < n
        invariant
            n == bytes@.len(),
            bytes@ == value.spec_bytes(),
            0 <= i <= n,
            unescape_bytes(value.spec_bytes(), seq![]) == unescape_bytes(
                bytes@.subrange(i as int, n as int),
                decoded@,
            ),
        decreases n - i,
    {
        let ghost b = bytes@.subrange(i as int, n as int);
        assert(b[0] == bytes@[i as int]);
        if bytes[i] == 37 {
            if n - i < 3 {
                return None;
            }
            assert(b[1] == bytes@[i + 1] && b[2] == bytes@[i + 2]);
            let hi = match hex_value(bytes[i + 1]) {
                Some(h) => h,
                None => return None,
            };
            let lo = match hex_value(bytes[i + 2]) {
                Some(l) => l,
                None => return None,
            };
            assert(b.subrange(3, b.len() as int) =~= bytes@.subrange(i + 3, n as int));
            decoded.push(hi * 16 + lo);
            i += 3;
        } else {
            assert(b.drop_first() =~= bytes@.subrange(i + 1, n as int));
            decoded.push(bytes[i]);
            i += 1;
        }
    }
    assert(bytes@.subrange(n as int, n as int).len() == 0);
    string_from_utf8(decoded)
}

/// The path that a `file://` URI names (the part after `file://`), with its
/// percent escapes decoded.
pub fn path_from_file_uri(uri: &str) -> (r: Option<String>)
    ensures
        match r {
            Some(s) => percent_decoded(uri@) == Some(s@),
            None => percent_decoded(uri@) is None,
        },
{
    percent_decode(uri)
}


// ---------------------------------------------------------------------------
// Paths (`std::path`, Unix)
// ---------------------------------------------------------------------------

/// What `Path::extension` gives for a path: the part of the file name after
/// its last dot, if there is one that does not start the name.
pub uninterp spec fn path_extension_of(path: Seq<char>) -> Option<Seq<char>>;

/// What `Path::file_name` gives for a path: its last component when that is
/// a normal name.
pub uninterp spec fn path_file_name_of(path: Seq<char>) -> Option<Seq<char>>;

/// What `Path::is_absolute` gives for a path on Unix: whether it starts
/// with the root, `/`.
pub open spec fn path_is_absolute_of(path: Seq<char>) -> bool {
    path.len() > 0 && path[0] == '/'
}

/// What `Path::starts_with` gives: whether the components of `path` begin
/// with those of `base`.
pub uninterp spec fn path_starts_with_of(path: Seq<char>, base: Seq<char>) -> bool;

/// What `Path::join` gives for `base` and `rest` on Unix (`PathBuf::push`):
/// an absolute `rest` replaces `base`; else `rest` follows `base`, with a
/// `/` between them unless `base` is empty or already ends with one.
pub open spec fn path_join_of(base: Seq<char>, rest: Seq<char>) -> Seq<char> {
    if path_is_absolute_of(rest) {
        rest
    } else if base.len() > 0 && base.last() != '/' {
        base + seq!['/'] + rest
    } else {
        base + rest
    }
}

/// What `==` on two `Path`s gives: whether their components are equal.
pub uninterp spec fn path_eq_of(a: Seq<char>, b: Seq<char>) -> bool;

/// `Path::extension` of the path `p`, as a string.
#[verifier::external_body]
fn path_extension(p: &str) -> (r: Option<String>)
    ensures
        match r {
            Some(e) => path_extension_of(p@) == Some(e@),
            None => path_extension_of(p@) is None,
        },
{
    std::path::Path::new(p).extension().and_then(|ext| ext.to_str()).map(|ext| ext.to_string())
}

/// `Path::file_name` of the path `p`, as a string.
#[verifier::external_body]
fn path_file_name(p: &str) -> (r: Option<String>)
    ensures
        match r {
            Some(e) => path_file_name_of(p@) == Some(e@),
            None => path_file_name_of(p@) is None,
        },
{
    std::path::Path::new(p).file_name().and_then(|name| name.to_str()).map(|name| name.to_string())
}

/// `Path::is_absolute` of the path `p`: on Unix, whether it starts with `/`.
#[verifier::external_body]
fn path_is_absolute(p: &str) -> (r: bool)
    ensures
        r == path_is_absolute_of(p@),
{
    std::path::Path::new(p).is_absolute()
}

/// `Path::starts_with` of the path `p` and the base `base`.
#[verifier::external_body]
fn path_starts_with(p: &str, base: &str) -> (r: bool)
    ensures
        r == path_starts_with_of(p@, base@),
{
    std::path::Path::new(p).starts_with(base)
}

/// `Path::join` of `base` and `rest`, as a string (lossless: both are
/// UTF-8), joined as `PathBuf::push` joins on Unix.
#[verifier::external_body]
fn path_join(base: &str, rest: &str) -> (r: String)
    ensures
        r@ == path_join_of(base@, rest@),
{
    std::path::Path::new(base).join(rest).to_string_lossy().into_owned()
}

/// `==` on the paths `a` and `b`.
#[verifier::external_body]
fn paths_equal(a: &str, b: &str) -> (r: bool)
    ensures
        r == path_eq_of(a@, b@),
{
    std::path::Path::new(a) == std::path::Path::new(b)
}

// ---------------------------------------------------------------------------
// Images
// ---------------------------------------------------------------------------

/// The lower-case file extensions that name images.
pub open spec fn is_image_extension(e: Seq<char>) -> bool {
    ||| e == "png"@
    ||| e == "jpg"@
    ||| e == "jpeg"@
    ||| e == "gif"@
    ||| e == "webp"@
    ||| e == "bmp"@
    ||| e == "tif"@
    ||| e == "tiff"@
    ||| e == "heic"@
    ||| e == "heif"@
    ||| e == "avif"@
    ||| e == "svg"@
}

fn eq_lit(v: &Vec<char>, lit: &str) -> (r: bool)
    ensures
        r == (v@ == lit@),
{
    let w = chars_of(lit);
    assert(v@.subrange(0, v@.len() as int) =~= v@);
    range_eq(v, 0, v.len(), &w)
}

fn is_image_extension_exec(e: &Vec<char>) -> (r: bool)
    ensures
        r == is_image_extension(e@),
{
    eq_lit(e, "png") || eq_lit(e, "jpg") || eq_lit(e, "jpeg") || eq_lit(e, "gif") || eq_lit(
        e,
        "webp",
    ) || eq_lit(e, "bmp") || eq_lit(e, "tif") || eq_lit(e, "tiff") || eq_lit(e, "heic")
        || eq_lit(e, "heif") || eq_lit(e, "avif") || eq_lit(e, "svg")
}

/// Whether `path` names an image that a paste may attach: its extension is
/// an image extension (in any case), and it is absolute, exists (`on_disk`),
/// starts with `.` or `..`, or starts with `~`.
pub open spec fn is_image_path_spec(path: Seq<char>, on_disk: bool) -> bool {
    match path_extension_of(path) {
        None => false,
        Some(e) => is_image_extension(ascii_lower_seq(e)) && (path_is_absolute_of(path) || on_disk
            || path_starts_with_of(path, "."@) || path_starts_with_of(path, ".."@) || (path.len() > 0
            && path[0] == '~')),
    }
}

/// `on_disk` says whether the path exists; it is consulted only for a
/// relative path.
pub fn is_image_path(path: &str, on_disk: bool) -> (r: bool)
    ensures
        r == is_image_path_spec(path@, on_disk),
{
    let ext = match path_extension(path) {
        Some(e) => e,
        None => return false,
    };
    let ev = chars_of(ext.as_str());
    let lower = ascii_lowercase_range(&ev, 0, ev.len());
    assert(ev@.subrange(0, ev@.len() as int) =~= ev@);
    if !is_image_extension_exec(&lower) {
        return false;
    }
    let pv = chars_of(path);
    path_is_absolute(path) || on_disk || path_starts_with(path, ".") || path_starts_with(path, "..")
        || (pv.len() > 0 && pv[0] == '~')
}

/// `value` with a leading `~/` replaced by the home directory `home` joined
/// with the rest, when `home` is known.
pub open spec fn expand_home(value: Seq<char>, home: Option<Seq<char>>) -> Seq<char> {
    if value.len() >= 2 && value[0] == '~' && value[1] == '/' && home is Some {
        path_join_of(home->0, value.subrange(2, value.len() as int))
    } else {
        value
    }
}

pub open spec fn opt_view(o: Option<&str>) -> Option<Seq<char>> {
    match o {
        Some(s) => Some(s@),
        None => None,
    }
}

/// `home` is the `HOME` directory of the process, if set.
pub fn expand_home_path(value: &str, home: Option<&str>) -> (r: String)
    ensures
        r@ == expand_home(value@, opt_view(home)),
{
    let v = chars_of(value);
    if v.len() >= 2 && v[0] == '~' && v[1] == '/' {
        if let Some(h) = home {
            let rest = string_of(&v, 2, v.len());
            return path_join(h, rest.as_str());
        }
    }
    string_from(value)
}

/// The path that a pasted token names: the decoded path of a `file://`
/// URI, or the token with `~/` expanded; `None` for a URI that does not
/// decode.
pub open spec fn token_path(token: Seq<char>, home: Option<Seq<char>>) -> Option<Seq<char>> {
    if token.len() >= 7 && token.subrange(0, 7) == "file://"@ {
        percent_decoded(token.subrange(7, token.len() as int))
    } else {
        Some(expand_home(token, home))
    }
}

pub fn image_path_candidate(token: &str, home: Option<&str>) -> (r: Option<String>)
    ensures
        match r {
            Some(p) => token_path(token@, opt_view(home)) == Some(p@),
            None => token_path(token@, opt_view(home)) is None,
        },
{
    let v = chars_of(token);
    let prefix = chars_of("file://");
    if range_starts_with(&v, 0, v.len(), &prefix) {
        proof {
            reveal_strlit("file://");
        }
        let rest = string_of(&v, 7, v.len());
        path_from_file_uri(rest.as_str())
    } else {
        proof {
            reveal_strlit("file://");
        }
        Some(expand_home_path(token, home))
    }
}

/// Whether some path of `existing` is the string `p`.
pub open spec fn listed(existing: Seq<String>, p: Seq<char>) -> bool {
    exists|i: int| 0 <= i < existing.len() && #[trigger] existing[i]@ == p
}

fn is_listed(existing: &Vec<String>, p: &String) -> (r: bool)
    ensures
        r == listed(existing@, p@),
{
    let mut i: usize = 0;
    while i < existing.len()
        invariant
            0 <= i <= existing@.len(),
            forall|k: int| 0 <= k < i ==> #[trigger] existing@[k]@ != p@,
        decreases existing@.len() - i,
    {
        if existing[i] == *p {
            return true;
        }
        i += 1;
    }
    false
}

/// The image path of a pasted token, given the paths known to exist on disk.
pub open spec fn token_image_path(
    token: Seq<char>,
    home: Option<Seq<char>>,
    existing: Seq<String>,
) -> Option<Seq<char>> {
    match token_path(token, home) {
        Some(p) => if is_image_path_spec(p, listed(existing, p)) {
            Some(p)
        } else {
            None
        },
        None => None,
    }
}

/// `existing` lists the candidate paths that exist on disk.
pub fn image_path_from_token(token: &str, home: Option<&str>, existing: &Vec<String>) -> (r:
    Option<String>)
    ensures
        match r {
            Some(p) => token_image_path(token@, opt_view(home), existing@) == Some(p@),
            None => token_image_path(token@, opt_view(home), existing@) is None,
        },
{
    let p = match image_path_candidate(token, home) {
        Some(p) => p,
        None => return None,
    };
    let on_disk = is_listed(existing, &p);
    if is_image_path(p.as_str(), on_disk) {
        Some(p)
    } else {
        None
    }
}

/// An image attached to the prompt, by path.
#[derive(Debug, Clone, PartialEq, Eq)]
pub struct ImageAttachment {
    pub path: String,
}

impl ImageAttachment {
    pub fn new(path: String) -> (r: Self)
        ensures
            r.path == path,
    {
        ImageAttachment { path }
    }

    /// The file name of the path, or the whole path when it has none.
    pub open spec fn label_spec(&self) -> Seq<char> {
        match path_file_name_of(self.path@) {
            Some(name) => name,
            None => self.path@,
        }
    }

    pub fn label(&self) -> (r: String)
        ensures
            r@ == self.label_spec(),
    {
        match path_file_name(self.path.as_str()) {
            Some(name) => name,
            None => self.path.clone(),
        }
    }
}

/// Whether `p` is, as a path, one of `paths`.
pub open spec fn has_path(paths: Seq<Seq<char>>, p: Seq<char>) -> bool {
    exists|i: int| 0 <= i < paths.len() && path_eq_of(#[trigger] paths[i], p)
}

/// The image paths of the first `tokens.len()` tokens, each kept once, or
/// `None` when one of them is not an image path.
pub open spec fn pasted_image_paths(
    tokens: Seq<Seq<char>>,
    home: Option<Seq<char>>,
    existing: Seq<String>,
) -> Option<Seq<Seq<char>>>
    decreases tokens.len(),
{
    if tokens.len() == 0 {
        Some(seq![])
    } else {
        match pasted_image_paths(tokens.drop_last(), home, existing) {
            Some(acc) => match token_image_path(tokens.last(), home, existing) {
                Some(p) => Some(
                    if has_path(acc, p) {
                        acc
                    } else {
                        acc.push(p)
                    },
                ),
                None => None,
            },
            None => None,
        }
    }
}

/// The images that pasted text names, when every token of it is an image
/// path (a path that appears twice is attached once), else `None`.
pub open spec fn pasted_images(text: Seq<char>, home: Option<Seq<char>>, existing: Seq<String>) -> Option<
    Seq<Seq<char>>,
> {
    let tokens = shell_tokens(text);
    if tokens.len() == 0 {
        None
    } else {
        match pasted_image_paths(tokens, home, existing) {
            Some(paths) => if paths.len() > 0 {
                Some(paths)
            } else {
                None
            },
            None => None,
        }
    }
}

pub open spec fn attachment_paths(a: Seq<ImageAttachment>) -> Seq<Seq<char>> {
    a.map_values(|x: ImageAttachment| x.path@)
}

fn has_attachment(attachments: &Vec<ImageAttachment>, p: &String) -> (r: bool)
    ensures
        r == has_path(attachment_paths(attachments@), p@),
{
    let mut i: usize = 0;
    while i < attachments.len()
        invariant
            0 <= i <= attachments@.len(),
            forall|k: int| 0 <= k < i ==> !path_eq_of(#[trigger] attachment_paths(attachments@)[k], p@),
        decreases attachments@.len() - i,
    {
        if paths_equal(attachments[i].path.as_str(), p.as_str()) {
            assert(attachment_paths(attachments@)[i as int] == attachments@[i as int].path@);
            return true;
        }
        i += 1;
    }
    false
}

/// `home` is the `HOME` directory, `existing` the candidate paths found on
/// disk.
pub fn image_attachments_from_paste(text: &str, home: Option<&str>, existing: &Vec<String>) -> (r:
    Option<Vec<ImageAttachment>>)
    ensures
        match r {
            Some(a) => pasted_images(text@, opt_view(home), existing@) == Some(attachment_paths(a@)),
            None => pasted_images(text@, opt_view(home), existing@) is None,
        },
{
    let tokens = shell_like_tokens(text);
    let ghost toks = views(tokens@);
    if tokens.len() == 0 {
        return None;
    }
    let mut attachments: Vec<ImageAttachment> = Vec::new();
    let mut i: usize = 0;
    assert(toks.take(0) =~= Seq::<Seq<char>>::empty());
    assert(attachment_paths(attachments@) =~= Seq::<Seq<char>>::empty());
    while i < tokens.len()
        invariant
            toks == views(tokens@),
            toks == shell_tokens(text@),
            0 <= i <= tokens@.len(),
            pasted_image_paths(toks.take(i as int), opt_view(home), existing@) == Some(
                attachment_paths(attachments@),
            ),
        decreases tokens@.len() - i,
    {
        assert(toks.take(i + 1).drop_last() =~= toks.take(i as int));
        assert(toks.take(i + 1).last() == tokens@[i as int]@);
        let path = match image_path_from_token(tokens[i].as_str(), home, existing) {
            Some(p) => p,
            None => {
                proof {
                    lemma_pasted_none_extends(toks, i as int + 1, opt_view(home), existing@);
                    assert(toks.take(toks.len() as int) =~= toks);
                }
                return None;
            },
        };
        if !has_attachment(&attachments, &path) {
            let ghost old_paths = attachment_paths(attachments@);
            attachments.push(ImageAttachment::new(path));
            assert(attachment_paths(attachments@) =~= old_paths.push(path@));
        }
        i += 1;
    }
    assert(toks.take(toks.len() as int) =~= toks);
    proof {
        lemma_pasted_nonempty(toks, opt_view(home), existing@);
    }
    Some(attachments)
}

proof fn lemma_pasted_none_extends(
    toks: Seq<Seq<char>>,
    i: int,
    home: Option<Seq<char>>,
    existing: Seq<String>,
)
    requires
        0 < i <= toks.len(),
        pasted_image_paths(toks.take(i), home, existing) is None,
    ensures
        pasted_image_paths(toks.take(toks.len() as int), home, existing) is None,
    decreases toks.len() - i,
{
    if i < toks.len() {
        assert(toks.take(i + 1).drop_last() =~= toks.take(i));
        lemma_pasted_none_extends(toks, i + 1, home, existing);
    }
}

proof fn lemma_pasted_nonempty(toks: Seq<Seq<char>>, home: Option<Seq<char>>, existing: Seq<String>)
    requires
        toks.len() > 0,
        pasted_image_paths(toks, home, existing) is Some,
    ensures
        pasted_image_paths(toks, home, existing)->0.len() > 0,
    decreases toks.len(),
{
    let acc = pasted_image_paths(toks.drop_last(), home, existing)->0;
    if toks.len() > 1 {
        lemma_pasted_nonempty(toks.drop_last(), home, existing);
    }
}

/// The MIME type that an image's extension names.
pub open spec fn mime_for_extension(e: Option<Seq<char>>) -> Seq<char> {
    match e {
        Some(x) => {
            let l = ascii_lower_seq(x);
            if l == "png"@ {
                "image/png"@
            } else if l == "jpg"@ || l == "jpeg"@ {
                "image/jpeg"@
            } else if l == "gif"@ {
                "image/gif"@
            } else if l == "webp"@ {
                "image/webp"@
            } else if l == "bmp"@ {
                "image/bmp"@
            } else if l == "tif"@ || l == "tiff"@ {
                "image/tiff"@
            } else if l == "heic"@ {
                "image/heic"@
            } else if l == "heif"@ {
                "image/heif"@
            } else if l == "avif"@ {
                "image/avif"@
            } else if l == "svg"@ {
                "image/svg+xml"@
            } else {
                "application/octet-stream"@
            }
        },
        None => "application/octet-stream"@,
    }
}

pub fn mime_type_for_image_path(path: &str) -> (r: &'static str)
    ensures
        r@ == mime_for_extension(path_extension_of(path@)),
{
    let ext = match path_extension(path) {
        Some(e) => e,
        None => return "application/octet-stream",
    };
    let ev = chars_of(ext.as_str());
    let l = ascii_lowercase_range(&ev, 0, ev.len());
    assert(ev@.subrange(0, ev@.len() as int) =~= ev@);
    if eq_lit(&l, "png") {
        "image/png"
    } else if eq_lit(&l, "jpg") || eq_lit(&l, "jpeg") {
        "image/jpeg"
    } else if eq_lit(&l, "gif") {
        "image/gif"
    } else if eq_lit(&l, "webp") {
        "image/webp"
    } else if eq_lit(&l, "bmp") {
        "image/bmp"
    } else if eq_lit(&l, "tif") || eq_lit(&l, "tiff") {
        "image/tiff"
    } else if eq_lit(&l, "heic") {
        "image/heic"
    } else if eq_lit(&l, "heif") {
        "image/heif"
    } else if eq_lit(&l, "avif") {
        "image/avif"
    } else if eq_lit(&l, "svg") {
        "image/svg+xml"
    } else {
        "application/octet-stream"
    }
}


/// `items` joined with `sep` between consecutive items.
pub open spec fn join(items: Seq<Seq<char>>, sep: Seq<char>) -> Seq<char>
    decreases items.len(),
{
    if items.len() == 0 {
        seq![]
    } else if items.len() == 1 {
        items[0]
    } else {
        join(items.drop_last(), sep) + sep + items.last()
    }
}

pub open spec fn attachment_labels(a: Seq<ImageAttachment>) -> Seq<Seq<char>> {
    a.map_values(|x: ImageAttachment| x.label_spec())
}

/// The transcript text of a prompt: the prompt, then (on a line of its own
/// when the prompt is not empty) `attached image: a.png` or
/// `attached images: a.png, b.png`.
pub open spec fn transcript_message(text: Seq<char>, a: Seq<ImageAttachment>) -> Seq<char> {
    if a.len() == 0 {
        text
    } else {
        let line = "attached image"@ + (if a.len() == 1 {
            ""@
        } else {
            "s"@
        }) + ": "@ + join(attachment_labels(a), ", "@);
        if text.len() == 0 {
            line
        } else {
            text + "\n"@ + line
        }
    }
}

pub fn transcript_message_with_image_attachments(text: &str, attachments: &Vec<ImageAttachment>) -> (r:
    String)
    ensures
        r@ == transcript_message(text@, attachments@),
{
    if attachments.len() == 0 {
        return string_from(text);
    }
    let mut labels = String::new();
    let mut i: usize = 0;
    assert(attachment_labels(attachments@).take(0) =~= Seq::<Seq<char>>::empty());
    while i < attachments.len()
        invariant
            0 <= i <= attachments@.len(),
            labels@ == join(attachment_labels(attachments@).take(i as int), ", "@),
        decreases attachments@.len() - i,
    {
        let ghost prev = labels@;
        let label = attachments[i].label();
        if i > 0 {
            push_str(&mut labels, ", ");
        }
        push_str(&mut labels, label.as_str());
        proof {
            let all = attachment_labels(attachments@);
            assert(all.take(i + 1).drop_last() =~= all.take(i as int));
            assert(all.take(i + 1).last() == attachments@[i as int].label_spec());
            if i == 0 {
                assert(labels@ =~= all.take(1)[0]);
            }
        }
        i += 1;
    }
    assert(attachment_labels(attachments@).take(attachments@.len() as int) =~= attachment_labels(
        attachments@,
    ));
    let mut out = String::new();
    if !text.is_empty() {
        push_str(&mut out, text);
        push_str(&mut out, "\n");
    }
    push_str(&mut out, "attached image");
    push_str(&mut out, plural_s(attachments.len()));
    push_str(&mut out, ": ");
    push_str(&mut out, labels.as_str());
    proof {
        let line = "attached image"@ + (if attachments@.len() == 1 {
            ""@
        } else {
            "s"@
        }) + ": "@ + join(attachment_labels(attachments@), ", "@);
        if text@.len() == 0 {
            assert(out@ =~= line);
        } else {
            assert(out@ =~= text@ + "\n"@ + line);
        }
    }
    out
}

/// The character of the standard base64 alphabet for the six bits `v`:
/// `A`–`Z`, `a`–`z`, `0`–`9`, `+`, `/`.
pub open spec fn base64_char(v: int) -> char {
    if v < 26 {
        ('A' as int + v) as char
    } else if v < 52 {
        ('a' as int + (v - 26)) as char
    } else if v < 62 {
        ('0' as int + (v - 52)) as char
    } else if v == 62 {
        '+'
    } else {
        '/'
    }
}

/// What the `base64` crate's standard engine (with padding) encodes `bytes`
/// to: each three bytes become four characters of six bits each, high bits
/// first; a last one or two bytes become two or three characters, padded
/// with `=` to four.
pub open spec fn base64_standard_of(bytes: Seq<u8>) -> Seq<char>
    decreases bytes.len(),
{
    let b0: int = if bytes.len() > 0 { bytes[0] as int } else { 0 };
    let b1: int = if bytes.len() > 1 { bytes[1] as int } else { 0 };
    let b2: int = if bytes.len() > 2 { bytes[2] as int } else { 0 };
    if bytes.len() == 0 {
        seq![]
    } else if bytes.len() == 1 {
        seq![base64_char(b0 / 4), base64_char((b0 % 4) * 16), '=', '=']
    } else if bytes.len() == 2 {
        seq![base64_char(b0 / 4), base64_char((b0 % 4) * 16 + b1 / 16), base64_char((b1 % 16) * 4), '=']
    } else {
        seq![
            base64_char(b0 / 4),
            base64_char((b0 % 4) * 16 + b1 / 16),
            base64_char((b1 % 16) * 4 + b2 / 64),
            base64_char(b2 % 64),
        ] + base64_standard_of(bytes.subrange(3, bytes.len() as int))
    }
}

/// Whether the standard padded encoding of `n` bytes has a length that fits
/// in `usize` (the encoder panics otherwise).
pub open spec fn base64_len_fits(n: nat) -> bool {
    (n / 3) * 4 + (if n % 3 > 0 {
        4int
    } else {
        0int
    }) <= usize::MAX
}

/// `base64::engine::general_purpose::STANDARD.encode`: the standard
/// alphabet with `=` padding, as `base64_standard_of` spells out.
#[verifier::external_body]
fn base64_standard(bytes: &[u8]) -> (r: String)
    requires
        base64_len_fits(bytes@.len()),
    ensures
        r@ == base64_standard_of(bytes@),
{
    base64::engine::general_purpose::STANDARD.encode(bytes)
}

/// The data URL of an image file whose bytes are `bytes`: `data:`, the MIME
/// type of the path, `;base64,` and the encoded bytes.
pub open spec fn image_data_url_spec(path: Seq<char>, bytes: Seq<u8>) -> Seq<char> {
    "data:"@ + mime_for_extension(path_extension_of(path)) + ";base64,"@ + base64_standard_of(bytes)
}

pub fn image_data_url(path: &str, bytes: &[u8]) -> (r: String)
    requires
        base64_len_fits(bytes@.len()),
    ensures
        r@ == image_data_url_spec(path@, bytes@),
{
    let encoded = base64_standard(bytes);
    let mut out = string_from("data:");
    push_str(&mut out, mime_type_for_image_path(path));
    push_str(&mut out, ";base64,");
    push_str(&mut out, encoded.as_str());
    assert(out@ =~= image_data_url_spec(path@, bytes@));
    out
}

/// The image paths of a paste are pairwise different paths.
pub open spec fn distinct_paths(paths: Seq<Seq<char>>) -> bool {
    forall|i: int, j: int| 0 <= i < j < paths.len() ==> !path_eq_of(#[trigger] paths[i], #[trigger] paths[j])
}

proof fn lemma_pasted_paths_distinct(
    tokens: Seq<Seq<char>>,
    home: Option<Seq<char>>,
    existing: Seq<String>,
)
    ensures
        pasted_image_paths(tokens, home, existing) matches Some(paths) ==> distinct_paths(paths),
    decreases tokens.len(),
{
    if tokens.len() > 0 {
        lemma_pasted_paths_distinct(tokens.drop_last(), home, existing);
        match pasted_image_paths(tokens.drop_last(), home, existing) {
            Some(acc) => match token_image_path(tokens.last(), home, existing) {
                Some(p) => {
                    if !has_path(acc, p) {
                        let n = acc.push(p);
                        assert forall|i: int, j: int| 0 <= i < j < n.len() implies !path_eq_of(
                            #[trigger] n[i],
                            #[trigger] n[j],
                        ) by {
                            if j == acc.len() {
                                assert(n[i] == acc[i]);
                            } else {
                                assert(n[i] == acc[i] && n[j] == acc[j]);
                            }
                        }
                    }
                },
                None => {},
            },
            None => {},
        }
    }
}

/// A pasted path is attached once, however often the paste names it.
pub proof fn law_pasted_images_are_distinct(text: Seq<char>, home: Option<Seq<char>>, existing: Seq<String>)
    ensures
        pasted_images(text, home, existing) matches Some(paths) ==> distinct_paths(paths),
{
    lemma_pasted_paths_distinct(shell_tokens(text), home, existing);
}

/// The image extensions are exactly those with an image MIME type: an
/// extension (in any ASCII case) is taken for an image if and only if the
/// data URL of such a file names an `image/` type rather than the generic
/// `application/octet-stream`.
pub proof fn law_image_extensions_have_image_mime_types(e: Seq<char>)
    ensures
        is_image_extension(ascii_lower_seq(e)) <==> mime_for_extension(Some(e)) != "application/octet-stream"@,
        is_image_extension(ascii_lower_seq(e)) ==> "image/"@.is_prefix_of(mime_for_extension(Some(e))),
{
    reveal_strlit("image/");
    reveal_strlit("png");
    reveal_strlit("jpg");
    reveal_strlit("jpeg");
    reveal_strlit("gif");
    reveal_strlit("webp");
    reveal_strlit("bmp");
    reveal_strlit("tif");
    reveal_strlit("tiff");
    reveal_strlit("heic");
    reveal_strlit("heif");
    reveal_strlit("avif");
    reveal_strlit("svg");
    reveal_strlit("image/png");
    reveal_strlit("image/jpeg");
    reveal_strlit("image/gif");
    reveal_strlit("image/webp");
    reveal_strlit("image/bmp");
    reveal_strlit("image/tiff");
    reveal_strlit("image/heic");
    reveal_strlit("image/heif");
    reveal_strlit("image/avif");
    reveal_strlit("image/svg+xml");
    reveal_strlit("application/octet-stream");
    let l = ascii_lower_seq(e);
    if is_image_extension(l) {
        assert("image/"@.is_prefix_of(mime_for_extension(Some(e))));
        assert(mime_for_extension(Some(e))[0] == 'i');
    }
}

/// An absolute path, or one that starts with `~`, `.` or `..`, or one that
/// exists, names an image exactly when its extension has an image MIME
/// type; so a pasted photo of any such type becomes an attachment.
pub proof fn law_image_paths_follow_mime_types(path: Seq<char>, on_disk: bool, e: Seq<char>)
    requires
        path_extension_of(path) == Some(e),
        path_is_absolute_of(path) || on_disk || (path.len() > 0 && path[0] == '~'),
    ensures
        is_image_path_spec(path, on_disk) <==> mime_for_extension(Some(e)) != "application/octet-stream"@,
{
    law_image_extensions_have_image_mime_types(e);
}

} // verus!

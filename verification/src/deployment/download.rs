//! Firmware download bookkeeping: file names, progress and the checks made
//! on the downloaded bytes.
use crate::deployment::types::Deployment;
use crate::deployment::DeploymentError;
use crate::text::{
    char_is_ascii_alnum, chars_of, concat, eq_ignore_ascii_case, equals_ignore_ascii_case, find_char,
    find_in, is_ascii_alnum, owned, push_char, trim, trim_char, trim_char_vec, trim_slice,
};
use vstd::prelude::*;
use vstd::string::StrSliceExecFns;
use vstd::utf8::{decode_utf8, valid_utf8};

verus! {

/// The character kept in a firmware file stem: ASCII letters, digits, `-`
/// and `_` stay, anything else becomes `_`.
pub open spec fn stem_char(c: char) -> char {
    if is_ascii_alnum(c) || c == '-' || c == '_' {
        c
    } else {
        '_'
    }
}

/// The character kept in a file suffix: as `stem_char`, and `.` stays too.
pub open spec fn suffix_char(c: char) -> char {
    if is_ascii_alnum(c) || c == '.' || c == '-' || c == '_' {
        c
    } else {
        '_'
    }
}

/// The path-safe stem of the firmware file for a firmware uuid.
pub open spec fn file_stem(uuid: Seq<char>) -> Seq<char> {
    let s = trim_char(uuid.map_values(|c: char| stem_char(c)), '_');
    if s.len() == 0 {
        "firmware-unknown"@
    } else {
        "firmware-"@ + s
    }
}

/// The sanitized suffix of a file name, from its first `.` on, when it is
/// longer than one character and holds a letter or digit.
pub open spec fn filename_suffix(name: Seq<char>) -> Option<Seq<char>> {
    match find_char(name, '.') {
        None => None,
        Some(i) => {
            let s = trim_char(name.skip(i).map_values(|c: char| suffix_char(c)), '_');
            if s.len() > 1 && exists|j: int| 0 <= j < s.len() && is_ascii_alnum(s[j]) {
                Some(s)
            } else {
                None
            }
        },
    }
}

/// Upper-case hexadecimal digit for a nibble.
pub open spec fn hex_digit(n: u8) -> char {
    if n < 10 {
        (('0' as u8) + n) as char
    } else {
        (('A' as u8) + (n - 10)) as char
    }
}

/// Upper-case hexadecimal encoding of bytes, two digits per byte.
pub open spec fn hex_upper(bytes: Seq<u8>) -> Seq<char>
    decreases bytes.len(),
{
    if bytes.len() == 0 {
        Seq::empty()
    } else {
        hex_upper(bytes.drop_last()) + seq![hex_digit(bytes.last() / 16), hex_digit(bytes.last() % 16)]
    }
}

/// Download progress as a percentage.
pub open spec fn percent_of(downloaded: u64, total: Option<u64>) -> u8 {
    match total {
        Some(t) => if t > 0 {
            let p = (downloaded as int * 100) / (t as int);
            if p <= 100 { p as u8 } else { 100 }
        } else {
            0
        },
        None => 0,
    }
}

/// The path-safe stem of the firmware file name.
pub fn firmware_file_stem(uuid: &str) -> (r: String)
    ensures
        r@ == file_stem(uuid@),
{
    let v = chars_of(uuid);
    let mut mapped: Vec<char> = Vec::new();
    let mut i: usize = 0;
    while i < v.len()
        invariant
            i <= v.len(),
            v@ == uuid@,
            mapped@ == v@.take(i as int).map_values(|c: char| stem_char(c)),
        decreases v.len() - i,
    {
        let c = v[i];
        let k = if char_is_ascii_alnum(c) || c == '-' || c == '_' {
            c
        } else {
            '_'
        };
        mapped.push(k);
        assert(v@.take(i + 1).map_values(|c: char| stem_char(c)) =~= v@.take(i as int).map_values(
            |c: char| stem_char(c),
        ).push(stem_char(c)));
        i = i + 1;
    }
    assert(v@.take(i as int) =~= v@);
    let s = trim_char_vec(&mapped, '_');
    if s.as_str().is_empty() {
        owned("firmware-unknown")
    } else {
        concat("firmware-", s.as_str())
    }
}

/// The sanitized file suffix of a file name (`.tar.gz` for `artifact.tar.gz`).
#[verifier::loop_isolation(false)]
pub fn suffix_from_filename(filename: &str) -> (r: Option<String>)
    ensures
        r matches Some(s) ==> filename_suffix(filename@) == Some(s@),
        r is None ==> filename_suffix(filename@) is None,
{
    let v = chars_of(filename);
    let start = match find_in(&v, '.') {
        Some(i) => i,
        None => {
            return None;
        },
    };
    let ghost tail = v@.skip(start as int);
    let mut mapped: Vec<char> = Vec::new();
    let mut i: usize = start;
    while i < v.len()
        invariant
            start <= i <= v.len(),
            v@ == filename@,
            tail == v@.skip(start as int),
            mapped@ == tail.take(i - start).map_values(|c: char| suffix_char(c)),
        decreases v.len() - i,
    {
        let c = v[i];
        let k = if char_is_ascii_alnum(c) || c == '.' || c == '-' || c == '_' {
            c
        } else {
            '_'
        };
        mapped.push(k);
        assert(tail.take(i + 1 - start).map_values(|c: char| suffix_char(c)) =~= tail.take(
            i - start,
        ).map_values(|c: char| suffix_char(c)).push(suffix_char(c)));
        i = i + 1;
    }
    assert(tail.take(i - start) =~= tail);
    let s = trim_char_vec(&mapped, '_');
    let w = chars_of(s.as_str());
    if w.len() <= 1 {
        return None;
    }
    let mut j: usize = 0;
    while j < w.len()
        invariant
            j <= w.len(),
            forall|k: int| 0 <= k < j ==> !is_ascii_alnum(w@[k]),
        decreases w.len() - j,
    {
        if char_is_ascii_alnum(w[j]) {
            proof {
                assert(mapped@ == tail.map_values(|c: char| suffix_char(c)));
                assert(is_ascii_alnum(s@[j as int]));
                assert(find_char(filename@, '.') == Some(start as int));
            }
            return Some(s);
        }
        j = j + 1;
    }
    None
}

/// Upper-case hexadecimal encoding of bytes.
pub fn uppercase_hex(bytes: &[u8]) -> (r: String)
    ensures
        r@ == hex_upper(bytes@),
{
    let mut encoded = String::new();
    let mut i: usize = 0;
    while i < bytes.len()
        invariant
            i <= bytes.len(),
            encoded@ == hex_upper(bytes@.take(i as int)),
        decreases bytes.len() - i,
    {
        let b = bytes[i];
        push_char(&mut encoded, hex_char(b / 16));
        push_char(&mut encoded, hex_char(b % 16));
        assert(bytes@.take(i + 1).drop_last() =~= bytes@.take(i as int));
        i = i + 1;
    }
    assert(bytes@.take(i as int) =~= bytes@);
    encoded
}

/// The upper-case hexadecimal digit for a nibble.
fn hex_char(n: u8) -> (c: char)
    requires
        n < 16,
    ensures
        c == hex_digit(n),
{
    if n < 10 {
        (48 + n) as char
    } else {
        (65 + (n - 10)) as char
    }
}

/// Download progress as a percentage, 0 while the total is unknown or zero.
pub fn progress_percent(downloaded: u64, total: Option<u64>) -> (r: u8)
    requires
        total matches Some(t) && t > 0 ==> downloaded as int * 100 <= u64::MAX,
    ensures
        r == percent_of(downloaded, total),
        r <= 100,
{
    match total {
        Some(t) => {
            if t > 0 {
                let p = (downloaded * 100) / t;
                if p <= 100 {
                    p as u8
                } else {
                    100
                }
            } else {
                0
            }
        },
        None => 0,
    }
}

/// What `reqwest::Url::parse` yields for a URL text: `None` when it is no
/// URL; otherwise the path segments (`Url::path_segments`, absent for a
/// cannot-be-a-base URL) and the decoded query pairs (`Url::query_pairs`).
pub uninterp spec fn url_parts(url: Seq<char>) -> Option<
    (Option<Seq<Seq<char>>>, Seq<(Seq<char>, Seq<char>)>),
>;

/// The texts of a list of strings.
pub open spec fn texts(v: Seq<String>) -> Seq<Seq<char>> {
    v.map_values(|s: String| s@)
}

/// The texts of a list of string pairs.
pub open spec fn text_pairs(v: Seq<(String, String)>) -> Seq<(Seq<char>, Seq<char>)> {
    v.map_values(|p: (String, String)| (p.0@, p.1@))
}

/// Parses a URL with `reqwest::Url::parse` and hands back its path segments
/// (`Url::path_segments`) and decoded query pairs (`Url::query_pairs`). The
/// contract names the result `url_parts` of the text and says nothing more.
#[verifier::external_body]
fn parse_url_parts(url: &str) -> (r: Option<(Option<Vec<String>>, Vec<(String, String)>)>)
    ensures
        match r {
            None => url_parts(url@) is None,
            Some((segments, pairs)) => url_parts(url@) == Some(
                (
                    match segments {
                        Some(s) => Some(texts(s@)),
                        None => None,
                    },
                    text_pairs(pairs@),
                ),
            ),
        },
{
    let parsed = reqwest::Url::parse(url).ok()?;
    let segments = parsed.path_segments().map(|s| s.map(|x| x.to_string()).collect());
    let pairs = parsed.query_pairs().map(|(k, v)| (k.into_owned(), v.into_owned())).collect();
    Some((segments, pairs))
}

/// What URL-safe, unpadded base64 decoding gives for a text (`None` when it
/// is not valid base64).
pub uninterp spec fn base64_url_decode(text: Seq<char>) -> Option<Seq<u8>>;

/// Decodes URL-safe base64 without padding
/// (`base64::engine::general_purpose::URL_SAFE_NO_PAD.decode`).
#[verifier::external_body]
fn decode_url_safe_no_pad(text: &str) -> (r: Option<Vec<u8>>)
    ensures
        match r {
            Some(v) => base64_url_decode(text@) == Some(v@),
            None => base64_url_decode(text@) is None,
        },
{
    base64::Engine::decode(&base64::engine::general_purpose::URL_SAFE_NO_PAD, text.as_bytes()).ok()
}

/// `String::from_utf8`: the text that valid UTF-8 bytes encode.
#[verifier::external_body]
fn utf8_text(bytes: Vec<u8>) -> (r: Option<String>)
    ensures
        r is Some <==> valid_utf8(bytes@),
        r matches Some(s) ==> s@ == decode_utf8(bytes@),
{
    String::from_utf8(bytes).ok()
}

/// The last non-empty path segment.
pub open spec fn last_nonempty(segs: Seq<Seq<char>>) -> Option<Seq<char>>
    decreases segs.len(),
{
    if segs.len() == 0 {
        None
    } else if segs.last().len() > 0 {
        Some(segs.last())
    } else {
        last_nonempty(segs.drop_last())
    }
}

/// The value of the first query pair whose key is `firmware`.
pub open spec fn firmware_query(pairs: Seq<(Seq<char>, Seq<char>)>) -> Option<Seq<char>>
    decreases pairs.len(),
{
    if pairs.len() == 0 {
        None
    } else if pairs[0].0 == "firmware"@ {
        Some(pairs[0].1)
    } else {
        firmware_query(pairs.drop_first())
    }
}

/// The artifact suffix of a URL: the suffix of its last non-empty path
/// segment, else that of the URL carried, base64-encoded, in a `firmware`
/// query parameter (a proxy URL), followed at most `depth` times.
/// A wrapped URL is base64 inside a query value of the one around it, so the
/// nesting is shallower than the URL is long: `artifact_suffix_from_url`
/// follows it as many times as the URL has characters.
pub open spec fn url_suffix(url: Seq<char>, depth: nat) -> Option<Seq<char>>
    decreases depth,
{
    match url_parts(url) {
        None => None,
        Some((segments, pairs)) => {
            let from_path = match segments {
                Some(s) => match last_nonempty(s) {
                    Some(name) => filename_suffix(name),
                    None => None,
                },
                None => None,
            };
            if from_path is Some {
                from_path
            } else if depth == 0 {
                None
            } else {
                match firmware_query(pairs) {
                    None => None,
                    Some(encoded) => match base64_url_decode(encoded) {
                        None => None,
                        Some(bytes) => if valid_utf8(bytes) {
                            url_suffix(decode_utf8(bytes), (depth - 1) as nat)
                        } else {
                            None
                        },
                    },
                }
            }
        },
    }
}

fn suffix_from_segments(segments: &Vec<String>) -> (r: Option<String>)
    ensures
        r matches Some(s) ==> (last_nonempty(texts(segments@)) matches Some(n) && filename_suffix(
            n,
        ) == Some(s@)),
        r is None ==> (match last_nonempty(texts(segments@)) {
            Some(n) => filename_suffix(n) is None,
            None => true,
        }),
{
    let mut i = segments.len();
    assert(texts(segments@).take(i as int) =~= texts(segments@));
    while i > 0 && segments[i - 1].as_str().is_empty()
        invariant
            i <= segments.len(),
            last_nonempty(texts(segments@)) == last_nonempty(texts(segments@).take(i as int)),
        decreases i,
    {
        proof {
            assert(texts(segments@).take(i as int).drop_last() =~= texts(segments@).take(i - 1));
        }
        i = i - 1;
    }
    if i == 0 {
        assert(texts(segments@).take(0) =~= Seq::<Seq<char>>::empty());
        return None;
    }
    suffix_from_filename(segments[i - 1].as_str())
}

fn find_firmware_query(pairs: &Vec<(String, String)>) -> (r: Option<String>)
    ensures
        r matches Some(s) ==> firmware_query(text_pairs(pairs@)) == Some(s@),
        r is None ==> firmware_query(text_pairs(pairs@)) is None,
{
    let mut i: usize = 0;
    assert(text_pairs(pairs@).skip(0) =~= text_pairs(pairs@));
    while i < pairs.len()
        invariant
            i <= pairs.len(),
            firmware_query(text_pairs(pairs@)) == firmware_query(text_pairs(pairs@).skip(i as int)),
        decreases pairs.len() - i,
    {
        if crate::text::str_eq(pairs[i].0.as_str(), "firmware") {
            return Some(pairs[i].1.clone());
        }
        assert(text_pairs(pairs@).skip(i as int).drop_first() =~= text_pairs(pairs@).skip(i + 1));
        i = i + 1;
    }
    None
}

/// The artifact suffix of a download URL, following proxy URLs at most
/// `depth` times.
pub fn artifact_suffix_with_depth(url: &str, depth: usize) -> (r: Option<String>)
    ensures
        r matches Some(s) ==> url_suffix(url@, depth as nat) == Some(s@),
        r is None ==> url_suffix(url@, depth as nat) is None,
    decreases depth,
{
    let (segments, pairs) = match parse_url_parts(url) {
        Some(parts) => parts,
        None => {
            return None;
        },
    };
    if let Some(segs) = &segments {
        if let Some(s) = suffix_from_segments(segs) {
            return Some(s);
        }
    }
    if depth == 0 {
        return None;
    }
    let encoded = match find_firmware_query(&pairs) {
        Some(e) => e,
        None => {
            return None;
        },
    };
    let bytes = match decode_url_safe_no_pad(encoded.as_str()) {
        Some(b) => b,
        None => {
            return None;
        },
    };
    let decoded = match utf8_text(bytes) {
        Some(t) => t,
        None => {
            return None;
        },
    };
    artifact_suffix_with_depth(decoded.as_str(), depth - 1)
}

/// The artifact suffix of a download URL (`.tar.gz`, `.fw`, ...), following
/// proxy URLs as many times as the URL has characters.
pub fn artifact_suffix_from_url(url: &str) -> (r: Option<String>)
    ensures
        r matches Some(s) ==> url_suffix(url@, url@.len()) == Some(s@),
        r is None ==> url_suffix(url@, url@.len()) is None,
{
    artifact_suffix_with_depth(url, url.unicode_len())
}

/// The file name under which a deployment's firmware is stored: the stem of
/// its uuid and the artifact suffix of its URL.
pub open spec fn file_name(d: Deployment) -> Seq<char> {
    file_stem(d.firmware_meta.uuid@) + match url_suffix(d.firmware_url@, d.firmware_url@.len()) {
        Some(s) => s,
        None => Seq::empty(),
    }
}

/// The file name under which a deployment's firmware is stored.
pub fn firmware_file_name(deployment: &Deployment) -> (r: String)
    ensures
        r@ == file_name(*deployment),
{
    let stem = firmware_file_stem(deployment.firmware_meta.uuid.as_str());
    match artifact_suffix_from_url(deployment.firmware_url.as_str()) {
        Some(suffix) => concat(stem.as_str(), suffix.as_str()),
        None => {
            assert(stem@ + Seq::<char>::empty() =~= stem@);
            stem
        },
    }
}

/// The name of the file that a download is written to before it is checked
/// and renamed: the firmware file name with `.tmp` appended.
pub fn partial_file_name(deployment: &Deployment) -> (r: String)
    ensures
        r@ == file_name(*deployment) + ".tmp"@,
{
    let mut name = firmware_file_name(deployment);
    name.append(".tmp");
    name
}

/// The outcome of the firmware request: a successful HTTP status lets the
/// download proceed, any other fails it with the status text.
pub fn response_outcome(success: bool, status: &str) -> (r: Result<(), DeploymentError>)
    ensures
        r is Ok <==> success,
        r matches Err(e) ==> (e matches DeploymentError::Download(m) && m@ == "HTTP "@ + status@),
{
    if success {
        Ok(())
    } else {
        Err(DeploymentError::Download(concat("HTTP ", status)))
    }
}

/// The checksum a deployment announces, when it is non-blank.
pub open spec fn announced_checksum(d: Deployment) -> Option<Seq<char>> {
    match d.checksum {
        Some(c) => if trim(c@).len() > 0 {
            Some(trim(c@))
        } else {
            None
        },
        None => None,
    }
}

/// The outcome of the checks made on downloaded firmware.
pub open spec fn download_accepted(d: Deployment, downloaded: u64, digest: Seq<u8>) -> bool {
    &&& (d.size matches Some(expected) ==> downloaded == expected)
    &&& (announced_checksum(d) matches Some(c) ==> eq_ignore_ascii_case(hex_upper(digest), c))
}

/// Checks a finished download against the size and checksum that the
/// deployment announced: the byte count must match the size, and the SHA-256
/// digest, in hexadecimal, must equal the checksum regardless of case.
pub fn check_download(deployment: &Deployment, downloaded: u64, digest: &[u8]) -> (r: Result<
    (),
    DeploymentError,
>)
    ensures
        r is Ok <==> download_accepted(*deployment, downloaded, digest@),
        r matches Err(e) ==> match e {
            DeploymentError::SizeMismatch { expected, actual } => deployment.size == Some(expected)
                && actual == downloaded && expected != downloaded,
            DeploymentError::ChecksumMismatch { expected, actual } => (deployment.size matches Some(
                s,
            ) ==> s == downloaded) && announced_checksum(*deployment) == Some(expected@)
                && actual@ == hex_upper(digest@),
            _ => false,
        },
{
    if let Some(expected) = deployment.size {
        if downloaded != expected {
            return Err(DeploymentError::SizeMismatch { expected, actual: downloaded });
        }
    }
    if let Some(checksum) = &deployment.checksum {
        let expected = trim_slice(checksum.as_str());
        if !expected.is_empty() {
            let actual = uppercase_hex(digest);
            if !equals_ignore_ascii_case(actual.as_str(), expected) {
                return Err(
                    DeploymentError::ChecksumMismatch { expected: owned(expected), actual },
                );
            }
        }
    }
    Ok(())
}

} // verus!

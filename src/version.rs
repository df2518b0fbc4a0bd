//! Decoding of `hw version` output: model, client and firmware versions, the
//! hardware variant, and whether client and firmware agree.

use vstd::prelude::*;

use crate::ansi::{strip_ansi, strip_spec};
use crate::pattern::{group, group_spec, is_match, matches_spec};
use crate::text::{lower_of,
    chars_of, contains, eq_ignore_case, lines_of, lines_spec, lower, seq_contains, str_eq,
    string_of, to_lower, views,
    trim, trim_spec,
};

verus! {

/// Versions and variant decoded from `hw version`.
#[derive(Clone, Debug)]
pub struct HwVersionInfo {
    pub model: String,
    pub client_version: String,
    pub os_version: String,
    /// "rdv4", "rdv4-bt", "generic" or "generic-256".
    pub hardware_variant: String,
    pub versions_match: bool,
}

/// `client: Iceman/master/v4.20728-234-g1a2b3c4d5-dirty`
pub const CLIENT_VERSION_RE: &'static str = r"(?i)client\s*:\s*(.+)";
/// The first line after a `[ Client ]` header, for outputs without `client:`.
pub const CLIENT_SECTION_RE: &'static str = r"(?i)\[\s*Client\s*\]\s*\n\s*(.+)";
/// `os: ...` or `OS......... ...`
pub const OS_VERSION_RE: &'static str = r"(?im)^\s*os[\s.:]+(.+)";
/// The commit hash after `-g`.
pub const COMMIT_HASH_RE: &'static str = r"-g([0-9a-fA-F]{7,})";
/// The base version `v4.20728`.
pub const BASE_VERSION_RE: &'static str = r"v(\d+\.\d+)";
/// The 256K-flash microcontroller.
pub const UC_256K_RE: &'static str = r"(?i)AT91SAM7S256";

/// Whether `c` is alphanumeric in Unicode's sense.
pub uninterp spec fn alphanumeric(c: char) -> bool;

/// Relies on `char::is_alphanumeric`: Unicode `Alphabetic` or `Numeric`.
#[verifier::external_body]
fn is_alphanumeric(c: char) -> (r: bool)
    ensures
        r == alphanumeric(c),
        ('0' <= c && c <= '9') || ('a' <= c && c <= 'z') || ('A' <= c && c <= 'Z') ==> r,
{
    c.is_alphanumeric()
}

/// The commit hash of a version string, lower-cased.
pub open spec fn commit_hash(v: Seq<char>) -> Option<Seq<char>> {
    match group_spec(COMMIT_HASH_RE@, v, 1) {
        Some(h) => Some(lower_of(h)),
        None => None,
    }
}

pub open spec fn base_version(v: Seq<char>) -> Option<Seq<char>> {
    group_spec(BASE_VERSION_RE@, v, 1)
}

/// Two versions agree when both are known and their commit hashes agree
/// (case aside); when either lacks a hash, their base versions must be
/// present and equal.
pub open spec fn versions_agree(client: Seq<char>, os: Seq<char>) -> bool {
    if client.len() == 0 || os.len() == 0 {
        false
    } else if commit_hash(client) is Some && commit_hash(os) is Some {
        lower(commit_hash(client)->0) == lower(commit_hash(os)->0)
    } else if base_version(client) is Some && base_version(os) is Some {
        base_version(client) == base_version(os)
    } else {
        false
    }
}

fn extract_commit_hash(version: &str) -> (r: Option<String>)
    ensures
        match r {
            Some(h) => commit_hash(version@) == Some(h@),
            None => commit_hash(version@) is None,
        },
{
    match group(COMMIT_HASH_RE, version, 1) {
        Some(h) => Some(to_lower(h.as_str())),
        None => None,
    }
}

fn extract_base_version(version: &str) -> (r: Option<String>)
    ensures
        match r {
            Some(b) => base_version(version@) == Some(b@),
            None => base_version(version@) is None,
        },
{
    group(BASE_VERSION_RE, version, 1)
}

/// Whether the client and firmware versions agree; unknown versions never do,
/// so that the user is offered an update.
pub fn compare_versions(client_ver: &str, os_ver: &str) -> (r: bool)
    ensures
        r == versions_agree(client_ver@, os_ver@),
{
    if client_ver.unicode_len() == 0 || os_ver.unicode_len() == 0 {
        return false;
    }
    if let (Some(cc), Some(oc)) = (extract_commit_hash(client_ver), extract_commit_hash(os_ver)) {
        return eq_ignore_case(cc.as_str(), oc.as_str());
    }
    if let (Some(cb), Some(ob)) = (extract_base_version(client_ver), extract_base_version(os_ver)) {
        return str_eq(cb.as_str(), ob.as_str());
    }
    false
}

/// Some line of `ls` mentions both `a` and `b`, case-insensitively.
pub open spec fn some_line_with(ls: Seq<Seq<char>>, a: Seq<char>, b: Seq<char>) -> bool {
    exists|i: int|
        0 <= i < ls.len() && #[trigger] seq_contains(lower_of(ls[i]), a) && seq_contains(
            lower_of(ls[i]),
            b,
        )
}

/// The hardware variant that `hw version` output describes.
pub open spec fn variant_spec(out: Seq<char>) -> Seq<char> {
    let ls = lines_spec(out);
    if matches_spec(UC_256K_RE@, out) {
        "generic-256"@
    } else if some_line_with(ls, "external flash"@, "present"@) && some_line_with(
        ls,
        "smartcard"@,
        "present"@,
    ) {
        if some_line_with(ls, "fpc usart"@, "present"@) {
            "rdv4-bt"@
        } else {
            "rdv4"@
        }
    } else {
        "generic"@
    }
}

/// Whether some line of `lines` mentions both `a` and `b`, case-insensitively.
fn any_line_with(lines: &Vec<String>, a: &str, b: &str) -> (r: bool)
    ensures
        r == some_line_with(views(lines@), a@, b@),
{
    let mut i: usize = 0;
    while i < lines.len()
        invariant
            i <= lines.len(),
            forall|k: int|
                0 <= k < i ==> !(#[trigger] seq_contains(lower_of(views(lines@)[k]), a@)
                    && seq_contains(lower_of(views(lines@)[k]), b@)),
        decreases lines.len() - i,
    {
        let low = to_lower(lines[i].as_str());
        let lv = chars_of(low.as_str());
        assert(views(lines@)[i as int] == lines@[i as int]@);
        if contains(&lv, a) && contains(&lv, b) {
            return true;
        }
        i = i + 1;
    }
    false
}

/// The hardware variant: "generic-256" for the 256K microcontroller, "rdv4"
/// with external flash and smartcard reader, "rdv4-bt" with the Bluetooth
/// UART besides, "generic" otherwise.
pub fn detect_hardware_variant(output: &str) -> (r: String)
    ensures
        r@ == variant_spec(output@),
{
    if is_match(UC_256K_RE, output) {
        return String::from_str("generic-256");
    }
    let lines = lines_of(output);
    let has_ext_flash = any_line_with(&lines, "external flash", "present");
    let has_smartcard = any_line_with(&lines, "smartcard", "present");
    if has_ext_flash && has_smartcard {
        if any_line_with(&lines, "fpc usart", "present") {
            String::from_str("rdv4-bt")
        } else {
            String::from_str("rdv4")
        }
    } else {
        String::from_str("generic")
    }
}

pub open spec fn is_decoration(c: char) -> bool {
    !alphanumeric(c) && c != ' '
}

/// Index of the first non-decoration character at or after `i`.
pub open spec fn first_plain(s: Seq<char>, i: int) -> int
    decreases s.len() - i,
{
    if i < 0 || i >= s.len() || !is_decoration(s[i]) {
        i
    } else {
        first_plain(s, i + 1)
    }
}

/// One past the last non-decoration character before `j`, not below `a`.
pub open spec fn last_plain(s: Seq<char>, a: int, j: int) -> int
    decreases j - a,
{
    if j <= a || !is_decoration(s[j - 1]) {
        j
    } else {
        last_plain(s, a, j - 1)
    }
}

/// `s` without leading and trailing characters that are neither
/// alphanumeric nor a space.
pub open spec fn trim_decoration_spec(s: Seq<char>) -> Seq<char> {
    let a = first_plain(s, 0);
    if a >= s.len() {
        Seq::empty()
    } else {
        s.subrange(a, last_plain(s, a, s.len() as int))
    }
}

/// A line that names the instrument.
pub open spec fn is_model_line(t: Seq<char>) -> bool {
    (seq_contains(t, "Prox"@) && seq_contains(t, "RFID"@)) || seq_contains(t, "Proxmark"@)
}

/// The model from the lines from `i` on: the first model line that keeps
/// some text once trimmed and stripped of decoration; "Proxmark3" if none.
pub open spec fn model_from(ls: Seq<Seq<char>>, i: int) -> Seq<char>
    decreases ls.len() - i,
{
    if i < 0 || i >= ls.len() {
        "Proxmark3"@
    } else if is_model_line(trim_spec(ls[i])) && trim_decoration_spec(trim_spec(ls[i])).len() > 0 {
        trim_decoration_spec(trim_spec(ls[i]))
    } else {
        model_from(ls, i + 1)
    }
}

fn trim_decoration(s: &str) -> (r: String)
    ensures
        r@ == trim_decoration_spec(s@),
{
    let v = chars_of(s);
    let mut a: usize = 0;
    while a < v.len() && !is_alphanumeric(v[a]) && v[a] != ' '
        invariant
            v@ == s@,
            a <= v.len(),
            first_plain(v@, 0) == first_plain(v@, a as int),
        decreases v.len() - a,
    {
        a = a + 1;
    }
    if a >= v.len() {
        return String::new();
    }
    let mut b: usize = v.len();
    while b > a && !is_alphanumeric(v[b - 1]) && v[b - 1] != ' '
        invariant
            v@ == s@,
            a < v.len(),
            a <= b <= v.len(),
            last_plain(v@, a as int, v.len() as int) == last_plain(v@, a as int, b as int),
        decreases b,
    {
        b = b - 1;
    }
    let mut out: Vec<char> = Vec::new();
    let mut i: usize = a;
    while i < b
        invariant
            a <= i <= b,
            b <= v.len(),
            out@ == v@.subrange(a as int, i as int),
        decreases b - i,
    {
        out.push(v[i]);
        i = i + 1;
    }
    string_of(&out)
}

/// The model line (one naming "Prox" and "RFID", or "Proxmark"), stripped
/// of decoration; "Proxmark3" when none is found.
fn parse_model(output: &str) -> (r: String)
    ensures
        r@ == model_from(lines_spec(output@), 0),
{
    let lines = lines_of(output);
    let ghost ls = lines_spec(output@);
    let mut i: usize = 0;
    while i < lines.len()
        invariant
            i <= lines.len(),
            views(lines@) == ls,
            ls == lines_spec(output@),
            model_from(ls, 0) == model_from(ls, i as int),
        decreases lines.len() - i,
    {
        assert(ls[i as int] == lines@[i as int]@);
        let t = trim(lines[i].as_str());
        let tv = chars_of(t.as_str());
        if (contains(&tv, "Prox") && contains(&tv, "RFID")) || contains(&tv, "Proxmark") {
            let cleaned = trim_decoration(t.as_str());
            if cleaned.unicode_len() > 0 {
                return cleaned;
            }
        }
        i = i + 1;
    }
    assert(views(lines@).len() == lines@.len());
    String::from_str("Proxmark3")
}

/// The trimmed group 1 of the first of two patterns that matches, or empty.
pub open spec fn first_trimmed_group(first: Seq<char>, second: Seq<char>, text: Seq<char>) -> Seq<
    char,
> {
    match group_spec(first, text, 1) {
        Some(g) => trim_spec(g),
        None => match group_spec(second, text, 1) {
            Some(g) => trim_spec(g),
            None => Seq::empty(),
        },
    }
}

/// The trimmed group 1 of the first pattern that matches, or empty.
fn trimmed_group(first: &str, second: &str, text: &str) -> (r: String)
    ensures
        r@ == first_trimmed_group(first@, second@, text@),
{
    match group(first, text, 1) {
        Some(c) => trim(c.as_str()),
        None => match group(second, text, 1) {
            Some(c) => trim(c.as_str()),
            None => String::new(),
        },
    }
}

/// Decodes `hw version` output.
pub fn parse_detailed_hw_version(output: &str) -> (r: HwVersionInfo)
    ensures
        r.versions_match == versions_agree(r.client_version@, r.os_version@),
        r.model@ == model_from(lines_spec(strip_spec(output@)), 0),
        r.client_version@ == first_trimmed_group(
            CLIENT_VERSION_RE@,
            CLIENT_SECTION_RE@,
            strip_spec(output@),
        ),
        r.hardware_variant@ == variant_spec(strip_spec(output@)),
        r.os_version@ == match group_spec(OS_VERSION_RE@, strip_spec(output@), 1) {
            Some(g) => trim_spec(g),
            None => Seq::<char>::empty(),
        },
{
    let clean_s = strip_ansi(output);
    let clean = clean_s.as_str();
    let model = parse_model(clean);
    let client_version = trimmed_group(CLIENT_VERSION_RE, CLIENT_SECTION_RE, clean);
    let os_version = match group(OS_VERSION_RE, clean, 1) {
        Some(c) => trim(c.as_str()),
        None => String::new(),
    };
    let hardware_variant = detect_hardware_variant(clean);
    let versions_match = compare_versions(client_version.as_str(), os_version.as_str());
    HwVersionInfo { model, client_version, os_version, hardware_variant, versions_match }
}

} // verus!

//! Utility functions: batch-input validation, human-readable formatting,
//! version-string inspection and timeout parsing.

use vstd::prelude::*;
use vstd::string::*;
use crate::checker::is_name_char;
use crate::error::CrateCheckerError;
use crate::text::{
    dec_digits, one_decimal, parse_u32, parse_u64, repeat_str, spec_one_decimal, spec_parse_u32,
    spec_parse_u64, spec_repeat, u64_to_dec, usize_to_dec,
};
use crate::types::{BatchInput, BatchInputView};

verus! {

/// A batch input is well-formed when its shape is non-empty, every named
/// package is non-empty, the versions of a version map are non-empty, and
/// every operation carries a label.
pub open spec fn spec_valid_batch_input(input: BatchInputView) -> bool {
    match input {
        BatchInputView::CrateVersionMap(pairs) => pairs.len() > 0 && forall|i: int|
            0 <= i < pairs.len() ==> (#[trigger] pairs[i]).0.len() > 0 && pairs[i].1.len() > 0,
        BatchInputView::CrateList(names) => names.len() > 0 && forall|i: int|
            0 <= i < names.len() ==> (#[trigger] names[i]).len() > 0,
        BatchInputView::Operations(ops) => ops.len() > 0 && forall|i: int|
            0 <= i < ops.len() ==> (#[trigger] ops[i]).operation.len() > 0,
    }
}

/// Validate a batch input structure: accepts exactly the well-formed
/// inputs, and rejects the others with a validation error before any
/// upstream work happens.
pub fn validate_batch_input(input: &BatchInput) -> (r: Result<(), CrateCheckerError>)
    ensures
        r is Ok <==> spec_valid_batch_input(input@),
        r matches Err(e) ==> e is ValidationError,
{
    match input {
        BatchInput::CrateVersionMap(pairs) => {
            let ghost pv = pairs.deep_view();
            if pairs.len() == 0 {
                return Err(CrateCheckerError::validation("Crate version map cannot be empty"));
            }
            let mut i: usize = 0;
            while i < pairs.len()
                invariant
                    input@ == BatchInputView::CrateVersionMap(pv),
                    pv == pairs.deep_view(),
                    pv.len() == pairs@.len(),
                    0 <= i <= pairs@.len(),
                    forall|k: int|
                        0 <= k < i ==> (#[trigger] pv[k]).0.len() > 0 && pv[k].1.len() > 0,
                decreases pairs@.len() - i,
            {
                if pairs[i].0.as_str().is_empty() {
                    proof {
                        assert(pv[i as int].0 =~= pairs@[i as int].0@);
                        assert(!spec_valid_batch_input(input@));
                    }
                    return Err(CrateCheckerError::validation("Crate name cannot be empty"));
                }
                if pairs[i].1.as_str().is_empty() {
                    proof {
                        assert(pv[i as int].1 =~= pairs@[i as int].1@);
                        assert(!spec_valid_batch_input(input@));
                    }
                    let mut m = "Version for crate '".to_owned();
                    m.append(pairs[i].0.as_str());
                    m.append("' cannot be empty");
                    return Err(CrateCheckerError::ValidationError(m));
                }
                i = i + 1;
            }
            Ok(())
        },
        BatchInput::CrateList { crates } => {
            let ghost nv = crates.deep_view();
            if crates.len() == 0 {
                return Err(CrateCheckerError::validation("Crates list cannot be empty"));
            }
            let mut i: usize = 0;
            while i < crates.len()
                invariant
                    input@ == BatchInputView::CrateList(nv),
                    nv == crates.deep_view(),
                    nv.len() == crates@.len(),
                    0 <= i <= crates@.len(),
                    forall|k: int| 0 <= k < i ==> (#[trigger] nv[k]).len() > 0,
                decreases crates@.len() - i,
            {
                if crates[i].as_str().is_empty() {
                    proof {
                        assert(nv[i as int] =~= crates@[i as int]@);
                        assert(!spec_valid_batch_input(input@));
                    }
                    return Err(CrateCheckerError::validation("Crate name cannot be empty"));
                }
                i = i + 1;
            }
            Ok(())
        },
        BatchInput::Operations { operations } => {
            let ghost ov = Seq::new(operations@.len(), |k: int| operations@[k]@);
            if operations.len() == 0 {
                return Err(CrateCheckerError::validation("Operations list cannot be empty"));
            }
            let mut i: usize = 0;
            while i < operations.len()
                invariant
                    input@ == BatchInputView::Operations(ov),
                    ov == Seq::new(operations@.len(), |k: int| operations@[k]@),
                    ov.len() == operations@.len(),
                    0 <= i <= operations@.len(),
                    forall|k: int| 0 <= k < i ==> (#[trigger] ov[k]).operation.len() > 0,
                decreases operations@.len() - i,
            {
                if operations[i].operation.as_str().is_empty() {
                    proof {
                        assert(ov[i as int].operation =~= operations@[i as int].operation@);
                        assert(!spec_valid_batch_input(input@));
                    }
                    return Err(CrateCheckerError::validation("Operation type cannot be empty"));
                }
                i = i + 1;
            }
            Ok(())
        },
    }
}

/// The human-readable form of a duration: milliseconds below one second,
/// seconds with a tenths digit below one minute, minutes and seconds
/// beyond.
pub open spec fn spec_format_duration(total_secs: u64, subsec_millis: u32) -> Seq<char> {
    if total_secs == 0 {
        dec_digits(subsec_millis as nat) + seq!['m', 's']
    } else if total_secs < 60 {
        dec_digits(total_secs as nat) + seq!['.'] + dec_digits((subsec_millis / 100) as nat)
            + seq!['s']
    } else {
        dec_digits((total_secs / 60) as nat) + seq!['m', ' '] + dec_digits(
            (total_secs % 60) as nat,
        ) + seq!['s']
    }
}

/// Format a duration, given as whole seconds and the sub-second
/// milliseconds, in human-readable form.
pub fn format_duration(total_secs: u64, subsec_millis: u32) -> (r: String)
    requires
        subsec_millis < 1000,
    ensures
        r@ == spec_format_duration(total_secs, subsec_millis),
{
    proof {
        reveal_strlit("ms");
        reveal_strlit(".");
        reveal_strlit("s");
        reveal_strlit("m ");
        assert("ms"@ =~= seq!['m', 's']);
        assert("."@ =~= seq!['.']);
        assert("s"@ =~= seq!['s']);
        assert("m "@ =~= seq!['m', ' ']);
    }
    if total_secs == 0 {
        let mut r = u64_to_dec(subsec_millis as u64);
        r.append("ms");
        r
    } else if total_secs < 60 {
        let mut r = u64_to_dec(total_secs);
        r.append(".");
        let tenth = u64_to_dec((subsec_millis / 100) as u64);
        r.append(tenth.as_str());
        r.append("s");
        r
    } else {
        let mut r = u64_to_dec(total_secs / 60);
        r.append("m ");
        let secs = u64_to_dec(total_secs % 60);
        r.append(secs.as_str());
        r.append("s");
        r
    }
}

/// The divisor of each binary size unit above plain bytes.
pub open spec fn spec_size_divisor(unit: int) -> int {
    if unit == 1 {
        1024
    } else if unit == 2 {
        1048576
    } else if unit == 3 {
        1073741824
    } else {
        1099511627776
    }
}

/// The unit a byte count is reported in: the largest binary unit it
/// reaches, capped at terabytes.
pub open spec fn spec_size_unit(bytes: u64) -> int {
    if bytes >= 1099511627776 {
        4
    } else if bytes >= 1073741824 {
        3
    } else if bytes >= 1048576 {
        2
    } else if bytes >= 1024 {
        1
    } else {
        0
    }
}

/// The unit suffixes.
pub open spec fn spec_size_suffix(unit: int) -> Seq<char> {
    if unit == 1 {
        seq!['K', 'B']
    } else if unit == 2 {
        seq!['M', 'B']
    } else if unit == 3 {
        seq!['G', 'B']
    } else {
        seq!['T', 'B']
    }
}

/// The human-readable form of a byte count: whole bytes below one
/// kibibyte, otherwise the value in the largest unit reached, rounded to
/// one decimal digit.
pub open spec fn spec_format_file_size(bytes: u64) -> Seq<char> {
    let unit = spec_size_unit(bytes);
    if unit == 0 {
        dec_digits(bytes as nat) + seq![' ', 'B']
    } else {
        let d = spec_size_divisor(unit);
        spec_one_decimal(((bytes * 10 + d / 2) / d) as u64) + seq![' '] + spec_size_suffix(unit)
    }
}

/// Format a byte count in human-readable form ("1536" becomes "1.5 KB").
pub fn format_file_size(bytes: u64) -> (r: String)
    ensures
        r@ == spec_format_file_size(bytes),
{
    proof {
        reveal_strlit(" B");
        reveal_strlit(" ");
        reveal_strlit("KB");
        reveal_strlit("MB");
        reveal_strlit("GB");
        reveal_strlit("TB");
        assert(" B"@ =~= seq![' ', 'B']);
        assert(" "@ =~= seq![' ']);
        assert("KB"@ =~= seq!['K', 'B']);
        assert("MB"@ =~= seq!['M', 'B']);
        assert("GB"@ =~= seq!['G', 'B']);
        assert("TB"@ =~= seq!['T', 'B']);
    }
    if bytes < 1024 {
        let mut r = u64_to_dec(bytes);
        r.append(" B");
        return r;
    }
    let (v10, suffix): (u64, &'static str) = if bytes >= 1099511627776 {
        (((bytes as u128 * 10 + 549755813888) / 1099511627776) as u64, "TB")
    } else if bytes >= 1073741824 {
        (((bytes as u128 * 10 + 536870912) / 1073741824) as u64, "GB")
    } else if bytes >= 1048576 {
        (((bytes as u128 * 10 + 524288) / 1048576) as u64, "MB")
    } else {
        (((bytes as u128 * 10 + 512) / 1024) as u64, "KB")
    };
    let mut r = one_decimal(v10);
    r.append(" ");
    r.append(suffix);
    r
}

/// The human-readable form of a download count: the plain number below one
/// thousand, otherwise thousands, millions or billions rounded to one
/// decimal digit.
pub open spec fn spec_format_download_count(count: u64) -> Seq<char> {
    if count < 1000 {
        dec_digits(count as nat)
    } else if count < 1000000 {
        spec_one_decimal(((count * 10 + 500) / 1000) as u64) + seq!['K']
    } else if count < 1000000000 {
        spec_one_decimal(((count * 10 + 500000) / 1000000) as u64) + seq!['M']
    } else {
        spec_one_decimal(((count * 10 + 500000000) / 1000000000) as u64) + seq!['B']
    }
}

/// Format a download count in human-readable form ("1500" becomes "1.5K").
pub fn format_download_count(count: u64) -> (r: String)
    ensures
        r@ == spec_format_download_count(count),
{
    proof {
        reveal_strlit("K");
        reveal_strlit("M");
        reveal_strlit("B");
        assert("K"@ =~= seq!['K']);
        assert("M"@ =~= seq!['M']);
        assert("B"@ =~= seq!['B']);
    }
    if count < 1000 {
        u64_to_dec(count)
    } else if count < 1000000 {
        let v10 = (count * 10 + 500) / 1000;
        let mut r = one_decimal(v10);
        r.append("K");
        r
    } else if count < 1000000000 {
        let v10 = (count * 10 + 500000) / 1000000;
        let mut r = one_decimal(v10);
        r.append("M");
        r
    } else {
        let wide = count as u128 * 10 + 500000000;
        let v10 = (wide / 1000000000) as u64;
        proof {
            assert(wide / 1000000000 <= u64::MAX) by {
                assert(wide <= u64::MAX as u128 * 10 + 500000000);
            }
        }
        let mut r = one_decimal(v10);
        r.append("B");
        r
    }
}

/// The characters of a name that survive sanitizing: letters, digits,
/// hyphen and underscore, in order.
pub open spec fn spec_sanitize(s: Seq<char>) -> Seq<char>
    decreases s.len(),
{
    if s.len() == 0 {
        Seq::empty()
    } else {
        spec_sanitize(s.drop_last()) + if is_name_char(s.last()) {
            seq![s.last()]
        } else {
            Seq::empty()
        }
    }
}

/// Sanitize a crate name: keep only letters, digits, hyphen and
/// underscore.
pub fn sanitize_crate_name(name: &str) -> (r: String)
    ensures
        r@ == spec_sanitize(name@),
{
    let len = name.unicode_len();
    let mut r = String::new();
    let mut i: usize = 0;
    while i < len
        invariant
            len == name@.len(),
            0 <= i <= len,
            r@ == spec_sanitize(name@.subrange(0, i as int)),
        decreases len - i,
    {
        proof {
            assert(name@.subrange(0, i + 1).drop_last() =~= name@.subrange(0, i as int));
            assert(name@.subrange(0, i + 1).last() == name@[i as int]);
        }
        let c = name.get_char(i);
        let keep = ('a' <= c && c <= 'z') || ('A' <= c && c <= 'Z') || ('0' <= c && c <= '9')
            || c == '-' || c == '_';
        if keep {
            let piece = name.substring_char(i, i + 1);
            r.append(piece);
            proof {
                assert(r@ =~= spec_sanitize(name@.subrange(0, i + 1)));
            }
        }
        i = i + 1;
    }
    proof {
        assert(name@.subrange(0, name@.len() as int) =~= name@);
    }
    r
}

/// The separators a version string is split on for the semver-likeness
/// test.
pub open spec fn is_semver_sep(c: char) -> bool {
    c == '.' || c == '-' || c == '+'
}

/// Split a character sequence at separator positions, the part read so far
/// in hand; separators themselves are dropped and empty parts are kept.
pub open spec fn spec_split_acc(
    s: Seq<char>,
    cur: Seq<char>,
    sep: spec_fn(char) -> bool,
) -> Seq<Seq<char>>
    decreases s.len(),
{
    if s.len() == 0 {
        seq![cur]
    } else if sep(s.first()) {
        seq![cur] + spec_split_acc(s.drop_first(), Seq::empty(), sep)
    } else {
        spec_split_acc(s.drop_first(), cur.push(s.first()), sep)
    }
}

/// The remaining split of a version string from position `i`, for the
/// semver separators.
pub open spec fn spec_semver_split_from(s: Seq<char>, i: int, cur: Seq<char>) -> Seq<Seq<char>> {
    spec_split_acc(s.subrange(i, s.len() as int), cur, |c: char| is_semver_sep(c))
}

/// The parts of a version string split at dots, hyphens and plus signs.
pub open spec fn spec_semver_parts(s: Seq<char>) -> Seq<Seq<char>> {
    spec_semver_split_from(s, 0, Seq::empty())
}

proof fn lemma_semver_split_step(s: Seq<char>, i: int, cur: Seq<char>)
    requires
        0 <= i < s.len(),
    ensures
        spec_semver_split_from(s, i, cur) == (if is_semver_sep(s[i]) {
            seq![cur] + spec_semver_split_from(s, i + 1, Seq::empty())
        } else {
            spec_semver_split_from(s, i + 1, cur.push(s[i]))
        }),
{
    let tail = s.subrange(i, s.len() as int);
    assert(tail.first() == s[i]);
    assert(tail.drop_first() =~= s.subrange(i + 1, s.len() as int));
}

/// Split a version string at dots, hyphens and plus signs.
fn split_semver(s: &str) -> (parts: Vec<String>)
    ensures
        parts.deep_view() == spec_semver_parts(s@),
{
    let len = s.unicode_len();
    let mut parts: Vec<String> = Vec::new();
    let mut cur = String::new();
    let mut i: usize = 0;
    while i < len
        invariant
            len == s@.len(),
            0 <= i <= len,
            spec_semver_parts(s@) == parts.deep_view() + spec_semver_split_from(
                s@,
                i as int,
                cur@,
            ),
        decreases len - i,
    {
        proof {
            lemma_semver_split_step(s@, i as int, cur@);
        }
        let ghost prev_cur = cur@;
        let ghost prev_parts = parts.deep_view();
        let c = s.get_char(i);
        if c == '.' || c == '-' || c == '+' {
            let done = cur;
            cur = String::new();
            parts.push(done);
            proof {
                assert(parts.deep_view() =~= prev_parts.push(prev_cur));
                assert(parts.deep_view() + spec_semver_split_from(s@, i + 1, cur@)
                    =~= prev_parts + (seq![prev_cur] + spec_semver_split_from(
                    s@,
                    i + 1,
                    Seq::empty(),
                )));
            }
        } else {
            let piece = s.substring_char(i, i + 1);
            cur.append(piece);
            proof {
                assert(cur@ =~= prev_cur.push(s@[i as int]));
            }
        }
        i = i + 1;
    }
    parts.push(cur);
    proof {
        assert(s@.subrange(len as int, s@.len() as int) =~= Seq::<char>::empty());
        assert(parts.deep_view() =~= spec_semver_parts(s@));
    }
    parts
}

/// Whether a version string looks like semver: at least three parts once
/// split at dots, hyphens and plus signs, the first three being unsigned
/// numbers.
pub open spec fn spec_is_semver_like(s: Seq<char>) -> bool {
    let parts = spec_semver_parts(s);
    parts.len() >= 3 && spec_parse_u32(parts[0]) is Some && spec_parse_u32(parts[1]) is Some
        && spec_parse_u32(parts[2]) is Some
}

/// Check whether a version string looks like a semver version
/// ("1.2.3-beta" does, "1.0" does not).
pub fn is_semver_like(version: &str) -> (r: bool)
    ensures
        r == spec_is_semver_like(version@),
{
    let parts = split_semver(version);
    if parts.len() < 3 {
        return false;
    }
    parse_u32(parts[0].as_str()).is_some() && parse_u32(parts[1].as_str()).is_some() && parse_u32(
        parts[2].as_str(),
    ).is_some()
}

/// The part of a version string before the first hyphen or plus sign.
pub open spec fn spec_core_prefix(s: Seq<char>) -> Seq<char>
    decreases s.len(),
{
    if s.len() == 0 {
        Seq::empty()
    } else if s.first() == '-' || s.first() == '+' {
        Seq::empty()
    } else {
        seq![s.first()] + spec_core_prefix(s.drop_first())
    }
}

proof fn lemma_core_prefix_range(s: Seq<char>, j: int)
    requires
        0 <= j <= s.len(),
        forall|k: int| 0 <= k < j ==> s[k] != '-' && s[k] != '+',
        j == s.len() || s[j] == '-' || s[j] == '+',
    ensures
        spec_core_prefix(s) =~= s.subrange(0, j),
    decreases s.len(),
{
    if s.len() > 0 {
        if j == 0 {
        } else {
            lemma_core_prefix_range(s.drop_first(), j - 1);
            assert(s.drop_first().subrange(0, j - 1) =~= s.subrange(1, j));
            assert(spec_core_prefix(s) =~= seq![s.first()] + s.subrange(1, j));
        }
    }
}

/// The remaining dot-split of a prefix from position `i`.
pub open spec fn spec_dot_split_from(s: Seq<char>, i: int, cur: Seq<char>) -> Seq<Seq<char>> {
    spec_split_acc(s.subrange(i, s.len() as int), cur, |c: char| c == '.')
}

/// The parts of a string split at dots.
pub open spec fn spec_dot_parts(s: Seq<char>) -> Seq<Seq<char>> {
    spec_dot_split_from(s, 0, Seq::empty())
}

proof fn lemma_dot_split_step(s: Seq<char>, i: int, cur: Seq<char>)
    requires
        0 <= i < s.len(),
    ensures
        spec_dot_split_from(s, i, cur) == (if s[i] == '.' {
            seq![cur] + spec_dot_split_from(s, i + 1, Seq::empty())
        } else {
            spec_dot_split_from(s, i + 1, cur.push(s[i]))
        }),
{
    let tail = s.subrange(i, s.len() as int);
    assert(tail.first() == s[i]);
    assert(tail.drop_first() =~= s.subrange(i + 1, s.len() as int));
}

fn split_dots(s: &str) -> (parts: Vec<String>)
    ensures
        parts.deep_view() == spec_dot_parts(s@),
{
    let len = s.unicode_len();
    let mut parts: Vec<String> = Vec::new();
    let mut cur = String::new();
    let mut i: usize = 0;
    while i < len
        invariant
            len == s@.len(),
            0 <= i <= len,
            spec_dot_parts(s@) == parts.deep_view() + spec_dot_split_from(s@, i as int, cur@),
        decreases len - i,
    {
        proof {
            lemma_dot_split_step(s@, i as int, cur@);
        }
        let ghost prev_cur = cur@;
        let ghost prev_parts = parts.deep_view();
        let c = s.get_char(i);
        if c == '.' {
            let done = cur;
            cur = String::new();
            parts.push(done);
            proof {
                assert(parts.deep_view() =~= prev_parts.push(prev_cur));
                assert(parts.deep_view() + spec_dot_split_from(s@, i + 1, cur@) =~= prev_parts + (
                seq![prev_cur] + spec_dot_split_from(s@, i + 1, Seq::empty())));
            }
        } else {
            let piece = s.substring_char(i, i + 1);
            cur.append(piece);
            proof {
                assert(cur@ =~= prev_cur.push(s@[i as int]));
            }
        }
        i = i + 1;
    }
    parts.push(cur);
    proof {
        assert(s@.subrange(len as int, s@.len() as int) =~= Seq::<char>::empty());
        assert(parts.deep_view() =~= spec_dot_parts(s@));
    }
    parts
}

/// The major.minor.patch core of a version string: the first three
/// dot-separated parts of everything before any pre-release or build
/// suffix; nothing when fewer than three parts are present.
pub open spec fn spec_extract_version_core(s: Seq<char>) -> Option<Seq<char>> {
    let parts = spec_dot_parts(spec_core_prefix(s));
    if parts.len() >= 3 {
        Some(parts[0] + seq!['.'] + parts[1] + seq!['.'] + parts[2])
    } else {
        None
    }
}

/// Extract the major.minor.patch part from a version string
/// ("1.2.3-beta.1" gives "1.2.3").
pub fn extract_version_core(version: &str) -> (r: Option<String>)
    ensures
        (r is Some) == (spec_extract_version_core(version@) is Some),
        r matches Some(v) ==> Some(v@) == spec_extract_version_core(version@),
{
    let len = version.unicode_len();
    let mut j: usize = 0;
    while j < len
        invariant
            len == version@.len(),
            0 <= j <= len,
            forall|k: int| 0 <= k < j ==> version@[k] != '-' && version@[k] != '+',
        ensures
            0 <= j <= len,
            forall|k: int| 0 <= k < j ==> version@[k] != '-' && version@[k] != '+',
            j == len || version@[j as int] == '-' || version@[j as int] == '+',
        decreases len - j,
    {
        let c = version.get_char(j);
        if c == '-' || c == '+' {
            break ;
        }
        j = j + 1;
    }
    proof {
        lemma_core_prefix_range(version@, j as int);
    }
    let prefix = version.substring_char(0, j);
    let parts = split_dots(prefix);
    if parts.len() < 3 {
        return None;
    }
    proof {
        reveal_strlit(".");
        assert("."@ =~= seq!['.']);
    }
    let mut r = parts[0].clone();
    r.append(".");
    r.append(parts[1].as_str());
    r.append(".");
    r.append(parts[2].as_str());
    Some(r)
}

/// Create example batch inputs for help and documentation: the three
/// accepted shapes with a sample of each.
pub fn create_example_batch_inputs() -> (r: Vec<(&'static str, &'static str)>)
    ensures
        r@.len() == 3,
        r@[0].0@ == "Crate version map"@,
        r@[1].0@ == "Crates list"@,
        r@[2].0@ == "Advanced operations"@,
{
    let mut r: Vec<(&'static str, &'static str)> = Vec::new();
    r.push(
        (
            "Crate version map",
            "{\"serde\": \"1.0.0\", \"tokio\": \"1.28.0\", \"reqwest\": \"latest\"}",
        ),
    );
    r.push(("Crates list", "{\"crates\": [\"serde\", \"tokio\", \"reqwest\", \"clap\"]}"));
    r.push(
        (
            "Advanced operations",
            "{\n  \"operations\": [\n    {\"crate\": \"serde\", \"version\": \"1.0.0\", \"operation\": \"check_version\"},\n    {\"crate\": \"tokio\", \"operation\": \"info\"},\n    {\"crates\": [\"tokio\", \"reqwest\"], \"operation\": \"batch_check\"}\n  ]\n}",
        ),
    );
    r
}

/// The truncation of a text to a maximum character count: the text itself
/// when it fits, otherwise its head with an ellipsis in place of the tail.
pub open spec fn spec_truncate_text(s: Seq<char>, max_length: nat) -> Seq<char> {
    if s.len() <= max_length {
        s
    } else {
        let keep = if max_length >= 3 {
            (max_length - 3) as nat
        } else {
            0nat
        };
        s.subrange(0, keep as int) + seq!['.', '.', '.']
    }
}

/// Truncate text to a maximum character count, marking a cut with an
/// ellipsis.
pub fn truncate_text(text: &str, max_length: usize) -> (r: String)
    ensures
        r@ == spec_truncate_text(text@, max_length as nat),
{
    let len = text.unicode_len();
    if len <= max_length {
        text.to_owned()
    } else {
        let keep = if max_length >= 3 {
            max_length - 3
        } else {
            0
        };
        let mut r = text.substring_char(0, keep).to_owned();
        r.append("...");
        proof {
            reveal_strlit("...");
            assert("..."@ =~= seq!['.', '.', '.']);
        }
        r
    }
}

/// How far a progress bar is filled: the current fraction of the width,
/// capped at the full width.
pub open spec fn spec_progress_cells(current: nat, total: nat, width: nat) -> nat
    recommends
        total > 0,
{
    vstd::math::min((current * width / total) as int, width as int) as nat
}

/// The progress indicator line: the bar, then "current/total". An empty
/// string when the total is zero.
pub open spec fn spec_progress_indicator(current: nat, total: nat, width: nat) -> Seq<char> {
    if total == 0 {
        Seq::empty()
    } else {
        let filled = spec_progress_cells(current, total, width);
        seq!['['] + spec_repeat(seq!['='], filled) + spec_repeat(
            seq![' '],
            (width - filled) as nat,
        ) + seq![']', ' '] + dec_digits(current) + seq!['/'] + dec_digits(total)
    }
}

/// Render a progress indicator such as "[====      ] 4/10".
pub fn progress_indicator(current: usize, total: usize, width: usize) -> (r: String)
    ensures
        r@ == spec_progress_indicator(current as nat, total as nat, width as nat),
{
    if total == 0 {
        return String::new();
    }
    proof {
        assert(current as u128 * width as u128 <= u128::MAX) by (nonlinear_arith)
            requires
                current as u128 <= u64::MAX,
                width as u128 <= u64::MAX,
        ;
    }
    let wide = current as u128 * width as u128 / total as u128;
    let filled: usize = if wide >= width as u128 {
        width
    } else {
        wide as usize
    };
    proof {
        reveal_strlit("[");
        reveal_strlit("=");
        reveal_strlit(" ");
        reveal_strlit("] ");
        reveal_strlit("/");
        assert("["@ =~= seq!['[']);
        assert("="@ =~= seq!['=']);
        assert(" "@ =~= seq![' ']);
        assert("] "@ =~= seq![']', ' ']);
        assert("/"@ =~= seq!['/']);
        assert(filled as nat == spec_progress_cells(current as nat, total as nat, width as nat));
    }
    let mut r = "[".to_owned();
    let bar = repeat_str("=", filled);
    r.append(bar.as_str());
    let pad = repeat_str(" ", width - filled);
    r.append(pad.as_str());
    r.append("] ");
    let cur = usize_to_dec(current);
    r.append(cur.as_str());
    r.append("/");
    let tot = usize_to_dec(total);
    r.append(tot.as_str());
    r
}

/// Whether the character is ASCII whitespace, as trimming removes it.
pub open spec fn is_space_char(c: char) -> bool {
    c == ' ' || c == '\t' || c == '\n' || c == '\r'
}

/// A sequence with leading whitespace removed.
pub open spec fn spec_trim_start(s: Seq<char>) -> Seq<char>
    decreases s.len(),
{
    if s.len() > 0 && is_space_char(s.first()) {
        spec_trim_start(s.drop_first())
    } else {
        s
    }
}

/// A sequence with trailing whitespace removed.
pub open spec fn spec_trim_end(s: Seq<char>) -> Seq<char>
    decreases s.len(),
{
    if s.len() > 0 && is_space_char(s.last()) {
        spec_trim_end(s.drop_last())
    } else {
        s
    }
}

/// A sequence with whitespace removed at both ends.
pub open spec fn spec_trim(s: Seq<char>) -> Seq<char> {
    spec_trim_end(spec_trim_start(s))
}

proof fn lemma_trim_start_range(s: Seq<char>, a: int)
    requires
        0 <= a <= s.len(),
        forall|k: int| 0 <= k < a ==> is_space_char(s[k]),
        a == s.len() || !is_space_char(s[a]),
    ensures
        spec_trim_start(s) =~= s.subrange(a, s.len() as int),
    decreases s.len(),
{
    if s.len() > 0 && is_space_char(s.first()) {
        lemma_trim_start_range(s.drop_first(), a - 1);
        assert(s.drop_first().subrange(a - 1, s.drop_first().len() as int) =~= s.subrange(
            a,
            s.len() as int,
        ));
    } else {
        assert(s.subrange(0, s.len() as int) =~= s);
    }
}

proof fn lemma_trim_end_range(s: Seq<char>, b: int)
    requires
        0 <= b <= s.len(),
        forall|k: int| b <= k < s.len() ==> is_space_char(s[k]),
        b == 0 || !is_space_char(s[b - 1]),
    ensures
        spec_trim_end(s) =~= s.subrange(0, b),
    decreases s.len(),
{
    if s.len() > 0 && is_space_char(s.last()) {
        lemma_trim_end_range(s.drop_last(), b);
        assert(s.drop_last().subrange(0, b) =~= s.subrange(0, b));
    } else {
        assert(s.subrange(0, s.len() as int) =~= s);
    }
}

/// Trim ASCII whitespace from both ends.
fn ascii_trim(s: &str) -> (r: &str)
    ensures
        r@ == spec_trim(s@),
{
    let len = s.unicode_len();
    let mut a: usize = 0;
    while a < len
        invariant
            len == s@.len(),
            0 <= a <= len,
            forall|k: int| 0 <= k < a ==> is_space_char(s@[k]),
        ensures
            0 <= a <= len,
            forall|k: int| 0 <= k < a ==> is_space_char(s@[k]),
            a == len || !is_space_char(s@[a as int]),
        decreases len - a,
    {
        let c = s.get_char(a);
        if !(c == ' ' || c == '\t' || c == '\n' || c == '\r') {
            break ;
        }
        a = a + 1;
    }
    let mut b: usize = len;
    while b > a
        invariant
            len == s@.len(),
            a <= b <= len,
            a == len || !is_space_char(s@[a as int]),
            forall|k: int| b <= k < len ==> is_space_char(s@[k]),
        ensures
            a <= b <= len,
            forall|k: int| b <= k < len ==> is_space_char(s@[k]),
            b == a || !is_space_char(s@[b - 1]),
        decreases b,
    {
        let c = s.get_char(b - 1);
        if !(c == ' ' || c == '\t' || c == '\n' || c == '\r') {
            break ;
        }
        b = b - 1;
    }
    proof {
        lemma_trim_start_range(s@, a as int);
        if b == a {
            lemma_trim_end_range(s@.subrange(a as int, len as int), 0);
        } else {
            lemma_trim_end_range(s@.subrange(a as int, len as int), b - a);
        }
        assert(s@.subrange(a as int, len as int).subrange(0, b - a) =~= s@.subrange(
            a as int,
            b as int,
        ));
    }
    s.substring_char(a, b)
}

/// The lowercase form of an ASCII letter; any other character is
/// unchanged.
pub open spec fn spec_lower_char(c: char) -> char {
    if c == 'A' {
        'a'
    } else if c == 'B' {
        'b'
    } else if c == 'C' {
        'c'
    } else if c == 'D' {
        'd'
    } else if c == 'E' {
        'e'
    } else if c == 'F' {
        'f'
    } else if c == 'G' {
        'g'
    } else if c == 'H' {
        'h'
    } else if c == 'I' {
        'i'
    } else if c == 'J' {
        'j'
    } else if c == 'K' {
        'k'
    } else if c == 'L' {
        'l'
    } else if c == 'M' {
        'm'
    } else if c == 'N' {
        'n'
    } else if c == 'O' {
        'o'
    } else if c == 'P' {
        'p'
    } else if c == 'Q' {
        'q'
    } else if c == 'R' {
        'r'
    } else if c == 'S' {
        's'
    } else if c == 'T' {
        't'
    } else if c == 'U' {
        'u'
    } else if c == 'V' {
        'v'
    } else if c == 'W' {
        'w'
    } else if c == 'X' {
        'x'
    } else if c == 'Y' {
        'y'
    } else if c == 'Z' {
        'z'
    } else {
        c
    }
}

/// A sequence with its ASCII letters lowered.
pub open spec fn spec_ascii_lower(s: Seq<char>) -> Seq<char> {
    Seq::new(s.len(), |i: int| spec_lower_char(s[i]))
}

/// Lower the ASCII letters of a string.
fn ascii_lower(s: &str) -> (r: String)
    ensures
        r@ == spec_ascii_lower(s@),
{
    let len = s.unicode_len();
    let mut r = String::new();
    let mut i: usize = 0;
    while i < len
        invariant
            len == s@.len(),
            0 <= i <= len,
            r@ =~= spec_ascii_lower(s@).subrange(0, i as int),
        decreases len - i,
    {
        proof {
            reveal_strlit("a");
            reveal_strlit("b");
            reveal_strlit("c");
            reveal_strlit("d");
            reveal_strlit("e");
            reveal_strlit("f");
            reveal_strlit("g");
            reveal_strlit("h");
            reveal_strlit("i");
            reveal_strlit("j");
            reveal_strlit("k");
            reveal_strlit("l");
            reveal_strlit("m");
            reveal_strlit("n");
            reveal_strlit("o");
            reveal_strlit("p");
            reveal_strlit("q");
            reveal_strlit("r");
            reveal_strlit("s");
            reveal_strlit("t");
            reveal_strlit("u");
            reveal_strlit("v");
            reveal_strlit("w");
            reveal_strlit("x");
            reveal_strlit("y");
            reveal_strlit("z");
        }
        let c = s.get_char(i);
        match c {
            'A' => r.append("a"),
            'B' => r.append("b"),
            'C' => r.append("c"),
            'D' => r.append("d"),
            'E' => r.append("e"),
            'F' => r.append("f"),
            'G' => r.append("g"),
            'H' => r.append("h"),
            'I' => r.append("i"),
            'J' => r.append("j"),
            'K' => r.append("k"),
            'L' => r.append("l"),
            'M' => r.append("m"),
            'N' => r.append("n"),
            'O' => r.append("o"),
            'P' => r.append("p"),
            'Q' => r.append("q"),
            'R' => r.append("r"),
            'S' => r.append("s"),
            'T' => r.append("t"),
            'U' => r.append("u"),
            'V' => r.append("v"),
            'W' => r.append("w"),
            'X' => r.append("x"),
            'Y' => r.append("y"),
            'Z' => r.append("z"),
            _ => {
                let piece = s.substring_char(i, i + 1);
                r.append(piece);
            },
        }
        proof {
            assert(r@ =~= spec_ascii_lower(s@).subrange(0, i + 1));
        }
        i = i + 1;
    }
    proof {
        assert(spec_ascii_lower(s@).subrange(0, len as int) =~= spec_ascii_lower(s@));
    }
    r
}

/// How a timeout string is read, after trimming and lowering: a bare
/// number is seconds; a number with an "s", "m" or "h" suffix is seconds,
/// minutes or hours; anything else, or a total that does not fit in
/// seconds of `u64`, is rejected.
pub open spec fn spec_parse_timeout(s: Seq<char>) -> Option<u64> {
    let t = spec_ascii_lower(spec_trim(s));
    if spec_parse_u64(t) is Some {
        spec_parse_u64(t)
    } else if t.len() > 0 && t.last() == 's' && spec_parse_u64(t.drop_last()) is Some {
        spec_parse_u64(t.drop_last())
    } else if t.len() > 0 && t.last() == 'm' && spec_parse_u64(t.drop_last()) is Some {
        let n = spec_parse_u64(t.drop_last())->Some_0;
        if n * 60 <= u64::MAX {
            Some((n * 60) as u64)
        } else {
            None
        }
    } else if t.len() > 0 && t.last() == 'h' && spec_parse_u64(t.drop_last()) is Some {
        let n = spec_parse_u64(t.drop_last())->Some_0;
        if n * 3600 <= u64::MAX {
            Some((n * 3600) as u64)
        } else {
            None
        }
    } else {
        None
    }
}

/// Parse a timeout string such as "30", "45s", "2m" or "1h" into seconds.
/// A string in none of these forms is rejected with a validation error
/// naming the (trimmed, lowered) input.
pub fn parse_timeout(input: &str) -> (r: Result<u64, CrateCheckerError>)
    ensures
        r matches Ok(secs) ==> Some(secs) == spec_parse_timeout(input@),
        (r is Ok) == (spec_parse_timeout(input@) is Some),
        r matches Err(e) ==> (e matches CrateCheckerError::ValidationError(m) && m@
            == "Invalid timeout format: '"@ + spec_ascii_lower(spec_trim(input@))
            + "'. Use formats like '30s', '5m', '1h'"@),
{
    let trimmed = ascii_trim(input);
    let t = ascii_lower(trimmed);
    if let Some(secs) = parse_u64(t.as_str()) {
        return Ok(secs);
    }
    let len = t.as_str().unicode_len();
    if len > 0 {
        let last = t.as_str().get_char(len - 1);
        let head = t.as_str().substring_char(0, len - 1);
        proof {
            assert(head@ =~= t@.drop_last());
        }
        if last == 's' {
            if let Some(secs) = parse_u64(head) {
                return Ok(secs);
            }
        } else if last == 'm' {
            if let Some(mins) = parse_u64(head) {
                if mins <= u64::MAX / 60 {
                    return Ok(mins * 60);
                }
            }
        } else if last == 'h' {
            if let Some(hours) = parse_u64(head) {
                if hours <= u64::MAX / 3600 {
                    return Ok(hours * 3600);
                }
            }
        }
    }
    let mut m = "Invalid timeout format: '".to_owned();
    m.append(t.as_str());
    m.append("'. Use formats like '30s', '5m', '1h'");
    Err(CrateCheckerError::ValidationError(m))
}

} // verus!

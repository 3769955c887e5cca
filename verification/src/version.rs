//! Runtime version queries.
//!
//! The version is asked from up to three probes, in order: the package
//! version query (newer runtimes), the legacy package enumeration, and the
//! runtime component version `(major, minor, patch)`. The first probe that
//! answers decides; the component version is rendered as
//! `major.minor.patch` and numbered as
//! `major * 10_000_000 + minor * 100_000 + patch * 1000`.
//!
//! A package query answers in a byte buffer holding a NUL-terminated text
//! ([`Version::package_answer`]).
//!
//! The choice among the probes is a verified function of their results
//! ([`Version::str_from_probes`], [`Version::num_from_probes`]); the text
//! and the number agree ([`lemma_str_and_num_consistent`]): when the text
//! reads back as three numbers, the number is computed from exactly those.

use crate::error::{check_status, code_message, fails_unavailable, unavailable, Error};
use crate::sys::acl_base_rt::{aclError, ACL_SUCCESS};
use crate::text::{
    c_string_text, c_string_to_string, int_decimal, lemma_i32_decimal_reads_back,
    lemma_int_decimal_has_no_dot, lemma_split_dot_join, lemma_split_dot_without_dot, parse_i32,
    parse_i32_str, push_int_decimal, split_dot, split_on_dot, views,
};
use vstd::prelude::*;

verus! {

/// The text `major.minor.patch`, each part in decimal.
pub open spec fn version_text(major: i32, minor: i32, patch: i32) -> Seq<char> {
    int_decimal(major as int) + seq!['.'] + int_decimal(minor as int) + seq!['.'] + int_decimal(
        patch as int,
    )
}

/// The version number of `major.minor.patch`.
pub open spec fn version_number(major: int, minor: int, patch: int) -> int {
    major * 10_000_000 + minor * 100_000 + patch * 1000
}

/// Whether the version number of `(major, minor, patch)` can be computed in
/// `i32` arithmetic, left to right, without overflow.
pub open spec fn number_computable(p: (i32, i32, i32)) -> bool {
    let (major, minor, patch) = p;
    &&& i32::MIN <= major * 10_000_000 <= i32::MAX
    &&& i32::MIN <= minor * 100_000 <= i32::MAX
    &&& i32::MIN <= major * 10_000_000 + minor * 100_000 <= i32::MAX
    &&& i32::MIN <= patch * 1000 <= i32::MAX
    &&& i32::MIN <= version_number(major as int, minor as int, patch as int) <= i32::MAX
}

/// The numbers that a version text reads back as: the text is split at
/// every `.`, and when there are at least three parts, the first three must
/// each read as an `i32`.
pub open spec fn version_parts(s: Seq<char>) -> Option<(i32, i32, i32)> {
    let parts = split_dot(s);
    if parts.len() >= 3 {
        match (parse_i32(parts[0]), parse_i32(parts[1]), parse_i32(parts[2])) {
            (Some(a), Some(b), Some(c)) => Some((a, b, c)),
            _ => None,
        }
    } else {
        None
    }
}

/// The view of an optional string.
pub open spec fn opt_view(o: Option<String>) -> Option<Seq<char>> {
    match o {
        Some(s) => Some(s@),
        None => None,
    }
}

/// The parts of a successful component version probe.
pub open spec fn ok_parts(r: Result<(i32, i32, i32), Error>) -> Option<(i32, i32, i32)> {
    match r {
        Ok(p) => Some(p),
        Err(_) => None,
    }
}

/// The version text chosen from the probe results: the package query's
/// text, else the legacy enumeration's text, else the component version
/// rendered as `major.minor.patch`; `None` when all three failed.
pub open spec fn str_outcome(
    package: Option<Seq<char>>,
    legacy: Option<Seq<char>>,
    component: Option<(i32, i32, i32)>,
) -> Option<Seq<char>> {
    match package {
        Some(v) => Some(v),
        None => match legacy {
            Some(v) => Some(v),
            None => match component {
                Some((a, b, c)) => Some(version_text(a, b, c)),
                None => None,
            },
        },
    }
}

/// The parts the version number is computed from, when it is computed from
/// parts: none when the package query answered; else the legacy text's
/// parts when it reads back as three numbers; else the component version.
pub open spec fn num_parts(
    package: Option<i32>,
    legacy: Option<Seq<char>>,
    component: Option<(i32, i32, i32)>,
) -> Option<(i32, i32, i32)> {
    match package {
        Some(_) => None,
        None => match legacy {
            Some(t) if version_parts(t) is Some => version_parts(t),
            _ => component,
        },
    }
}

/// The version number chosen from the probe results: the package query's
/// number, else the number of [`num_parts`]; `None` when all failed.
pub open spec fn num_outcome(
    package: Option<i32>,
    legacy: Option<Seq<char>>,
    component: Option<(i32, i32, i32)>,
) -> Option<int> {
    match package {
        Some(n) => Some(n as int),
        None => match num_parts(package, legacy, component) {
            Some((a, b, c)) => Some(version_number(a as int, b as int, c as int)),
            None => None,
        },
    }
}

/// Runtime version queries.
pub struct Version;

impl Version {
    /// The runtime version text, such as `8.5.0`.
    ///
    /// This build links no NPU runtime: the call always fails with the
    /// "runtime not linked" error.
    pub fn str() -> (r: Result<String, Error>)
        ensures
            fails_unavailable(r),
    {
        Err(unavailable())
    }

    /// The runtime version number, such as `80500000`.
    ///
    /// This build links no NPU runtime: the call always fails with the
    /// "runtime not linked" error.
    pub fn num() -> (r: Result<i32, Error>)
        ensures
            fails_unavailable(r),
    {
        Err(unavailable())
    }

    /// Turns one answer of a package version query into its text: the
    /// status's error when the query failed, else the NUL-terminated text in
    /// the answer buffer `buf` (empty when it is not valid UTF-8).
    pub fn package_answer(status: aclError, buf: &[u8]) -> (r: Result<String, Error>)
        ensures
            status == ACL_SUCCESS ==> (r matches Ok(s) && s@ == c_string_text(buf@)),
            status != ACL_SUCCESS ==> (r matches Err(e) && e.code == status && e.message@
                == code_message(status)),
    {
        match check_status(status) {
            Ok(()) => Ok(c_string_to_string(buf)),
            Err(e) => Err(e),
        }
    }

    /// The text `major.minor.patch`.
    pub fn text_from_parts(major: i32, minor: i32, patch: i32) -> (r: String)
        ensures
            r@ == version_text(major, minor, patch),
    {
        let mut s = String::new();
        push_int_decimal(&mut s, major as i64);
        proof {
            reveal_strlit(".");
        }
        s.append(".");
        push_int_decimal(&mut s, minor as i64);
        s.append(".");
        push_int_decimal(&mut s, patch as i64);
        proof {
            assert(s@ =~= version_text(major, minor, patch));
        }
        s
    }

    /// The version number `major * 10_000_000 + minor * 100_000 + patch *
    /// 1000`.
    pub fn number_from_parts(major: i32, minor: i32, patch: i32) -> (r: i32)
        requires
            number_computable((major, minor, patch)),
        ensures
            r == version_number(major as int, minor as int, patch as int),
    {
        major * 10_000_000 + minor * 100_000 + patch * 1000
    }

    /// Reads a version text back as `(major, minor, patch)`: the first three
    /// `.`-separated parts, each an `i32`.
    pub fn parts_from_text(s: &str) -> (r: Option<(i32, i32, i32)>)
        ensures
            r == version_parts(s@),
    {
        let parts = split_on_dot(s);
        proof {
            assert(views(parts@).len() == parts@.len());
        }
        if parts.len() < 3 {
            return None;
        }
        proof {
            assert(views(parts@)[0] == parts@[0]@);
            assert(views(parts@)[1] == parts@[1]@);
            assert(views(parts@)[2] == parts@[2]@);
        }
        let a = parse_i32_str(parts[0].as_str());
        let b = parse_i32_str(parts[1].as_str());
        let c = parse_i32_str(parts[2].as_str());
        match (a, b, c) {
            (Some(a), Some(b), Some(c)) => Some((a, b, c)),
            _ => None,
        }
    }

    /// Chooses the version text from the probe results, in order: the
    /// package query's text, the legacy enumeration's text, the component
    /// version rendered as `major.minor.patch`; when all fail, the component
    /// probe's error. Results after the first that answered are not read.
    pub fn str_from_probes(
        package: Option<String>,
        legacy: Option<String>,
        component: Result<(i32, i32, i32), Error>,
    ) -> (r: Result<String, Error>)
        ensures
            match str_outcome(opt_view(package), opt_view(legacy), ok_parts(component)) {
                Some(t) => r matches Ok(s) && s@ == t,
                None => component matches Err(e) && r == Err::<String, Error>(e),
            },
            package is Some ==> (r matches Ok(s) && s@ == package->0@),
    {
        if let Some(v) = package {
            return Ok(v);
        }
        if let Some(v) = legacy {
            return Ok(v);
        }
        match component {
            Ok((a, b, c)) => Ok(Version::text_from_parts(a, b, c)),
            Err(e) => Err(e),
        }
    }

    /// Chooses the version number from the probe results, in order: the
    /// package query's number; the number of the legacy enumeration's text
    /// when it reads back as three numbers; the number of the component
    /// version; when all fail, the component probe's error.
    pub fn num_from_probes(
        package: Option<i32>,
        legacy: Option<String>,
        component: Result<(i32, i32, i32), Error>,
    ) -> (r: Result<i32, Error>)
        requires
            num_parts(package, opt_view(legacy), ok_parts(component)) matches Some(p)
                ==> number_computable(p),
        ensures
            match num_outcome(package, opt_view(legacy), ok_parts(component)) {
                Some(n) => r matches Ok(v) && v == n,
                None => component matches Err(e) && r == Err::<i32, Error>(e),
            },
            package is Some ==> r == Ok::<i32, Error>(package->0),
    {
        if let Some(n) = package {
            return Ok(n);
        }
        if let Some(s) = legacy {
            if let Some((a, b, c)) = Version::parts_from_text(s.as_str()) {
                return Ok(Version::number_from_parts(a, b, c));
            }
        }
        match component {
            Ok((a, b, c)) => Ok(Version::number_from_parts(a, b, c)),
            Err(e) => Err(e),
        }
    }
}

/// The probes decide the version number in a fixed order of precedence:
/// when the package query answered `n`, the number is `n` whatever the
/// legacy and component probes report; otherwise a legacy text that reads
/// back as `(a, b, c)` gives `a * 10_000_000 + b * 100_000 + c * 1000`,
/// whatever the component probe reports; otherwise the component version
/// `(a, b, c)` gives that number; when no probe answered there is none.
pub proof fn lemma_num_probe_precedence(
    package: Option<i32>,
    legacy: Option<Seq<char>>,
    component: Option<(i32, i32, i32)>,
)
    ensures
        package is Some ==> num_outcome(package, legacy, component) == Some(package->0 as int),
        package is None && legacy is Some && version_parts(legacy->0) is Some ==> ({
            let p = version_parts(legacy->0)->0;
            num_outcome(package, legacy, component) == Some(
                p.0 * 10_000_000 + p.1 * 100_000 + p.2 * 1000,
            )
        }),
        package is None && (legacy is None || version_parts(legacy->0) is None) && component is Some
            ==> ({
            let p = component->0;
            num_outcome(package, legacy, component) == Some(
                p.0 * 10_000_000 + p.1 * 100_000 + p.2 * 1000,
            )
        }),
        package is None && (legacy is None || version_parts(legacy->0) is None) && component is None
            ==> num_outcome(package, legacy, component) is None,
{
}

/// The probes decide the version text in the same order of precedence: the
/// package query's text when it answered, whatever the others report;
/// otherwise the legacy text; otherwise the component version written as
/// `major.minor.patch`; when no probe answered there is none.
pub proof fn lemma_str_probe_precedence(
    package: Option<Seq<char>>,
    legacy: Option<Seq<char>>,
    component: Option<(i32, i32, i32)>,
)
    ensures
        package is Some ==> str_outcome(package, legacy, component) == package,
        package is None && legacy is Some ==> str_outcome(package, legacy, component) == legacy,
        package is None && legacy is None && component is Some ==> ({
            let p = component->0;
            str_outcome(package, legacy, component) == Some(
                int_decimal(p.0 as int) + seq!['.'] + int_decimal(p.1 as int) + seq!['.']
                    + int_decimal(p.2 as int),
            )
        }),
        package is None && legacy is None && component is None ==> str_outcome(
            package,
            legacy,
            component,
        ) is None,
{
}

/// A version text reads back as the numbers it was written from.
pub proof fn lemma_version_text_reads_back(major: i32, minor: i32, patch: i32)
    ensures
        version_parts(version_text(major, minor, patch)) == Some((major, minor, patch)),
{
    let a = int_decimal(major as int);
    let b = int_decimal(minor as int);
    let c = int_decimal(patch as int);
    lemma_int_decimal_has_no_dot(major as int);
    lemma_int_decimal_has_no_dot(minor as int);
    lemma_int_decimal_has_no_dot(patch as int);
    lemma_split_dot_without_dot(a);
    lemma_split_dot_without_dot(b);
    lemma_split_dot_without_dot(c);
    lemma_split_dot_join(a, b);
    lemma_split_dot_join(a + seq!['.'] + b, c);
    let parts = split_dot(version_text(major, minor, patch));
    assert(parts =~= seq![a, b, c]);
    lemma_i32_decimal_reads_back(major);
    lemma_i32_decimal_reads_back(minor);
    lemma_i32_decimal_reads_back(patch);
}

/// The version text and the version number agree: from the same probe
/// results, when the package query did not answer, whenever the chosen text
/// reads back as `(major, minor, patch)`, the chosen number is the version
/// number of exactly those parts.
pub proof fn lemma_str_and_num_consistent(
    legacy: Option<Seq<char>>,
    component: Option<(i32, i32, i32)>,
)
    ensures
        match str_outcome(None, legacy, component) {
            Some(t) => match version_parts(t) {
                Some((a, b, c)) => num_outcome(None, legacy, component) == Some(
                    version_number(a as int, b as int, c as int),
                ),
                None => true,
            },
            None => true,
        },
{
    if legacy is None {
        if let Some((a, b, c)) = component {
            lemma_version_text_reads_back(a, b, c);
        }
    }
}

} // verus!

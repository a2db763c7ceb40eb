//! Source locations, the musl download, and reading the Xcode version.

use vstd::prelude::*;
use vstd::string::StringExecFns;

use crate::llvm_path::under;
use crate::llvm_path::LLVMPath;
use crate::llvm_path::DIRECTORY_LLVM_TARGET;
use crate::step::push_one;
use crate::step::Step;
use crate::step::StepV;
use crate::text::concat3;

verus! {

/// The repository of the upstream toolchain that bootstraps musl builds.
pub const LLVM_HOST_SOURCE_URL: &'static str = "https://github.com/llvm/llvm-project";

/// The upstream release that bootstraps musl builds.
pub const LLVM_HOST_SOURCE_TAG: &'static str = "llvmorg-17.0.6";

/// Where musl source snapshots are published.
pub const MUSL_SNAPSHOTS_URL: &'static str = "https://git.musl-libc.org/cgit/musl/snapshot";

/// The file name of the snapshot archive of the musl release `name`.
pub open spec fn musl_tarball(name: Seq<char>) -> Seq<char> {
    name + ".tar.gz"@
}

/// Fetching the musl release `name`: download its snapshot archive into the
/// build root, then unpack it there.
pub open spec fn musl_download_plan(cwd: Seq<char>, name: Seq<char>) -> Seq<StepV> {
    seq![
        StepV::Download {
            url: MUSL_SNAPSHOTS_URL@ + "/"@ + musl_tarball(name),
            folder: DIRECTORY_LLVM_TARGET@,
        },
        StepV::Unpack {
            archive: under(cwd, DIRECTORY_LLVM_TARGET@, musl_tarball(name)),
            into: DIRECTORY_LLVM_TARGET@,
        },
    ]
}

/// Fetching the musl release `name` (see `musl_download_plan`).
pub fn download_musl(cwd: &str, name: &str) -> (r: Vec<Step>)
    ensures
        r.deep_view() == musl_download_plan(cwd@, name@),
{
    let tar_file_name = String::from_str(name).concat(".tar.gz");
    let url = concat3(MUSL_SNAPSHOTS_URL, "/", tar_file_name.as_str());
    let archive = LLVMPath::musl_source(cwd, tar_file_name.as_str());
    let mut steps: Vec<Step> = Vec::new();
    push_one(&mut steps, Step::Download { url, folder: String::from_str(DIRECTORY_LLVM_TARGET) });
    push_one(
        &mut steps,
        Step::Unpack { archive, into: String::from_str(DIRECTORY_LLVM_TARGET) },
    );
    assert(steps.deep_view() =~= musl_download_plan(cwd@, name@));
    steps
}

/// The text of the first capture group of the leftmost match of the regular
/// expression `pattern` in `text`; none where the pattern is not a valid
/// expression, nothing matches, or the group takes no part in the match.
pub uninterp spec fn first_group_of(pattern: Seq<char>, text: Seq<char>) -> Option<Seq<char>>;

/// Relies on regex::Regex::new, Regex::captures, Captures::get and
/// Match::as_str: the text of group 1 of the leftmost match.
#[verifier::external_body]
fn first_group(pattern: &str, text: &str) -> (r: Option<String>)
    ensures
        r.deep_view() == first_group_of(pattern@, text@),
{
    let re = match regex::Regex::new(pattern) {
        Ok(re) => re,
        Err(_) => return None,
    };
    let captures = re.captures(text)?;
    let group = captures.get(1)?;
    Some(group.as_str().to_string())
}

/// Relies on num_cpus::get: the number of CPUs this process may use, which
/// its documentation promises is always at least one.
#[verifier::external_body]
pub(crate) fn logical_cpus() -> (r: usize)
    ensures
        r >= 1,
{
    num_cpus::get()
}

/// The line of the package database that carries the Xcode command line tools'
/// version; the group is its major number.
pub const XCODE_VERSION_PATTERN: &'static str = "version: (\\d+)\\..*";

/// Why an Xcode version could not be read.
#[derive(Debug, Clone, Copy, PartialEq, Eq, Structural)]
pub enum XcodeVersionError {
    /// No line of the text gives a version.
    Unmatched,
    /// The major number is not a decimal number that fits 32 bits.
    NotANumber,
}

/// Whether `c` is one of the ASCII digits.
pub open spec fn is_ascii_digit(c: char) -> bool {
    '0' <= c && c <= '9'
}

/// The value of a string of decimal digits.
pub open spec fn digits_value(s: Seq<char>) -> nat
    decreases s.len(),
{
    if s.len() == 0 {
        0
    } else {
        digits_value(s.drop_last()) * 10 + ((s.last() as u32) - ('0' as u32)) as nat
    }
}

/// The number that a non-empty string of ASCII digits writes, where it fits 32 bits.
pub open spec fn decimal_u32(d: Seq<char>) -> Result<u32, XcodeVersionError> {
    if d.len() > 0 && (forall|i: int| 0 <= i < d.len() ==> is_ascii_digit(#[trigger] d[i]))
        && digits_value(d) <= u32::MAX {
        Ok(digits_value(d) as u32)
    } else {
        Err(XcodeVersionError::NotANumber)
    }
}

/// The Xcode version that a captured major number gives.
pub open spec fn xcode_version_from(capture: Option<Seq<char>>) -> Result<u32, XcodeVersionError> {
    match capture {
        None => Err(XcodeVersionError::Unmatched),
        Some(d) => decimal_u32(d),
    }
}

proof fn lemma_digits_grow(s: Seq<char>, c: char)
    requires
        is_ascii_digit(c),
    ensures
        digits_value(s.push(c)) >= digits_value(s),
        digits_value(s.push(c)) == digits_value(s) * 10 + ((c as u32) - ('0' as u32)) as nat,
{
    assert(s.push(c).drop_last() =~= s);
}

/// The Xcode version that a captured major number gives (see `xcode_version_from`).
pub fn xcode_version_from_capture(capture: Option<String>) -> (r: Result<u32, XcodeVersionError>)
    ensures
        r == xcode_version_from(capture.deep_view()),
{
    match capture {
        None => Err(XcodeVersionError::Unmatched),
        Some(d) => read_decimal_u32(d.as_str()),
    }
}

/// The number that a string of ASCII digits writes (see `decimal_u32`).
fn read_decimal_u32(digits: &str) -> (r: Result<u32, XcodeVersionError>)
    ensures
        r == decimal_u32(digits@),
{
    let n = digits.unicode_len();
    if n == 0 {
        return Err(XcodeVersionError::NotANumber);
    }
    let mut value: u64 = 0;
    let mut too_large = false;
    let mut i: usize = 0;
    while i < n
        invariant
            n == digits@.len(),
            i <= n,
            forall|j: int| 0 <= j < i ==> is_ascii_digit(#[trigger] digits@[j]),
            !too_large ==> value == digits_value(digits@.take(i as int)) && value <= u32::MAX,
            too_large ==> digits_value(digits@.take(i as int)) > u32::MAX,
        decreases n - i,
    {
        let c = digits.get_char(i);
        if !('0' <= c && c <= '9') {
            assert(!is_ascii_digit(digits@[i as int]));
            assert(!(forall|j: int| 0 <= j < digits@.len() ==> is_ascii_digit(#[trigger] digits@[j])));
            return Err(XcodeVersionError::NotANumber);
        }
        proof {
            lemma_digits_grow(digits@.take(i as int), c);
            assert(digits@.take(i + 1) =~= digits@.take(i as int).push(c));
        }
        if !too_large {
            let next: u64 = value * 10 + ((c as u32) - ('0' as u32)) as u64;
            if next > 4294967295 {
                too_large = true;
            } else {
                value = next;
            }
        }
        i = i + 1;
    }
    assert(digits@.take(n as int) =~= digits@);
    if too_large {
        Err(XcodeVersionError::NotANumber)
    } else {
        Ok(value as u32)
    }
}

/// Reads the major Xcode version from the package database's description of
/// the command line tools.
pub fn parse_xcode_version(output: &str) -> (r: Result<u32, XcodeVersionError>)
    ensures
        r == xcode_version_from(first_group_of(XCODE_VERSION_PATTERN@, output@)),
{
    xcode_version_from_capture(first_group(XCODE_VERSION_PATTERN, output))
}

} // verus!

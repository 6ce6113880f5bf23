//! Choosing an audio device: the first device whose name matches a
//! regular expression.

use vstd::prelude::*;

verus! {

#[verifier::external_type_specification]
#[verifier::external_body]
pub struct ExRegex(regex::Regex);

#[verifier::external_type_specification]
#[verifier::external_body]
pub struct ExRegexError(regex::Error);

/// Whether `regex::Regex::new` accepts a pattern (its syntax is valid and
/// the compiled program stays within the default size limit).
pub uninterp spec fn regex_compiles(pattern: Seq<char>) -> bool;

/// Whether the regular expression compiled from `pattern` matches anywhere
/// in `haystack`, as `regex::Regex::is_match` decides.
pub uninterp spec fn regex_matches(pattern: Seq<char>, haystack: Seq<char>) -> bool;

/// A character that stands for itself in a regular expression: an ASCII
/// letter or digit, a space, `_`, `:` or `,`.
pub open spec fn is_literal_char(c: char) -> bool {
    ('a' <= c && c <= 'z') || ('A' <= c && c <= 'Z') || ('0' <= c && c <= '9') || c == ' ' || c
        == '_' || c == ':' || c == ','
}

/// A pattern made only of characters that stand for themselves.
pub open spec fn is_literal_pattern(pattern: Seq<char>) -> bool {
    forall|i: int| 0 <= i < pattern.len() ==> is_literal_char(#[trigger] pattern[i])
}

/// `needle` occurs somewhere in `haystack` as a run of consecutive characters.
pub open spec fn occurs_in(needle: Seq<char>, haystack: Seq<char>) -> bool {
    exists|i: int|
        0 <= i && i + needle.len() <= haystack.len() && #[trigger] haystack.subrange(
            i,
            i + needle.len(),
        ) == needle
}

/// A name that holds `needle` starting at position `at` contains it.
pub proof fn lemma_occurs_at(needle: Seq<char>, haystack: Seq<char>, at: int)
    requires
        0 <= at,
        at + needle.len() <= haystack.len(),
        forall|k: int| 0 <= k < needle.len() ==> haystack[at + k] == needle[k],
    ensures
        occurs_in(needle, haystack),
{
    assert(haystack.subrange(at, at + needle.len()) =~= needle);
}

/// A compiled device-name pattern, kept together with its source text.
pub struct DevicePattern {
    pattern: String,
    re: regex::Regex,
}

/// An audio device as the host lists it.
#[derive(Clone, Debug)]
pub struct DeviceEntry {
    /// Index of the device on the host.
    pub index: u32,
    /// Human-readable name of the device.
    pub name: String,
}

/// Why no device could be chosen.
#[derive(Debug)]
pub enum DeviceError {
    /// The pattern is not a valid regular expression.
    InvalidPattern(regex::Error),
    /// No listed device has a name that matches the pattern.
    NotFound { pattern: String },
}

/// Compiles `pattern` with `regex::Regex::new`. The contract claims that the
/// call succeeds exactly when `regex_compiles` holds of the pattern, that a
/// literal pattern of at most 256 characters always compiles (it is far
/// below the default size limit), and that the pattern kept beside the
/// compiled expression is the one it was compiled from.
#[verifier::external_body]
fn compile_pattern(pattern: &str) -> (r: Result<DevicePattern, regex::Error>)
    ensures
        r is Ok <==> regex_compiles(pattern@),
        is_literal_pattern(pattern@) && pattern@.len() <= 256 ==> r is Ok,
        r matches Ok(p) ==> p.pattern@ == pattern@,
{
    match regex::Regex::new(pattern) {
        Ok(re) => Ok(DevicePattern { pattern: pattern.to_string(), re }),
        Err(e) => Err(e),
    }
}

/// Calls `regex::Regex::is_match` on the compiled expression. The contract
/// claims that the answer is `regex_matches` of the pattern the expression
/// was compiled from (every `DevicePattern` comes from `compile_pattern`)
/// and the haystack, and that a literal pattern (every character standing
/// for itself, matched case-sensitively) matches exactly when it occurs in
/// the haystack.
#[verifier::external_body]
fn pattern_is_match(p: &DevicePattern, haystack: &str) -> (r: bool)
    ensures
        r == regex_matches(p.pattern@, haystack@),
        is_literal_pattern(p.pattern@) ==> (r <==> occurs_in(p.pattern@, haystack@)),
{
    p.re.is_match(haystack)
}

impl DevicePattern {
    /// The source text of the pattern.
    pub closed spec fn source(&self) -> Seq<char> {
        self.pattern@
    }

    /// Compiles a device-name pattern.
    pub fn new(pattern: &str) -> (r: Result<DevicePattern, DeviceError>)
        ensures
            r is Ok <==> regex_compiles(pattern@),
            is_literal_pattern(pattern@) && pattern@.len() <= 256 ==> r is Ok,
            r matches Ok(p) ==> p.source() == pattern@,
            r matches Err(e) ==> e is InvalidPattern,
    {
        match compile_pattern(pattern) {
            Ok(p) => Ok(p),
            Err(e) => Err(DeviceError::InvalidPattern(e)),
        }
    }

    /// Whether the pattern matches anywhere in `name`.
    pub fn is_match(&self, name: &str) -> (r: bool)
        ensures
            r == regex_matches(self.source(), name@),
            is_literal_pattern(self.source()) ==> (r <==> occurs_in(self.source(), name@)),
    {
        pattern_is_match(self, name)
    }

    /// The source text of the pattern.
    pub fn as_str(&self) -> (r: &str)
        ensures
            r@ == self.source(),
    {
        self.pattern.as_str()
    }
}

/// The index of the first listed device whose name the pattern matches, or
/// `NotFound` (carrying the pattern) when none does.
pub fn match_device(devices: &Vec<DeviceEntry>, pattern: &DevicePattern) -> (r: Result<
    u32,
    DeviceError,
>)
    ensures
        match r {
            Ok(index) => exists|i: int|
                0 <= i < devices.len() && regex_matches(pattern.source(), #[trigger] devices[i].name@)
                    && devices[i].index == index && forall|j: int|
                    0 <= j < i ==> !regex_matches(pattern.source(), #[trigger] devices[j].name@),
            Err(e) => {
                &&& forall|i: int|
                    0 <= i < devices.len() ==> !regex_matches(
                        pattern.source(),
                        #[trigger] devices[i].name@,
                    )
                &&& e matches DeviceError::NotFound { pattern: p }
                &&& p@ == pattern.source()
            },
        },
        is_literal_pattern(pattern.source()) ==> match r {
            Ok(index) => exists|i: int|
                0 <= i < devices.len() && occurs_in(pattern.source(), #[trigger] devices[i].name@)
                    && devices[i].index == index && forall|j: int|
                    0 <= j < i ==> !occurs_in(pattern.source(), #[trigger] devices[j].name@),
            Err(_) => forall|i: int|
                0 <= i < devices.len() ==> !occurs_in(pattern.source(), #[trigger] devices[i].name@),
        },
{
    let mut i: usize = 0;
    while i < devices.len()
        invariant
            0 <= i <= devices.len(),
            forall|j: int| 0 <= j < i ==> !regex_matches(pattern.source(), #[trigger] devices[j].name@),
            is_literal_pattern(pattern.source()) ==> forall|j: int|
                0 <= j < i ==> !occurs_in(pattern.source(), #[trigger] devices[j].name@),
        decreases devices.len() - i,
    {
        if pattern.is_match(devices[i].name.as_str()) {
            return Ok(devices[i].index);
        }
        i += 1;
    }
    Err(DeviceError::NotFound { pattern: pattern.as_str().to_string() })
}

} // verus!

//! Semantic versions of the form `major.minor[.patch]`, read from text and
//! rendered back to it.
use crate::decimal::{
    all_digits, decimal, digit_of, lemma_decimal_value, lemma_parse_decimal_of_decimal,
    parse_decimal, parse_range, push_decimal,
};
use vstd::prelude::*;
use vstd::std_specs::cmp::PartialEqSpecImpl;
use vstd::string::*;

verus! {

/// A pre-release tag, kept as the raw text that followed the numbers.
#[derive(Debug, Clone)]
pub struct PreRelease {
    pub raw: String,
}

/// Build metadata, kept as raw text.
#[derive(Debug, Clone)]
pub struct BuildMetadata {
    pub raw: String,
}

/// A version: `major` and `minor` always, `patch` only where a third
/// component was given.
#[derive(Debug, Clone)]
pub struct SemanticVersion {
    pub major: u64,
    pub minor: u64,
    pub patch: Option<u64>,
    pub pre_release: Option<PreRelease>,
    pub build_metadata: Option<BuildMetadata>,
}

/// The mathematical content of a version.
pub struct VersionView {
    pub major: nat,
    pub minor: nat,
    pub patch: Option<nat>,
    pub pre_release: Option<Seq<char>>,
    pub build_metadata: Option<Seq<char>>,
}

/// Why a text is not a version.
#[derive(Debug, Clone, Copy, PartialEq, Eq, Structural)]
pub enum VersionParseError {
    /// Fewer than two dot-separated components.
    InvalidFormat,
    /// One of the first three components is not an unsigned 64-bit number.
    InvalidNumber,
}

impl View for SemanticVersion {
    type V = VersionView;

    open spec fn view(&self) -> VersionView {
        VersionView {
            major: self.major as nat,
            minor: self.minor as nat,
            patch: match self.patch {
                Some(p) => Some(p as nat),
                None => None,
            },
            pre_release: match self.pre_release {
                Some(p) => Some(p.raw@),
                None => None,
            },
            build_metadata: match self.build_metadata {
                Some(b) => Some(b.raw@),
                None => None,
            },
        }
    }
}

/// The position of the first `.` of `s` at or after `from`, or the length of
/// `s` where there is none.
pub open spec fn segment_end(s: Seq<char>, from: int) -> int
    decreases s.len() - from,
{
    if from < 0 || from >= s.len() {
        s.len() as int
    } else if s[from] == '.' {
        from
    } else {
        segment_end(s, from + 1)
    }
}

/// The dot-separated component of `s` that starts at `from`.
pub open spec fn segment(s: Seq<char>, from: int) -> Seq<char> {
    s.subrange(from, segment_end(s, from))
}

/// Where the numbers of a version text start: behind one leading `v`, if
/// there is one.
pub open spec fn numbers_start(text: Seq<char>) -> int {
    if text.len() > 0 && text[0] == 'v' {
        1
    } else {
        0
    }
}

/// What a text means as a version. Components after the third are ignored.
pub open spec fn parse_version(text: Seq<char>) -> Result<VersionView, VersionParseError> {
    let start = numbers_start(text);
    let end0 = segment_end(text, start);
    if end0 >= text.len() {
        Err(VersionParseError::InvalidFormat)
    } else {
        let end1 = segment_end(text, end0 + 1);
        let major = parse_decimal(segment(text, start));
        let minor = parse_decimal(segment(text, end0 + 1));
        if end1 >= text.len() {
            match (major, minor) {
                (Some(a), Some(b)) => Ok(
                    VersionView {
                        major: a as nat,
                        minor: b as nat,
                        patch: None,
                        pre_release: None,
                        build_metadata: None,
                    },
                ),
                _ => Err(VersionParseError::InvalidNumber),
            }
        } else {
            match (major, minor, parse_decimal(segment(text, end1 + 1))) {
                (Some(a), Some(b), Some(c)) => Ok(
                    VersionView {
                        major: a as nat,
                        minor: b as nat,
                        patch: Some(c as nat),
                        pre_release: None,
                        build_metadata: None,
                    },
                ),
                _ => Err(VersionParseError::InvalidNumber),
            }
        }
    }
}

/// The text `major.minor`, followed by `.patch` where a patch is present.
pub open spec fn render_without_prefix(v: VersionView) -> Seq<char> {
    let head = decimal(v.major) + seq!['.'] + decimal(v.minor);
    match v.patch {
        Some(p) => head + seq!['.'] + decimal(p),
        None => head,
    }
}

/// The text of a version with its leading `v`.
pub open spec fn render(v: VersionView) -> Seq<char> {
    seq!['v'] + render_without_prefix(v)
}

/// The position of the first `.` of `s` at or after `from`.
fn find_dot(s: &str, from: usize, len: usize) -> (r: usize)
    requires
        from <= len,
        len == s@.len(),
    ensures
        from <= r <= len,
        r == segment_end(s@, from as int),
{
    let mut i: usize = from;
    while i < len
        invariant
            from <= i <= len,
            len == s@.len(),
            segment_end(s@, from as int) == segment_end(s@, i as int),
        decreases len - i,
    {
        if s.get_char(i) == '.' {
            return i;
        }
        i = i + 1;
    }
    i
}

impl SemanticVersion {
    /// Reads a version from text: an optional leading `v`, then at least two
    /// numbers separated by dots.
    pub fn parse(s: &str) -> (r: Result<SemanticVersion, VersionParseError>)
        ensures
            r matches Ok(v) ==> parse_version(s@) == Ok::<VersionView, VersionParseError>(v@),
            r matches Err(e) ==> parse_version(s@) == Err::<VersionView, VersionParseError>(e),
    {
        let len = s.unicode_len();
        let start: usize = if len > 0 && s.get_char(0) == 'v' {
            1
        } else {
            0
        };
        let end0 = find_dot(s, start, len);
        if end0 >= len {
            return Err(VersionParseError::InvalidFormat);
        }
        let end1 = find_dot(s, end0 + 1, len);
        let major = parse_range(s, start, end0);
        let minor = parse_range(s, end0 + 1, end1);
        let patch = if end1 < len {
            let end2 = find_dot(s, end1 + 1, len);
            match parse_range(s, end1 + 1, end2) {
                Some(p) => Some(p),
                None => {
                    return Err(VersionParseError::InvalidNumber);
                },
            }
        } else {
            None
        };
        match (major, minor) {
            (Some(a), Some(b)) => Ok(
                SemanticVersion {
                    major: a,
                    minor: b,
                    patch,
                    pre_release: None,
                    build_metadata: None,
                },
            ),
            _ => Err(VersionParseError::InvalidNumber),
        }
    }

    /// Appends `major.minor[.patch]` to `out`.
    fn push_numbers(&self, out: &mut String)
        ensures
            final(out)@ == old(out)@ + render_without_prefix(self@),
    {
        push_decimal(out, self.major);
        out.append(".");
        push_decimal(out, self.minor);
        if let Some(p) = self.patch {
            out.append(".");
            push_decimal(out, p);
        }
        proof {
            reveal_strlit(".");
            assert("."@ =~= seq!['.']);
            assert(final(out)@ =~= old(out)@ + render_without_prefix(self@));
        }
    }

    /// The version as `v{major}.{minor}`, with `.{patch}` where a patch is
    /// present.
    pub fn to_string(&self) -> (r: String)
        ensures
            r@ == render(self@),
    {
        let mut out = String::new();
        out.append("v");
        self.push_numbers(&mut out);
        proof {
            reveal_strlit("v");
            assert(out@ =~= render(self@));
        }
        out
    }

    /// The version as `{major}.{minor}`, with `.{patch}` where a patch is
    /// present, and without a leading `v`.
    pub fn format_without_prefix(&self) -> (r: String)
        ensures
            r@ == render_without_prefix(self@),
    {
        let mut out = String::new();
        self.push_numbers(&mut out);
        assert(out@ =~= render_without_prefix(self@));
        out
    }
}

impl Default for SemanticVersion {
    /// Version `0.1.0`.
    fn default() -> (r: Self)
        ensures
            r@ == (VersionView {
                major: 0,
                minor: 1,
                patch: Some(0),
                pre_release: None,
                build_metadata: None,
            }),
    {
        SemanticVersion {
            major: 0,
            minor: 1,
            patch: Some(0),
            pre_release: None,
            build_metadata: None,
        }
    }
}

impl PartialEq for SemanticVersion {
    /// Two versions are equal where all five fields are.
    fn eq(&self, other: &Self) -> (r: bool) {
        let patch = match (self.patch, other.patch) {
            (Some(a), Some(b)) => a == b,
            (None, None) => true,
            _ => false,
        };
        let pre_release = match (&self.pre_release, &other.pre_release) {
            (Some(a), Some(b)) => a.raw == b.raw,
            (None, None) => true,
            _ => false,
        };
        let build_metadata = match (&self.build_metadata, &other.build_metadata) {
            (Some(a), Some(b)) => a.raw == b.raw,
            (None, None) => true,
            _ => false,
        };
        self.major == other.major && self.minor == other.minor && patch && pre_release
            && build_metadata
    }
}

impl PartialEqSpecImpl for SemanticVersion {
    open spec fn obeys_eq_spec() -> bool {
        true
    }

    open spec fn eq_spec(&self, other: &Self) -> bool {
        self@ == other@
    }
}

impl Eq for SemanticVersion {

}

impl PartialEq for PreRelease {
    fn eq(&self, other: &Self) -> (r: bool) {
        self.raw == other.raw
    }
}

impl PartialEqSpecImpl for PreRelease {
    open spec fn obeys_eq_spec() -> bool {
        true
    }

    open spec fn eq_spec(&self, other: &Self) -> bool {
        self.raw@ == other.raw@
    }
}

impl Eq for PreRelease {

}

impl PartialEq for BuildMetadata {
    fn eq(&self, other: &Self) -> (r: bool) {
        self.raw == other.raw
    }
}

impl PartialEqSpecImpl for BuildMetadata {
    open spec fn obeys_eq_spec() -> bool {
        true
    }

    open spec fn eq_spec(&self, other: &Self) -> bool {
        self.raw@ == other.raw@
    }
}

impl Eq for BuildMetadata {

}

impl core::str::FromStr for SemanticVersion {
    type Err = VersionParseError;

    fn from_str(s: &str) -> (r: Result<Self, Self::Err>)
        ensures
            r matches Ok(v) ==> parse_version(s@) == Ok::<VersionView, VersionParseError>(v@),
            r matches Err(e) ==> parse_version(s@) == Err::<VersionView, VersionParseError>(e),
    {
        SemanticVersion::parse(s)
    }
}

/// A component ends at `k` where no dot stands before `k` and the text ends,
/// or a dot stands, at `k`.
pub proof fn lemma_segment_end(s: Seq<char>, from: int, k: int)
    requires
        0 <= from <= k <= s.len(),
        forall|j: int| from <= j < k ==> s[j] != '.',
        k == s.len() || s[k] == '.',
    ensures
        segment_end(s, from) == k,
    decreases k - from,
{
    if from < k {
        lemma_segment_end(s, from + 1, k);
    }
}

/// The notation of a number holds no dot and starts with neither `v` nor `+`.
pub proof fn lemma_decimal_plain(n: nat)
    ensures
        decimal(n).len() > 0,
        all_digits(decimal(n)),
        forall|j: int| 0 <= j < decimal(n).len() ==> decimal(n)[j] != '.',
        decimal(n)[0] != 'v',
{
    lemma_decimal_value(n);
    let s = decimal(n);
    assert forall|j: int| 0 <= j < s.len() implies s[j] != '.' by {
        assert(digit_of(s[j]) is Some);
    }
    assert(digit_of(s[0]) is Some);
}

/// Round trip: reading the rendering of a version that holds numbers only
/// gives the version back.
pub proof fn lemma_parse_render(v: SemanticVersion)
    requires
        v.pre_release is None,
        v.build_metadata is None,
    ensures
        parse_version(render_without_prefix(v@)) == Ok::<VersionView, VersionParseError>(v@),
{
    let a = decimal(v.major as nat);
    let b = decimal(v.minor as nat);
    let t = render_without_prefix(v@);
    lemma_decimal_plain(v.major as nat);
    lemma_decimal_plain(v.minor as nat);
    lemma_parse_decimal_of_decimal(v.major);
    lemma_parse_decimal_of_decimal(v.minor);
    let e0 = a.len() as int;
    let e1 = e0 + 1 + b.len();
    assert(t[0] == a[0]);
    assert(t[e0] == '.');
    assert forall|j: int| 0 <= j < e0 implies t[j] != '.' by {
        assert(t[j] == a[j]);
    }
    assert forall|j: int| e0 + 1 <= j < e1 implies t[j] != '.' by {
        assert(t[j] == b[j - e0 - 1]);
    }
    lemma_segment_end(t, 0, e0);
    assert(t.subrange(0, e0) =~= a);
    assert(t.subrange(e0 + 1, e1) =~= b);
    match v.patch {
        Some(p) => {
            let c = decimal(p as nat);
            lemma_decimal_plain(p as nat);
            lemma_parse_decimal_of_decimal(p);
            let e2 = e1 + 1 + c.len();
            assert(t.len() == e2);
            assert(t[e1] == '.');
            assert forall|j: int| e1 + 1 <= j < e2 implies t[j] != '.' by {
                assert(t[j] == c[j - e1 - 1]);
            }
            lemma_segment_end(t, e0 + 1, e1);
            lemma_segment_end(t, e1 + 1, e2);
            assert(t.subrange(e1 + 1, e2) =~= c);
        },
        None => {
            assert(t.len() == e1);
            lemma_segment_end(t, e0 + 1, e1);
        },
    }
}

/// Moving a text one place to the right moves the end of each component
/// with it.
pub proof fn lemma_segment_end_shifted(c: char, s: Seq<char>, from: int)
    requires
        0 <= from <= s.len(),
    ensures
        segment_end(seq![c] + s, from + 1) == segment_end(s, from) + 1,
    decreases s.len() - from,
{
    let t = seq![c] + s;
    if from < s.len() {
        assert(t[from + 1] == s[from]);
        if s[from] != '.' {
            lemma_segment_end_shifted(c, s, from + 1);
        }
    }
}

/// The end of a component lies between its start and the end of the text.
pub proof fn lemma_segment_end_bounds(s: Seq<char>, from: int)
    requires
        0 <= from <= s.len(),
    ensures
        from <= segment_end(s, from) <= s.len(),
    decreases s.len() - from,
{
    if from < s.len() && s[from] != '.' {
        lemma_segment_end_bounds(s, from + 1);
    }
}

/// Prefix tolerance: a leading `v` before a text that does not itself start
/// with `v` changes nothing of what the text means.
pub proof fn lemma_prefix_tolerance(s: Seq<char>)
    requires
        s.len() == 0 || s[0] != 'v',
    ensures
        parse_version(seq!['v'] + s) == parse_version(s),
{
    let t = seq!['v'] + s;
    assert(t[0] == 'v');
    lemma_segment_end_shifted('v', s, 0);
    lemma_segment_end_bounds(s, 0);
    let end0 = segment_end(s, 0);
    if end0 < s.len() {
        lemma_segment_end_shifted('v', s, end0 + 1);
        lemma_segment_end_bounds(s, end0 + 1);
        let end1 = segment_end(s, end0 + 1);
        assert(t.subrange(1, end0 + 1) =~= s.subrange(0, end0));
        assert(t.subrange(end0 + 2, end1 + 1) =~= s.subrange(end0 + 1, end1));
        if end1 < s.len() {
            lemma_segment_end_shifted('v', s, end1 + 1);
            lemma_segment_end_bounds(s, end1 + 1);
            let end2 = segment_end(s, end1 + 1);
            assert(t.subrange(end1 + 2, end2 + 1) =~= s.subrange(end1 + 1, end2));
        }
    }
}

/// Minimum arity: a text that holds no dot is refused for its format,
/// whatever else it holds.
pub proof fn lemma_too_few_components(text: Seq<char>)
    requires
        forall|j: int| 0 <= j < text.len() ==> text[j] != '.',
    ensures
        parse_version(text) == Err::<VersionView, VersionParseError>(
            VersionParseError::InvalidFormat,
        ),
{
    let start = numbers_start(text);
    lemma_segment_end(text, start, text.len() as int);
}

/// Optional patch: the rendering of a version without a patch ends with the
/// minor number, and reading it gives a version without a patch.
pub proof fn lemma_render_without_patch(v: SemanticVersion)
    requires
        v.patch is None,
        v.pre_release is None,
        v.build_metadata is None,
    ensures
        render_without_prefix(v@) == decimal(v.major as nat) + seq!['.'] + decimal(
            v.minor as nat,
        ),
        parse_version(render_without_prefix(v@)) matches Ok(w) && w.patch is None,
{
    lemma_parse_render(v);
}

/// Reading the rendering with its leading `v` gives the version back too.
pub proof fn lemma_parse_render_prefixed(v: SemanticVersion)
    requires
        v.pre_release is None,
        v.build_metadata is None,
    ensures
        parse_version(render(v@)) == Ok::<VersionView, VersionParseError>(v@),
{
    lemma_decimal_plain(v.major as nat);
    let core = render_without_prefix(v@);
    assert(core[0] == decimal(v.major as nat)[0]);
    lemma_prefix_tolerance(core);
    lemma_parse_render(v);
}

} // verus!

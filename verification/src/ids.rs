//! Identifier newtypes and DOI normalization.

use vstd::prelude::*;

use crate::text::{
    lemma_lower_props, lemma_trim_noop, lemma_trim_shape, lower_char, is_ws, chars_of, copy_range, eq_ignore_ascii_case, eq_ignore_case, lower, lower_chars, string_of, trim,
    trim_chars,
};

verus! {

/// Identifier for a Figshare article.
#[derive(Clone, Copy, Debug, PartialEq, Eq, PartialOrd, Ord, Hash, Structural)]
pub struct ArticleId(
    /// Raw numeric identifier returned by Figshare.
    pub u64,
);

/// Identifier for a file attached to a Figshare article.
#[derive(Clone, Copy, Debug, PartialEq, Eq, PartialOrd, Ord, Hash, Structural)]
pub struct FileId(
    /// Raw numeric identifier returned by Figshare.
    pub u64,
);

/// Identifier for a Figshare category.
#[derive(Clone, Copy, Debug, PartialEq, Eq, PartialOrd, Ord, Hash, Structural)]
pub struct CategoryId(
    /// Raw numeric identifier returned by Figshare.
    pub u64,
);

/// Identifier for a Figshare license.
#[derive(Clone, Copy, Debug, PartialEq, Eq, PartialOrd, Ord, Hash, Structural)]
pub struct LicenseId(
    /// Raw numeric identifier returned by Figshare.
    pub u64,
);

/// DOI string wrapper used by public article selectors and response payloads.
#[derive(Clone, Debug, PartialEq, Eq, PartialOrd, Ord, Hash)]
pub struct Doi(
    /// Raw DOI value.
    pub String,
);

/// Errors raised while parsing or validating DOI selectors.
#[derive(Clone, Debug, PartialEq, Eq)]
pub enum DoiError {
    /// The normalized DOI string was empty.
    Empty,
    /// The DOI did not match the expected `10.<registrant>/<suffix>` shape.
    Invalid(String),
}

/// Character sequence of an ASCII string literal given as bytes.
pub open spec fn ascii_seq(b: Seq<u8>) -> Seq<char> {
    b.map_values(|x: u8| (x as u32) as char)
}

/// The prefixes stripped from DOI selectors, in the order they are tried.
pub open spec fn doi_prefix(k: int) -> Seq<char> {
    if k == 0 {
        seq!['d', 'o', 'i', ':']
    } else if k == 1 {
        seq!['h', 't', 't', 'p', 's', ':', '/', '/', 'd', 'o', 'i', '.', 'o', 'r', 'g', '/']
    } else if k == 2 {
        seq!['h', 't', 't', 'p', ':', '/', '/', 'd', 'o', 'i', '.', 'o', 'r', 'g', '/']
    } else {
        seq!['h', 't', 't', 'p', 's', ':', '/', '/', 'd', 'x', '.', 'd', 'o', 'i', '.', 'o', 'r', 'g', '/']
    }
}

/// Whether `s` starts with prefix number `k`, ignoring ASCII case.
pub open spec fn has_doi_prefix(s: Seq<char>, k: int) -> bool {
    s.len() >= doi_prefix(k).len() && eq_ignore_case(s.take(doi_prefix(k).len() as int), doi_prefix(k))
}

/// Strips the first matching prefix among prefixes `k..4`.
pub open spec fn strip_doi_prefix_from(s: Seq<char>, k: int) -> Seq<char>
    decreases 4 - k,
{
    if k >= 4 || k < 0 {
        s
    } else if has_doi_prefix(s, k) {
        s.skip(doi_prefix(k).len() as int)
    } else {
        strip_doi_prefix_from(s, k + 1)
    }
}

/// Strips the first DOI resolver or scheme prefix (`doi:`, `https://doi.org/`,
/// `http://doi.org/`, `https://dx.doi.org/`), ignoring ASCII case.
pub open spec fn strip_doi_prefix(s: Seq<char>) -> Seq<char> {
    strip_doi_prefix_from(s, 0)
}

/// The normalized form of a DOI-like input: trimmed, prefix removed, trimmed
/// again and lower-cased.
pub open spec fn normalize_doi_spec(s: Seq<char>) -> Seq<char> {
    lower(trim(strip_doi_prefix(trim(s))))
}

/// Whether `s` has the shape `10.<registrant>/<suffix>`: the part before the first
/// `/` is longer than `10.` and starts with it, and the part after it is not empty.
pub open spec fn doi_shape_ok(s: Seq<char>) -> bool {
    exists|i: int|
        0 <= i < s.len() && #[trigger] s[i] == '/' && (forall|j: int| 0 <= j < i ==> s[j] != '/') && i > 3
            && s[0] == '1' && s[1] == '0' && s[2] == '.' && i + 1 < s.len()
}

/// What DOI validation returns for a normalized value.
pub open spec fn validate_doi_spec(s: Seq<char>) -> Result<(), DoiError> {
    if s.len() == 0 {
        Err(DoiError::Empty)
    } else if !doi_shape_ok(s) {
        Err(DoiError::Invalid(arbitrary()))
    } else {
        Ok(())
    }
}

impl DoiError {
    /// The view of the error: which variant, with the rejected value.
    pub open spec fn rejected(self) -> Option<Seq<char>> {
        match self {
            DoiError::Empty => None,
            DoiError::Invalid(v) => Some(v@),
        }
    }
}

fn prefix_chars(k: usize) -> (r: Vec<char>)
    requires
        k < 4,
    ensures
        r@ == doi_prefix(k as int),
{
    let r = if k == 0 {
        vec!['d', 'o', 'i', ':']
    } else if k == 1 {
        vec!['h', 't', 't', 'p', 's', ':', '/', '/', 'd', 'o', 'i', '.', 'o', 'r', 'g', '/']
    } else if k == 2 {
        vec!['h', 't', 't', 'p', ':', '/', '/', 'd', 'o', 'i', '.', 'o', 'r', 'g', '/']
    } else {
        vec!['h', 't', 't', 'p', 's', ':', '/', '/', 'd', 'x', '.', 'd', 'o', 'i', '.', 'o', 'r', 'g', '/']
    };
    assert(r@ =~= doi_prefix(k as int));
    r
}

fn has_prefix_at(s: &Vec<char>, k: usize) -> (r: bool)
    requires
        k < 4,
    ensures
        r == has_doi_prefix(s@, k as int),
{
    let p = prefix_chars(k);
    if s.len() < p.len() {
        return false;
    }
    let head = copy_range(s, 0, p.len());
    assert(head@ =~= s@.take(p.len() as int));
    eq_ignore_ascii_case(head.as_slice(), p.as_slice())
}

/// Removes the first DOI resolver or scheme prefix, ignoring ASCII case.
pub fn trim_doi_prefix(s: &Vec<char>) -> (r: Vec<char>)
    ensures
        r@ == strip_doi_prefix(s@),
{
    let mut k: usize = 0;
    while k < 4
        invariant
            k <= 4,
            strip_doi_prefix(s@) == strip_doi_prefix_from(s@, k as int),
        decreases 4 - k,
    {
        if has_prefix_at(s, k) {
            let n = prefix_chars(k).len();
            let r = copy_range(s, n, s.len());
            assert(r@ =~= s@.skip(n as int));
            return r;
        }
        k = k + 1;
    }
    copy_range_all(s)
}

fn copy_range_all(s: &Vec<char>) -> (r: Vec<char>)
    ensures
        r@ == s@,
{
    let r = copy_range(s, 0, s.len());
    assert(r@ =~= s@);
    r
}

/// Normalizes a DOI-like input: trims, strips one resolver prefix, trims again and
/// lower-cases ASCII letters.
pub fn normalize_doi(value: &str) -> (r: String)
    ensures
        r@ == normalize_doi_spec(value@),
{
    let chars = chars_of(value);
    let trimmed = trim_chars(&chars);
    let stripped = trim_doi_prefix(&trimmed);
    let again = trim_chars(&stripped);
    let lowered = lower_chars(&again);
    string_of(lowered.as_slice())
}

/// Checks that a normalized value has the `10.<registrant>/<suffix>` shape.
pub fn validate_doi(value: &str) -> (r: Result<(), DoiError>)
    ensures
        r is Ok <==> validate_doi_spec(value@) is Ok,
        r == Err::<(), DoiError>(DoiError::Empty) <==> validate_doi_spec(value@) == Err::<(), DoiError>(DoiError::Empty),
        r matches Err(DoiError::Invalid(v)) ==> v@ == value@,
        r is Err ==> validate_doi_spec(value@) is Err,
{
    let s = chars_of(value);
    if s.len() == 0 {
        return Err(DoiError::Empty);
    }
    let mut i: usize = 0;
    while i < s.len() && s[i] != '/'
        invariant
            i <= s.len(),
            s@ == value@,
            forall|j: int| 0 <= j < i ==> s@[j] != '/',
        decreases s.len() - i,
    {
        i = i + 1;
    }
    if i == s.len() {
        return Err(DoiError::Invalid(string_of(s.as_slice())));
    }
    if i <= 3 || !(s[0] == '1' && s[1] == '0' && s[2] == '.') || i + 1 >= s.len() {
        proof {
            assert forall|m: int|
                0 <= m < s@.len() && s@[m] == '/' && (forall|j: int| 0 <= j < m ==> s@[j] != '/')
                implies m == i by {
                if m < i {
                } else if m > i {
                    assert(s@[i as int] == '/');
                }
            }
        }
        return Err(DoiError::Invalid(string_of(s.as_slice())));
    }
    assert(s@[i as int] == '/');
    Ok(())
}

proof fn lemma_no_prefix_after_digit(s: Seq<char>, k: int)
    requires
        s.len() > 0,
        s[0] == '1',
        0 <= k,
    ensures
        strip_doi_prefix_from(s, k) == s,
    decreases 4 - k,
{
    if k < 4 {
        if has_doi_prefix(s, k) {
            assert(s.take(doi_prefix(k).len() as int)[0] == '1');
            assert(lower_char(doi_prefix(k)[0]) != '1');
        }
        lemma_no_prefix_after_digit(s, k + 1);
    }
}

/// Normalization is idempotent on accepted DOIs: the normalized text of a valid DOI
/// normalizes to itself, so `Doi::new(doi.as_str())` gives back the same DOI.
pub proof fn lemma_doi_normalization_idempotent(s: Seq<char>)
    requires
        validate_doi_spec(normalize_doi_spec(s)) is Ok,
    ensures
        normalize_doi_spec(normalize_doi_spec(s)) == normalize_doi_spec(s),
        validate_doi_spec(normalize_doi_spec(normalize_doi_spec(s))) is Ok,
{
    let n = normalize_doi_spec(s);
    let t = trim(strip_doi_prefix(trim(s)));
    lemma_trim_shape(strip_doi_prefix(trim(s)));
    lemma_lower_props(t);
    assert(n.len() > 0);
    assert(!is_ws(n[0]) && !is_ws(n.last())) by {
        assert(is_ws(lower(t)[0]) == is_ws(t[0]));
        assert(is_ws(lower(t)[t.len() - 1]) == is_ws(t[t.len() - 1]));
    }
    lemma_trim_noop(n);
    assert(doi_shape_ok(n));
    let i = choose|i: int|
        0 <= i < n.len() && #[trigger] n[i] == '/' && (forall|j: int| 0 <= j < i ==> n[j] != '/') && i > 3
            && n[0] == '1' && n[1] == '0' && n[2] == '.' && i + 1 < n.len();
    lemma_no_prefix_after_digit(n, 0);
    assert(lower(n) == n);
}

/// A normalized DOI has no surrounding whitespace and no upper-case ASCII
/// letter; a `doi:` prefix in any case is dropped from an input that starts
/// with it; and validation accepts `10.<registrant>/<suffix>` and rejects a
/// missing registrant, a missing suffix or another directory than `10.`.
pub proof fn lemma_doi_normal_form(s: Seq<char>, rest: Seq<char>)
    requires
        rest.len() > 0 ==> !is_ws(rest[0]),
    ensures
        trim(normalize_doi_spec(s)) == normalize_doi_spec(s),
        lower(normalize_doi_spec(s)) == normalize_doi_spec(s),
        strip_doi_prefix("doi:"@ + rest) == rest,
        strip_doi_prefix("DOI:"@ + rest) == rest,
        validate_doi_spec("10.1/x"@) is Ok,
        validate_doi_spec("10.6084/m9.figshare.123"@) is Ok,
        validate_doi_spec("10./x"@) is Err,
        validate_doi_spec("10.1/"@) is Err,
        validate_doi_spec("11.1/x"@) is Err,
        validate_doi_spec(""@) == Err::<(), DoiError>(DoiError::Empty),
{
    let t = trim(strip_doi_prefix(trim(s)));
    lemma_trim_shape(strip_doi_prefix(trim(s)));
    lemma_lower_props(t);
    let n = lower(t);
    if n.len() > 0 {
        assert(is_ws(n[0]) == is_ws(t[0]));
        assert(is_ws(n[n.len() - 1]) == is_ws(t[t.len() - 1]));
    }
    lemma_trim_noop(n);
    reveal_strlit("doi:");
    reveal_strlit("DOI:");
    let a = "doi:"@ + rest;
    let b = "DOI:"@ + rest;
    assert(a.take(4) =~= "doi:"@);
    assert(b.take(4) =~= "DOI:"@);
    assert(eq_ignore_case(a.take(4), doi_prefix(0)));
    assert(eq_ignore_case(b.take(4), doi_prefix(0)));
    assert(a.skip(4) =~= rest);
    assert(b.skip(4) =~= rest);
    reveal_strlit("10.1/x");
    reveal_strlit("10.6084/m9.figshare.123");
    reveal_strlit("10./x");
    reveal_strlit("10.1/");
    reveal_strlit("11.1/x");
    reveal_strlit("");
    let v1 = "10.1/x"@;
    assert(v1[4] == '/');
    let v2 = "10.6084/m9.figshare.123"@;
    assert(v2[7] == '/');
    let w1 = "10./x"@;
    if doi_shape_ok(w1) {
        let i = choose|i: int| 0 <= i < w1.len() && #[trigger] w1[i] == '/' && (forall|j: int| 0 <= j < i ==> w1[j] != '/') && i > 3
            && w1[0] == '1' && w1[1] == '0' && w1[2] == '.' && i + 1 < w1.len();
        assert(w1[3] == '/');
    }
    let w2 = "10.1/"@;
    if doi_shape_ok(w2) {
        let i = choose|i: int| 0 <= i < w2.len() && #[trigger] w2[i] == '/' && (forall|j: int| 0 <= j < i ==> w2[j] != '/') && i > 3
            && w2[0] == '1' && w2[1] == '0' && w2[2] == '.' && i + 1 < w2.len();
        assert(w2[4] == '/');
    }
}

impl Doi {
    /// Creates a normalized DOI wrapper from a raw DOI-like input.
    ///
    /// The input is trimmed, one `doi:`/`https://doi.org/`/`http://doi.org/`/
    /// `https://dx.doi.org/` prefix is removed (ignoring ASCII case), the rest is
    /// trimmed and lower-cased, and must look like `10.<registrant>/<suffix>`.
    pub fn new(value: &str) -> (r: Result<Doi, DoiError>)
        ensures
            r is Ok <==> validate_doi_spec(normalize_doi_spec(value@)) is Ok,
            r matches Ok(d) ==> d.0@ == normalize_doi_spec(value@),
            r == Err::<Doi, DoiError>(DoiError::Empty) <==> normalize_doi_spec(value@).len() == 0,
            r matches Err(DoiError::Invalid(v)) ==> v@ == normalize_doi_spec(value@),
    {
        let normalized = normalize_doi(value);
        match validate_doi(normalized.as_str()) {
            Ok(()) => Ok(Doi(normalized)),
            Err(e) => Err(e),
        }
    }

    /// Returns the raw DOI string.
    pub fn as_str(&self) -> (r: &str)
        ensures
            r@ == self.0@,
    {
        self.0.as_str()
    }

    /// The DOI text, as its `Display` form renders it.
    pub fn to_display_string(&self) -> (r: String)
        ensures
            r@ == self.0@,
    {
        self.0.clone()
    }
}

impl std::str::FromStr for Doi {
    type Err = DoiError;

    /// Parses and normalizes a DOI as `Doi::new` does.
    fn from_str(s: &str) -> (r: Result<Doi, DoiError>)
        ensures
            r is Ok <==> validate_doi_spec(normalize_doi_spec(s@)) is Ok,
            r matches Ok(d) ==> d.0@ == normalize_doi_spec(s@),
            r == Err::<Doi, DoiError>(DoiError::Empty) <==> normalize_doi_spec(s@).len() == 0,
            r matches Err(DoiError::Invalid(v)) ==> v@ == normalize_doi_spec(s@),
    {
        Doi::new(s)
    }
}

} // verus!

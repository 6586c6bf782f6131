use vstd::prelude::*;
use vstd::utf8::{encode_utf8, is_ascii_chars, is_ascii_chars_encode_utf8};

verus! {

/// Longest accepted name, counted in UTF-8 code units of the untrimmed text.
pub const MAX_NAME_LEN: usize = 100;

/// The Unicode `White_Space` property: the characters that `char::is_whitespace`
/// accepts and that `str::trim` removes.
pub open spec fn is_white_space(c: char) -> bool {
    let u = c as u32;
    ||| 0x09 <= u <= 0x0d
    ||| u == 0x20
    ||| u == 0x85
    ||| u == 0xa0
    ||| u == 0x1680
    ||| 0x2000 <= u <= 0x200a
    ||| u == 0x2028
    ||| u == 0x2029
    ||| u == 0x202f
    ||| u == 0x205f
    ||| u == 0x3000
}

/// Trimming `s` leaves nothing: every character of it is whitespace.
pub open spec fn is_blank(s: Seq<char>) -> bool {
    forall|i: int| 0 <= i < s.len() ==> #[trigger] is_white_space(s[i])
}

/// Length of `s` in UTF-8 code units, which is what `str::len` reports.
pub open spec fn utf8_len(s: Seq<char>) -> nat {
    encode_utf8(s).len()
}

/// Why a raw string is not a valid name.
#[derive(Debug, Clone, Copy, PartialEq, Eq, Structural)]
pub enum NameError {
    /// Nothing but whitespace.
    Empty,
    /// More than `MAX_NAME_LEN` code units.
    TooLong,
}

/// The fixed text of each validation error.
pub open spec fn name_error_text(e: NameError) -> Seq<char> {
    match e {
        NameError::Empty => "Name cannot be empty"@,
        NameError::TooLong => "Name is too long (maximum 100 characters)"@,
    }
}

impl NameError {
    /// Human-readable text of the error.
    pub fn message(&self) -> (r: String)
        ensures
            r@ == name_error_text(*self),
    {
        match self {
            NameError::Empty => String::from_str("Name cannot be empty"),
            NameError::TooLong => String::from_str("Name is too long (maximum 100 characters)"),
        }
    }
}

/// What validating `s` gives: the first rule that fails, in order, or the text
/// itself, unchanged.
pub open spec fn validate_name(s: Seq<char>) -> Result<Seq<char>, NameError> {
    if is_blank(s) {
        Err(NameError::Empty)
    } else if utf8_len(s) > MAX_NAME_LEN {
        Err(NameError::TooLong)
    } else {
        Ok(s)
    }
}

/// The outcome of `validate_name`, seen through the view of a constructed name.
pub open spec fn name_result_matches(r: Result<Name, NameError>, s: Seq<char>) -> bool {
    match r {
        Ok(n) => validate_name(s) == Ok::<Seq<char>, NameError>(n@),
        Err(e) => validate_name(s) == Err::<Seq<char>, NameError>(e),
    }
}

/// Text that is nothing but whitespace, the empty text included, is rejected
/// as `Empty`, however long it is.
pub proof fn lemma_blank_is_empty_name(s: Seq<char>)
    requires
        is_blank(s),
    ensures
        validate_name(s) == Err::<Seq<char>, NameError>(NameError::Empty),
{
}

/// Text that is not blank and is longer than `MAX_NAME_LEN` code units is
/// rejected as `TooLong`.
pub proof fn lemma_overlong_is_too_long(s: Seq<char>)
    requires
        !is_blank(s),
        utf8_len(s) > MAX_NAME_LEN,
    ensures
        validate_name(s) == Err::<Seq<char>, NameError>(NameError::TooLong),
{
}

/// Text that is not blank is accepted at exactly 100 code units and rejected
/// as `TooLong` at 101; for ASCII text code units and characters are the same
/// count.
pub proof fn lemma_length_boundary(s: Seq<char>)
    requires
        !is_blank(s),
    ensures
        utf8_len(s) == 100 ==> validate_name(s) == Ok::<Seq<char>, NameError>(s),
        utf8_len(s) == 101 ==> validate_name(s) == Err::<Seq<char>, NameError>(NameError::TooLong),
        is_ascii_chars(s) ==> utf8_len(s) == s.len(),
{
    if is_ascii_chars(s) {
        is_ascii_chars_encode_utf8(s);
    }
}

/// `t` is `s` with its leading and trailing whitespace removed.
pub open spec fn is_trim_of(t: Seq<char>, s: Seq<char>) -> bool {
    exists|lo: int, hi: int|
        {
            &&& 0 <= lo <= hi <= s.len()
            &&& t == s.subrange(lo, hi)
            &&& forall|k: int| 0 <= k < lo ==> #[trigger] is_white_space(s[k])
            &&& forall|k: int| hi <= k < s.len() ==> #[trigger] is_white_space(s[k])
            &&& lo < hi ==> !is_white_space(s[lo]) && !is_white_space(s[hi - 1])
        }
}

/// Trimming leaves nothing exactly when the text is blank.
proof fn lemma_trim_empty_iff_blank(t: Seq<char>, s: Seq<char>)
    requires
        is_trim_of(t, s),
    ensures
        t.len() == 0 <==> is_blank(s),
{
    let (lo, hi) = choose|lo: int, hi: int|
        {
            &&& 0 <= lo <= hi <= s.len()
            &&& t == s.subrange(lo, hi)
            &&& forall|k: int| 0 <= k < lo ==> #[trigger] is_white_space(s[k])
            &&& forall|k: int| hi <= k < s.len() ==> #[trigger] is_white_space(s[k])
            &&& lo < hi ==> !is_white_space(s[lo]) && !is_white_space(s[hi - 1])
        };
    if lo < hi {
        assert(!is_white_space(s[lo]));
    }
}

/// Relies on `str::trim`, which removes the leading and trailing characters
/// with the Unicode `White_Space` property and returns the slice in between.
#[verifier::external_body]
fn trim_white_space(s: &str) -> (r: &str)
    ensures
        is_trim_of(r@, s@),
{
    s.trim()
}

/// A caller's name: text that is not blank and is at most `MAX_NAME_LEN`
/// UTF-8 code units long, kept exactly as given.
#[derive(Debug)]
pub struct Name(String);

impl View for Name {
    type V = Seq<char>;

    closed spec fn view(&self) -> Seq<char> {
        self.0@
    }
}

impl Name {
    #[verifier::type_invariant]
    spec fn is_valid(&self) -> bool {
        validate_name(self.0@) is Ok
    }

    /// Validates `value`: blank text is `Empty`, then text longer than
    /// `MAX_NAME_LEN` code units is `TooLong`; otherwise the name holds `value`
    /// untrimmed.
    pub fn new(value: String) -> (r: Result<Name, NameError>)
        ensures
            name_result_matches(r, value@),
    {
        let trimmed = trim_white_space(value.as_str());
        proof {
            lemma_trim_empty_iff_blank(trimmed@, value@);
        }
        let blank = trimmed.is_empty();
        if blank {
            return Err(NameError::Empty);
        }
        if value.as_str().as_bytes().len() > MAX_NAME_LEN {
            return Err(NameError::TooLong);
        }
        Ok(Name(value))
    }

    /// The stored text, which always passes validation unchanged.
    pub fn value(&self) -> (r: &str)
        ensures
            r@ == self@,
            validate_name(r@) == Ok::<Seq<char>, NameError>(r@),
    {
        proof {
            use_type_invariant(self);
        }
        self.0.as_str()
    }
}

impl AsRef<str> for Name {
    /// The stored text, as `value` gives it.
    fn as_ref(&self) -> (r: &str)
        ensures
            r@ == self@,
    {
        self.value()
    }
}

impl Clone for Name {
    fn clone(&self) -> (r: Name)
        ensures
            r@ == self@,
    {
        proof {
            use_type_invariant(self);
        }
        Name(self.0.clone())
    }
}

impl PartialEq for Name {
    fn eq(&self, other: &Name) -> (r: bool) {
        self.0 == other.0
    }
}

impl vstd::std_specs::cmp::PartialEqSpecImpl for Name {
    open spec fn obeys_eq_spec() -> bool {
        true
    }

    open spec fn eq_spec(&self, other: &Name) -> bool {
        self@ == other@
    }
}

impl Eq for Name {}

} // verus!

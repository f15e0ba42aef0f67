//! Subscriber names and email addresses, parsed from untrusted input.
use unicode_segmentation::UnicodeSegmentation;
use vstd::prelude::*;
use vstd::std_specs::iter::IteratorSpec;

verus! {

/// The longest subscriber name accepted, in grapheme clusters.
pub const MAX_NAME_GRAPHEMES: usize = 256;

/// The number of extended grapheme clusters in a text.
pub uninterp spec fn grapheme_count(s: Seq<char>) -> nat;

/// Whether a text passes the general email grammar check of the email validator.
pub uninterp spec fn email_syntax_ok(s: Seq<char>) -> bool;

/// Unicode `White_Space`: the characters that `str::trim` removes.
pub open spec fn is_white_space(c: char) -> bool {
    let u = c as u32;
    (9 <= u <= 13) || u == 32 || u == 0x85 || u == 0xa0 || u == 0x1680 || (0x2000 <= u
        <= 0x200a) || u == 0x2028 || u == 0x2029 || u == 0x202f || u == 0x205f || u == 0x3000
}

pub open spec fn trim_start_of(s: Seq<char>) -> Seq<char>
    decreases s.len(),
{
    if s.len() > 0 && is_white_space(s[0]) {
        trim_start_of(s.drop_first())
    } else {
        s
    }
}

pub open spec fn trim_end_of(s: Seq<char>) -> Seq<char>
    decreases s.len(),
{
    if s.len() > 0 && is_white_space(s.last()) {
        trim_end_of(s.drop_last())
    } else {
        s
    }
}

/// A text without its leading and trailing white space.
pub open spec fn trim_of(s: Seq<char>) -> Seq<char> {
    trim_end_of(trim_start_of(s))
}

/// The characters that a subscriber name may not hold.
pub open spec fn is_forbidden_name_char(c: char) -> bool {
    c == '/' || c == '(' || c == ')' || c == '"' || c == '<' || c == '>' || c == '\\' || c == '{'
        || c == '}'
}

pub open spec fn has_forbidden_name_char(s: Seq<char>) -> bool {
    exists|i: int| 0 <= i < s.len() && is_forbidden_name_char(#[trigger] s[i])
}

/// A raw name is accepted when, once trimmed, it is not empty and is at
/// most 256 grapheme clusters long, and it holds no forbidden character.
pub open spec fn is_valid_name(raw: Seq<char>) -> bool {
    &&& trim_of(raw).len() > 0
    &&& grapheme_count(trim_of(raw)) <= MAX_NAME_GRAPHEMES
    &&& !has_forbidden_name_char(raw)
}

/// The text of a name as it is kept: trimmed, not empty, at most 256
/// grapheme clusters, without a forbidden character.
pub open spec fn is_name_text(t: Seq<char>) -> bool {
    &&& t.len() > 0
    &&& trim_of(t) == t
    &&& grapheme_count(t) <= MAX_NAME_GRAPHEMES
    &&& !has_forbidden_name_char(t)
}

proof fn lemma_trim_start(s: Seq<char>)
    ensures
        trim_start_of(s).len() <= s.len(),
        trim_start_of(s) == s.subrange(s.len() - trim_start_of(s).len(), s.len() as int),
        trim_start_of(s).len() > 0 ==> !is_white_space(trim_start_of(s)[0]),
    decreases s.len(),
{
    if s.len() > 0 && is_white_space(s[0]) {
        let t = s.drop_first();
        lemma_trim_start(t);
        let k = trim_start_of(t).len();
        assert(t.subrange(t.len() - k, t.len() as int) =~= s.subrange(s.len() - k, s.len() as int));
    } else {
        assert(s.subrange(0, s.len() as int) =~= s);
    }
}

proof fn lemma_trim_end(s: Seq<char>)
    ensures
        trim_end_of(s).len() <= s.len(),
        trim_end_of(s) == s.subrange(0, trim_end_of(s).len() as int),
        trim_end_of(s).len() > 0 ==> !is_white_space(trim_end_of(s).last()),
    decreases s.len(),
{
    if s.len() > 0 && is_white_space(s.last()) {
        let t = s.drop_last();
        lemma_trim_end(t);
        let k = trim_end_of(t).len();
        assert(t.subrange(0, k as int) =~= s.subrange(0, k as int));
    } else {
        assert(s.subrange(0, s.len() as int) =~= s);
    }
}

/// Trimming keeps a slice of the text, and trimming again changes nothing.
proof fn lemma_trim(s: Seq<char>)
    ensures
        trim_of(trim_of(s)) == trim_of(s),
        !has_forbidden_name_char(s) ==> !has_forbidden_name_char(trim_of(s)),
{
    let v = trim_start_of(s);
    let u = trim_end_of(v);
    lemma_trim_start(s);
    lemma_trim_end(v);
    let a = s.len() - v.len();
    assert forall|i: int| 0 <= i < u.len() implies u[i] == s[a + i] by {
        assert(u[i] == v[i]);
        assert(v[i] == s[a + i]);
    }
    if !has_forbidden_name_char(s) {
        assert forall|i: int| 0 <= i < u.len() implies !is_forbidden_name_char(#[trigger] u[i]) by {
            assert(u[i] == s[a + i]);
        }
    }
    if u.len() > 0 {
        assert(u[0] == v[0]);
        assert(trim_start_of(u) == u);
        assert(trim_end_of(u) == u);
    } else {
        assert(trim_start_of(u) == u);
        assert(trim_end_of(u) == u);
    }
}

/// How often `c` occurs in `s`.
pub open spec fn count_char(s: Seq<char>, c: char) -> nat
    decreases s.len(),
{
    if s.len() == 0 {
        0
    } else {
        count_char(s.drop_last(), c) + if s.last() == c {
            1nat
        } else {
            0nat
        }
    }
}

/// Exactly one `@`, with a non-empty local part before it and a non-empty
/// domain part after it.
pub open spec fn has_email_shape(s: Seq<char>) -> bool {
    &&& count_char(s, '@') == 1
    &&& s[0] != '@'
    &&& s.last() != '@'
}

pub open spec fn is_valid_email(s: Seq<char>) -> bool {
    has_email_shape(s) && email_syntax_ok(s)
}

/// Relies on `str::trim`: leading and trailing Unicode white space removed.
#[verifier::external_body]
fn trim(s: &str) -> (r: &str)
    ensures
        r@ == trim_of(s@),
{
    s.trim()
}

/// Relies on `UnicodeSegmentation::graphemes` (extended clusters), counted.
#[verifier::external_body]
fn count_graphemes(s: &str) -> (n: usize)
    ensures
        n as nat == grapheme_count(s@),
{
    s.graphemes(true).count()
}

/// Relies on `validator::validate_email` for the email grammar.
#[verifier::external_body]
fn check_email_syntax(s: &str) -> (r: bool)
    ensures
        r == email_syntax_ok(s@),
{
    validator::validate_email(s)
}

/// Whether `s` is an acceptable name, given that it has `graphemes`
/// grapheme clusters once trimmed.
pub fn is_acceptable_name(s: &str, graphemes: usize) -> (r: bool)
    ensures
        r == (trim_of(s@).len() > 0 && graphemes <= MAX_NAME_GRAPHEMES
            && !has_forbidden_name_char(s@)),
{
    let is_blank = trim(s).unicode_len() == 0;
    let too_long = graphemes > MAX_NAME_GRAPHEMES;
    !is_blank && !too_long && !contains_forbidden_name_char(s)
}

/// Whether `s` is an acceptable email address, given whether it passes the
/// email grammar.
pub fn is_acceptable_email(s: &str, syntax_ok: bool) -> (r: bool)
    ensures
        r == (has_email_shape(s@) && syntax_ok),
{
    syntax_ok && is_email_shaped(s)
}

/// Whether `s` has exactly one `@` between a non-empty local part and a
/// non-empty domain.
pub fn is_email_shaped(s: &str) -> (r: bool)
    ensures
        r == has_email_shape(s@),
{
    let n = s.unicode_len();
    n > 0 && count_at_signs(s) == 1 && s.get_char(0) != '@' && s.get_char(n - 1) != '@'
}

fn contains_forbidden_name_char(s: &str) -> (r: bool)
    ensures
        r == has_forbidden_name_char(s@),
{
    broadcast use vstd::string::group_string_axioms;

    let mut chars = s.chars();
    let ghost mut i: int = 0;
    loop
        invariant
            0 <= i <= s@.len(),
            chars.remaining() == s@.subrange(i, s@.len() as int),
            forall|j: int| 0 <= j < i ==> !is_forbidden_name_char(#[trigger] s@[j]),
        decreases s@.len() - i,
    {
        match chars.next() {
            Some(c) => {
                if c == '/' || c == '(' || c == ')' || c == '"' || c == '<' || c == '>' || c == '\\'
                    || c == '{' || c == '}' {
                    return true;
                }
                proof {
                    i = i + 1;
                }
            },
            None => {
                return false;
            },
        }
    }
}

fn count_at_signs(s: &str) -> (r: usize)
    ensures
        r as nat == count_char(s@, '@'),
{
    broadcast use vstd::string::group_string_axioms;

    let n = s.unicode_len();
    let mut chars = s.chars();
    let mut count: usize = 0;
    let ghost mut i: int = 0;
    loop
        invariant
            n == s@.len(),
            0 <= i <= s@.len(),
            count <= i,
            chars.remaining() == s@.subrange(i, s@.len() as int),
            count as nat == count_char(s@.subrange(0, i), '@'),
        decreases s@.len() - i,
    {
        match chars.next() {
            Some(c) => {
                proof {
                    assert(s@.subrange(0, i + 1).drop_last() == s@.subrange(0, i));
                    assert(s@[i] == c);
                }
                if c == '@' {
                    count = count + 1;
                }
                proof {
                    i = i + 1;
                }
            },
            None => {
                proof {
                    assert(s@.subrange(0, s@.len() as int) == s@);
                }
                return count;
            },
        }
    }
}

/// A subscriber's display name: trimmed, not empty, at most 256 grapheme
/// clusters, free of `/ ( ) " < > \ { }`.
pub struct SubscriberName {
    name: String,
}

impl View for SubscriberName {
    type V = Seq<char>;

    closed spec fn view(&self) -> Seq<char> {
        self.name@
    }
}

impl SubscriberName {
    #[verifier::type_invariant]
    closed spec fn inv(&self) -> bool {
        is_name_text(self.name@)
    }

    /// `name` is what `parse` makes of the raw text `raw`.
    pub open spec fn parse_result(raw: Seq<char>, name: SubscriberName) -> bool {
        is_valid_name(raw) && name@ == trim_of(raw)
    }

    /// Accepts `s` exactly when it is a valid name, and keeps it trimmed.
    pub fn parse(s: String) -> (r: Result<SubscriberName, String>)
        ensures
            r is Ok <==> is_valid_name(s@),
            r matches Ok(n) ==> n@ == trim_of(s@),
            r matches Err(e) ==> e@ == s@ + " is not a valid subscriber name."@,
    {
        let trimmed = trim(s.as_str());
        let graphemes = count_graphemes(trimmed);
        if is_acceptable_name(s.as_str(), graphemes) {
            let name = trimmed.to_string();
            proof {
                lemma_trim(s@);
                assert(is_valid_name(s@) && trim_of(s@) == name@);
            }
            Ok(SubscriberName { name })
        } else {
            Err(s.concat(" is not a valid subscriber name."))
        }
    }

    pub fn as_str(&self) -> (r: &str)
        ensures
            r@ == self@,
            is_name_text(self@),
    {
        proof {
            use_type_invariant(self);
        }
        self.name.as_str()
    }
}

/// A subscriber's email address: exactly one `@` between a non-empty local
/// part and a non-empty domain, and valid by the email grammar.
pub struct SubscriberEmail {
    email: String,
}

impl View for SubscriberEmail {
    type V = Seq<char>;

    closed spec fn view(&self) -> Seq<char> {
        self.email@
    }
}

impl SubscriberEmail {
    #[verifier::type_invariant]
    closed spec fn inv(&self) -> bool {
        is_valid_email(self.email@)
    }

    /// Accepts `s` exactly when it is a valid email address, unchanged.
    pub fn parse(s: String) -> (r: Result<SubscriberEmail, String>)
        ensures
            r is Ok <==> is_valid_email(s@),
            r matches Ok(e) ==> e@ == s@,
            r matches Err(e) ==> e@ == s@ + " is not a valid subscriber email."@,
    {
        let syntax_ok = check_email_syntax(s.as_str());
        if is_acceptable_email(s.as_str(), syntax_ok) {
            Ok(SubscriberEmail { email: s })
        } else {
            Err(s.concat(" is not a valid subscriber email."))
        }
    }

    pub fn as_str(&self) -> (r: &str)
        ensures
            r@ == self@,
            is_valid_email(self@),
    {
        proof {
            use_type_invariant(self);
        }
        self.email.as_str()
    }
}

/// A sign-up whose name and email both passed validation.
pub struct NewSubscriber {
    pub email: SubscriberEmail,
    pub name: SubscriberName,
}

} // verus!

use crate::domain::string_checks::{
    generic_string_checks, grapheme_count, is_blank, is_forbidden_char, passes_generic_checks,
    MAX_GRAPHEMES,
};
use vstd::prelude::*;
use vstd::string::StringExecFns;

verus! {

/// `s` holds an `@`.
pub open spec fn has_at_sign(s: Seq<char>) -> bool {
    exists|i: int| 0 <= i < s.len() && s[i] == '@'
}

/// The checks that an e-mail address must pass.
pub open spec fn passes_email_checks(s: Seq<char>) -> bool {
    passes_generic_checks(s) && has_at_sign(s)
}

/// The error text for a rejected e-mail address `s`.
pub open spec fn invalid_email_message(s: Seq<char>) -> Seq<char> {
    s + " is not a valid subscriber email."@
}

fn contains_at_sign(s: &str) -> (r: bool)
    ensures
        r == has_at_sign(s@),
{
    let mut found = false;
    for c in it: s.chars()
        invariant
            it.seq() == s@,
            found == (exists|j: int| 0 <= j < it.index() && #[trigger] s@[j] == '@'),
    {
        if c == '@' {
            found = true;
        }
    }
    found
}

/// A subscriber e-mail address that passed the generic checks and holds an `@`.
#[derive(Debug)]
pub struct SubscriberEmail(String);

impl View for SubscriberEmail {
    type V = Seq<char>;

    closed spec fn view(&self) -> Seq<char> {
        self.0@
    }
}

impl SubscriberEmail {
    #[verifier::type_invariant]
    closed spec fn is_valid(self) -> bool {
        passes_email_checks(self.0@)
    }

    /// Accepts `s` as an e-mail address exactly when it passes the generic
    /// checks and holds an `@`; the address then holds `s` unchanged. A
    /// rejected `s` comes back inside the error text.
    pub fn parse(s: String) -> (r: Result<SubscriberEmail, String>)
        ensures
            r is Ok <==> passes_email_checks(s@),
            r is Ok <==> (passes_generic_checks(s@) && exists|i: int| 0 <= i < s@.len() && #[trigger] s@[i] == '@'),
            r matches Ok(email) ==> email@ == s@,
            r matches Err(msg) ==> msg@ == invalid_email_message(s@),
    {
        if !generic_string_checks(s.as_str()) {
            let mut msg = s;
            msg.append(" is not a valid subscriber email.");
            return Err(msg);
        }
        if !contains_at_sign(s.as_str()) {
            let mut msg = s;
            msg.append(" is not a valid subscriber email.");
            return Err(msg);
        }
        Ok(SubscriberEmail(s))
    }

    /// The address's text. Every address passes the e-mail checks.
    pub fn as_ref(&self) -> (r: &str)
        ensures
            r@ == self@,
            passes_email_checks(self@),
    {
        proof {
            use_type_invariant(self);
        }
        self.0.as_str()
    }
}

/// The text, for code that asks for `AsRef<str>`: the same text as the
/// inherent [`SubscriberEmail::as_ref`].
impl AsRef<str> for SubscriberEmail {
    fn as_ref(&self) -> (r: &str)
        ensures
            r@ == self@,
            passes_email_checks(r@),
    {
        proof {
            use_type_invariant(self);
        }
        self.0.as_str()
    }
}

/// A string is accepted as an e-mail address exactly when it is accepted as
/// a name and holds an `@` somewhere: no other character, and no place of the
/// `@`, matters.
pub proof fn lemma_email_checks_exactly(s: Seq<char>)
    ensures
        passes_email_checks(s) <==> (passes_generic_checks(s) && exists|i: int|
            0 <= i < s.len() && #[trigger] s[i] == '@'),
{
}

/// Every string that is accepted as an e-mail address is accepted as a name too.
pub proof fn lemma_email_passes_name_checks(s: Seq<char>)
    requires
        passes_email_checks(s),
    ensures
        passes_generic_checks(s),
{
}

/// A forbidden character anywhere in `s` makes `s` unacceptable both as a
/// name and as an e-mail address.
pub proof fn lemma_forbidden_char_rejected(s: Seq<char>, i: int)
    requires
        0 <= i < s.len(),
        is_forbidden_char(s[i]),
    ensures
        !passes_generic_checks(s),
        !passes_email_checks(s),
{
}

/// A blank string, or one of more than [`MAX_GRAPHEMES`] grapheme clusters,
/// is unacceptable both as a name and as an e-mail address.
pub proof fn lemma_blank_or_long_rejected(s: Seq<char>)
    requires
        is_blank(s) || grapheme_count(s) > MAX_GRAPHEMES,
    ensures
        !passes_generic_checks(s),
        !passes_email_checks(s),
{
}

} // verus!

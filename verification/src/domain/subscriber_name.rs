use crate::domain::string_checks::{
    generic_string_checks, is_white_space, passes_generic_checks, MAX_GRAPHEMES,
};
use vstd::prelude::*;
use vstd::string::StringExecFns;

verus! {

/// The error text for a rejected name `s`.
pub open spec fn invalid_name_message(s: Seq<char>) -> Seq<char> {
    s + " is not a valid subscriber name."@
}

/// A subscriber name that passed [`generic_string_checks`].
#[derive(Debug)]
pub struct SubscriberName(String);

impl View for SubscriberName {
    type V = Seq<char>;

    closed spec fn view(&self) -> Seq<char> {
        self.0@
    }
}

impl SubscriberName {
    #[verifier::type_invariant]
    closed spec fn is_valid(self) -> bool {
        passes_generic_checks(self.0@)
    }

    /// Accepts `s` as a name exactly when it passes the generic checks; the
    /// name then holds `s` unchanged. A rejected `s` comes back inside the
    /// error text.
    pub fn parse(s: String) -> (r: Result<SubscriberName, String>)
        ensures
            r is Ok <==> passes_generic_checks(s@),
            r matches Ok(name) ==> name@ == s@,
            r matches Err(msg) ==> msg@ == invalid_name_message(s@),
            (forall|i: int| 0 <= i < s@.len() ==> is_white_space(#[trigger] s@[i])) ==> r is Err,
            ({
                &&& s@.len() <= MAX_GRAPHEMES
                &&& exists|i: int| 0 <= i < s@.len() && !is_white_space(#[trigger] s@[i])
                &&& forall|i: int| 0 <= i < s@.len() ==> !(#[trigger] s@[i] == '/' || #[trigger] s@[i] == '(' || #[trigger] s@[i] == ')' || #[trigger] s@[i] == '"' || #[trigger] s@[i] == '<' || #[trigger] s@[i] == '>' || #[trigger] s@[i] == '\\' || #[trigger] s@[i] == '{' || #[trigger] s@[i] == '}')
            }) ==> r is Ok,
    {
        if !generic_string_checks(s.as_str()) {
            let mut msg = s;
            msg.append(" is not a valid subscriber name.");
            Err(msg)
        } else {
            Ok(SubscriberName(s))
        }
    }

    /// The name's text. Every name passes the generic checks.
    pub fn as_ref(&self) -> (r: &str)
        ensures
            r@ == self@,
            passes_generic_checks(self@),
    {
        proof {
            use_type_invariant(self);
        }
        self.0.as_str()
    }
}

/// The text, for code that asks for `AsRef<str>`: the same text as the
/// inherent [`SubscriberName::as_ref`].
impl AsRef<str> for SubscriberName {
    fn as_ref(&self) -> (r: &str)
        ensures
            r@ == self@,
            passes_generic_checks(r@),
    {
        proof {
            use_type_invariant(self);
        }
        self.0.as_str()
    }
}

} // verus!

use crate::decimal::{
    decimal, is_canonical_numeral, lemma_decimal_reads_back, numeral_value, push_decimal,
};
use crate::routes::status::{INTERNAL_SERVER_ERROR, OK, UNAUTHORIZED};
use vstd::prelude::*;
use vstd::string::StringExecFns;

verus! {

/// Makes `anyhow::Error` usable here; its contents stay opaque.
#[verifier::external_type_specification]
#[verifier::external_body]
pub struct ExAnyhowError(anyhow::Error);

/// The query string of a confirmation link.
pub struct Parameters {
    pub subscription_token: String,
}

/// Why a confirmation failed.
pub enum ConfirmError {
    /// No subscriber holds the token.
    UnknownToken,
    /// The database could not be read or written.
    UnexpectedError(anyhow::Error),
}

/// The text of [`ConfirmError::UnknownToken`].
pub open spec fn unknown_token_message() -> Seq<char> {
    "There is no subscriber associated with the provided token"@
}

/// The HTTP status that answers `e`: `401` for an unknown token, `500` for
/// anything unexpected.
pub open spec fn status_of(e: ConfirmError) -> u16 {
    match e {
        ConfirmError::UnknownToken => UNAUTHORIZED,
        ConfirmError::UnexpectedError(_) => INTERNAL_SERVER_ERROR,
    }
}

impl ConfirmError {
    /// The HTTP status that answers the error.
    pub fn status_code(&self) -> (code: u16)
        ensures
            code == status_of(*self),
    {
        match self {
            ConfirmError::UnknownToken => UNAUTHORIZED,
            ConfirmError::UnexpectedError(_) => INTERNAL_SERVER_ERROR,
        }
    }

    /// The error's text; an unexpected error shows the text of its cause.
    pub fn to_string(&self) -> (text: String)
        ensures
            self is UnknownToken ==> text@ == unknown_token_message(),
            self matches ConfirmError::UnexpectedError(e) ==> vstd::string::to_string_from_display_ensures::<anyhow::Error>(&e, text),
    {
        match self {
            ConfirmError::UnknownToken => String::from_str(
                "There is no subscriber associated with the provided token",
            ),
            ConfirmError::UnexpectedError(e) => e.to_string(),
        }
    }
}

impl From<anyhow::Error> for ConfirmError {
    fn from(e: anyhow::Error) -> (r: ConfirmError) {
        ConfirmError::UnexpectedError(e)
    }
}

impl vstd::std_specs::convert::FromSpecImpl<anyhow::Error> for ConfirmError {
    open spec fn obeys_from_spec() -> bool {
        true
    }

    open spec fn from_spec(e: anyhow::Error) -> ConfirmError {
        ConfirmError::UnexpectedError(e)
    }
}

/// `e` displays as `text`: every `String` that `to_string` can give for `e`
/// holds `text`.
pub open spec fn displays_as(e: anyhow::Error, text: Seq<char>) -> bool {
    forall|s: String| #[trigger] vstd::string::to_string_from_display_ensures::<anyhow::Error>(&e, s) ==> s@ == text
}

/// The text of an unexpected error on looking up a token's subscriber.
pub open spec fn lookup_failed_message() -> Seq<char> {
    "Unable do get token result from database"@
}

/// The text of an unexpected error on marking a subscriber as confirmed.
pub open spec fn confirmation_failed_message() -> Seq<char> {
    "Couldn't confirm subscriber"@
}

/// Calls `anyhow::Error::context`, which wraps `error` under the message
/// `context`. The new error displays exactly `context` (its `Display` is
/// that of the context). That `error` is kept as its cause is not stated:
/// an `anyhow::Error` has no view here.
#[verifier::external_body]
fn with_context(error: anyhow::Error, context: &'static str) -> (r: anyhow::Error)
    ensures
        displays_as(r, context@),
{
    error.context(context)
}

/// The decision after looking up the subscriber that holds a token: a found
/// subscriber is to be confirmed, a token that nobody holds is refused, and a
/// failed lookup is an unexpected error.
pub fn token_looked_up(lookup: Result<Option<u128>, anyhow::Error>) -> (r: Result<u128, ConfirmError>)
    ensures
        lookup matches Ok(Some(id)) ==> r == Ok::<u128, ConfirmError>(id),
        lookup matches Ok(None) ==> r matches Err(ConfirmError::UnknownToken),
        lookup is Err ==> (r matches Err(ConfirmError::UnexpectedError(e)) && displays_as(
            e,
            lookup_failed_message(),
        )),
{
    match lookup {
        Err(e) => Err(ConfirmError::UnexpectedError(
            with_context(e, "Unable do get token result from database"),
        )),
        Ok(None) => Err(ConfirmError::UnknownToken),
        Ok(Some(subscriber_id)) => Ok(subscriber_id),
    }
}

/// The decision after marking the subscriber as confirmed: `200` on
/// success, an unexpected error otherwise.
pub fn subscriber_marked_confirmed(result: Result<(), anyhow::Error>) -> (r: Result<u16, ConfirmError>)
    ensures
        result is Ok ==> r == Ok::<u16, ConfirmError>(OK),
        result is Err ==> (r matches Err(ConfirmError::UnexpectedError(e)) && displays_as(
            e,
            confirmation_failed_message(),
        )),
{
    match result {
        Err(e) => Err(ConfirmError::UnexpectedError(with_context(e, "Couldn't confirm subscriber"))),
        Ok(()) => Ok(OK),
    }
}

/// The answer to a confirmation link once the update of the subscriptions
/// has run: `200` if it ran, `500` if it failed.
pub fn confirmation_updated(update_succeeded: bool) -> (status: u16)
    ensures
        status == (if update_succeeded { OK } else { INTERNAL_SERVER_ERROR }),
{
    if update_succeeded {
        OK
    } else {
        INTERNAL_SERVER_ERROR
    }
}

/// The line reported once the confirmation update has run.
pub open spec fn rows_affected_report(rows: u64) -> Seq<char> {
    "Num affected: "@ + decimal(rows as nat)
}

/// The line that reports how many subscriptions a confirmation updated:
/// `Num affected: ` and then the count as a base-10 numeral without leading
/// zeros that reads back as the count.
pub fn rows_affected_line(rows: u64) -> (line: String)
    ensures
        line@ == rows_affected_report(rows),
        line@.subrange(0, 14) == "Num affected: "@,
        is_canonical_numeral(line@.skip(14)),
        numeral_value(line@.skip(14)) == rows,
{
    let mut line = String::from_str("Num affected: ");
    push_decimal(&mut line, rows);
    proof {
        reveal_strlit("Num affected: ");
        lemma_decimal_reads_back(rows as nat);
        assert(line@.skip(14) =~= decimal(rows as nat));
        assert(line@.subrange(0, 14) =~= "Num affected: "@);
    }
    line
}

/// Every failed confirmation is refused: a token that no subscriber holds
/// is answered `401`, anything unexpected `500`, and neither ever `200`.
pub proof fn lemma_confirmation_refusals(e: ConfirmError)
    ensures
        e is UnknownToken ==> status_of(e) == UNAUTHORIZED,
        e is UnexpectedError ==> status_of(e) == INTERNAL_SERVER_ERROR,
        status_of(e) != OK,
{
}

} // verus!

//! Domain rules over built parameter records: URL well-formedness and the
//! enumerated polling periods.  Rules run after a record is fully built and
//! every violation is collected, none is fatal by itself.

use vstd::prelude::*;

verus! {

/// The polling intervals, in seconds, that the remote API accepts.
pub open spec fn valid_period(p: u32) -> bool {
    ||| p == 15
    ||| p == 30
    ||| p == 60
    ||| p == 120
    ||| p == 300
    ||| p == 600
    ||| p == 1800
    ||| p == 3600
}

/// Whether `p` is one of the accepted polling intervals.  Any other number
/// parses fine as an integer; it is a validation failure, not a parse one.
pub fn validate_period(p: u32) -> (r: bool)
    ensures
        r == valid_period(p),
{
    p == 15 || p == 30 || p == 60 || p == 120 || p == 300 || p == 600 || p == 1800 || p == 3600
}

/// Whether a text is a well-formed absolute URL: the name of what the
/// `validator` crate answers for a string.  It depends on the text alone.
pub uninterp spec fn is_url(s: Seq<char>) -> bool;

/// Relies on `validator::ValidateUrl` for `str`: the answer is
/// `url::Url::parse(s).is_ok()`, a function of the characters alone, which
/// `is_url` names.
#[verifier::external_body]
pub fn url_is_valid(s: &str) -> (r: bool)
    ensures
        r == is_url(s@),
{
    validator::ValidateUrl::validate_url(&s)
}

/// The violations a check's parameters earn: the URL, when supplied, must
/// be a well-formed absolute URL; the period, when supplied, must be one of
/// the accepted polling intervals.  Each violation names its field.
pub open spec fn check_validation_errors(url: Option<Seq<char>>, period: Option<u32>) -> Seq<
    (Seq<char>, Seq<char>),
> {
    (match url {
        Some(u) => if !is_url(u) {
            seq![("url"@, "is not a well-formed URL"@)]
        } else {
            Seq::empty()
        },
        None => Seq::empty(),
    }) + (match period {
        Some(p) => if !valid_period(p) {
            seq![("period"@, "is not one of the accepted polling periods"@)]
        } else {
            Seq::empty()
        },
        None => Seq::empty(),
    })
}

/// One rule violation: the field it is about and the rule's description.
#[derive(Debug)]
pub struct ValidationFailure {
    pub field: String,
    pub message: String,
}

/// The expected violations match the recorded ones, field for field and
/// message for message, in order.
pub open spec fn violations_match(
    vs: Seq<ValidationFailure>,
    expected: Seq<(Seq<char>, Seq<char>)>,
) -> bool {
    &&& vs.len() == expected.len()
    &&& forall|i: int|
        0 <= i < vs.len() ==> (#[trigger] vs[i]).field@ == expected[i].0 && vs[i].message@
            == expected[i].1
}

} // verus!

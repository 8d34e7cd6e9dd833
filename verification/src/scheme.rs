use vstd::prelude::*;

verus! {

/// The user's preferred visual appearance mode, or the reason it could not be
/// determined. A fresh value is produced on every read; the type has no
/// identity and is never mutated, only replaced.
#[derive(Debug, Clone)]
pub enum PreferredColorScheme {
    Light,
    Dark,
    Unavailable(String),
}

/// The one media-query expression the library asks of the host: whether a
/// dark appearance is preferred.
pub open spec fn dark_query() -> Seq<char> {
    "(prefers-color-scheme: dark)"@
}

/// The reason returned when no graphical/windowing context exists.
pub open spec fn no_context_message() -> Seq<char> {
    "not running in a graphical/browser context: window doesn't exist"@
}

/// The reason returned when the media query succeeds but yields no
/// live-condition object.
pub open spec fn no_query_result_message() -> Seq<char> {
    "failed to determine preferred scheme"@
}

/// The reason returned when the query mechanism rejects the expression and no
/// error text can be retrieved from it.
pub open spec fn no_error_text_message() -> Seq<char> {
    "failed to determine preferred scheme and couldn't retrieve error"@
}

/// Maps the current value of the live "dark appearance preferred" condition to
/// a scheme: `true` to `Dark`, `false` to `Light`. Total, with no third case
/// and no error path.
pub fn determine_scheme(value: bool) -> (r: PreferredColorScheme)
    ensures
        r is Dark <==> value,
        r is Light <==> !value,
        !(r is Unavailable),
{
    match value {
        true => PreferredColorScheme::Dark,
        false => PreferredColorScheme::Light,
    }
}

/// How an attempt to obtain the live "dark appearance preferred" condition
/// from the host environment can fail.
pub enum SchemeQueryFailure {
    /// No graphical/windowing context is available.
    NoWindow,
    /// The query mechanism rejected the expression; carries the underlying
    /// error text when it could be retrieved.
    QueryRejected(Option<String>),
    /// The query mechanism succeeded but yielded no live-condition object.
    NoQueryResult,
}

/// Maps each failure of the host query to the `Unavailable` scheme that a read
/// reports for it, preserving the underlying error text when there is one and
/// falling back to the fixed reasons otherwise.
pub fn unavailable_scheme(failure: SchemeQueryFailure) -> (r: PreferredColorScheme)
    ensures
        r is Unavailable,
        (match failure {
            SchemeQueryFailure::NoWindow => r->0@ == no_context_message(),
            SchemeQueryFailure::QueryRejected(Some(text)) => r->0@ == text@,
            SchemeQueryFailure::QueryRejected(None) => r->0@ == no_error_text_message(),
            SchemeQueryFailure::NoQueryResult => r->0@ == no_query_result_message(),
        }),
{
    match failure {
        SchemeQueryFailure::NoWindow => PreferredColorScheme::Unavailable(
            "not running in a graphical/browser context: window doesn't exist".to_string(),
        ),
        SchemeQueryFailure::QueryRejected(Some(text)) => PreferredColorScheme::Unavailable(text),
        SchemeQueryFailure::QueryRejected(None) => PreferredColorScheme::Unavailable(
            "failed to determine preferred scheme and couldn't retrieve error".to_string(),
        ),
        SchemeQueryFailure::NoQueryResult => PreferredColorScheme::Unavailable(
            "failed to determine preferred scheme".to_string(),
        ),
    }
}

} // verus!

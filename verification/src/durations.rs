//! Human-readable durations, rendered by `humantime`.
use vstd::prelude::*;

verus! {

/// The text that `humantime::format_duration` renders for a duration of
/// `nanos` nanoseconds (such as "1m 30s" or "250ms").
pub uninterp spec fn humantime_text(nanos: u64) -> Seq<char>;

/// Renders a duration of `nanos` nanoseconds with `humantime::format_duration`.
/// Trusted: the text is what `humantime_text` names; `humantime`'s source
/// writes "0s" for the zero duration. The layout of other durations (years
/// of 365.25 days, months of 30.44 days, then days, h, m, s, ms, us, ns) is
/// left unstated.
#[verifier::external_body]
pub(crate) fn format_duration(nanos: u64) -> (s: String)
    ensures
        s@ == humantime_text(nanos),
        nanos == 0 ==> s@ == "0s"@,
{
    humantime::format_duration(std::time::Duration::from_nanos(nanos)).to_string()
}

} // verus!

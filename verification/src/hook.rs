use vstd::prelude::*;

use crate::guard::ListenerGuard;
use crate::host;
use crate::scheme::{determine_scheme, unavailable_scheme, PreferredColorScheme, SchemeQueryFailure};

verus! {

/// Retrieves (as well as listens for changes to) the user's preferred color
/// scheme (dark or light) so an application can adapt accordingly.
///
/// The read is synchronous and never blocks. Every failure of the host query
/// is reported as `Unavailable` with its reason, and leaves the latch — and
/// so the listener — untouched. On a successful read the latch is attached:
/// on the first such read this function registers the one change listener
/// that, from then on, triggers the UI runtime's re-render on every change of
/// the preference; every later read leaves it attached and skips attachment.
pub fn use_preferred_color_scheme(
    cx: &dioxus::prelude::ScopeState,
    guard: &mut ListenerGuard,
) -> (r: PreferredColorScheme)
    ensures
        r is Unavailable ==> *final(guard) == *old(guard),
        !(r is Unavailable) ==> *final(guard) == old(guard).stepped(),
        !(r is Unavailable) ==> final(guard).is_attached(),
        old(guard).is_attached() ==> final(guard).is_attached(),
{
    let window = match host::host_window() {
        Some(w) => w,
        None => {
            return unavailable_scheme(SchemeQueryFailure::NoWindow);
        },
    };

    let media_query_list = match host::match_media(&window, "(prefers-color-scheme: dark)") {
        Ok(Some(m)) => m,
        Ok(None) => {
            return unavailable_scheme(SchemeQueryFailure::NoQueryResult);
        },
        Err(e) => {
            return unavailable_scheme(SchemeQueryFailure::QueryRejected(host::error_text(&e)));
        },
    };

    if guard.try_acquire() {
        host::attach_change_listener(&media_query_list, cx);
    }

    determine_scheme(host::media_matches(&media_query_list))
}

} // verus!

use preferred_color_scheme::guard::ListenerGuard;
use preferred_color_scheme::scheme::determine_scheme;
use preferred_color_scheme::scheme::unavailable_scheme;
use preferred_color_scheme::scheme::PreferredColorScheme;
use preferred_color_scheme::scheme::SchemeQueryFailure;

#[test]
fn dark_condition_maps_to_dark() {
    assert!(matches!(determine_scheme(true), PreferredColorScheme::Dark));
}

#[test]
fn light_condition_maps_to_light() {
    assert!(matches!(determine_scheme(false), PreferredColorScheme::Light));
}

#[test]
fn mapping_is_total_and_never_unavailable() {
    for value in [true, false] {
        assert!(!matches!(
            determine_scheme(value),
            PreferredColorScheme::Unavailable(_)
        ));
    }
}

#[test]
fn repeated_reads_attach_listener_exactly_once() {
    let mut guard = ListenerGuard::new();
    let mut attachments: usize = 0;
    for _ in 0..5 {
        if guard.try_acquire() {
            attachments += 1;
        }
    }
    assert_eq!(attachments, 1);
}

#[test]
fn first_acquisition_is_granted_and_later_ones_are_not() {
    let mut guard = ListenerGuard::new();
    assert!(guard.try_acquire());
    assert!(!guard.try_acquire());
    assert!(!guard.try_acquire());
}

#[test]
fn missing_window_reports_missing_context() {
    let scheme = unavailable_scheme(SchemeQueryFailure::NoWindow);
    assert!(matches!(
        scheme,
        PreferredColorScheme::Unavailable(reason)
            if reason == "not running in a graphical/browser context: window doesn't exist"
    ));
}

#[test]
fn rejected_query_preserves_the_error_text() {
    let scheme = unavailable_scheme(SchemeQueryFailure::QueryRejected(Some(
        "bad expression".to_string(),
    )));
    assert!(matches!(
        scheme,
        PreferredColorScheme::Unavailable(reason) if reason == "bad expression"
    ));
}

#[test]
fn rejected_query_without_text_reports_the_fallback() {
    let scheme = unavailable_scheme(SchemeQueryFailure::QueryRejected(None));
    assert!(matches!(
        scheme,
        PreferredColorScheme::Unavailable(reason)
            if reason == "failed to determine preferred scheme and couldn't retrieve error"
    ));
}

#[test]
fn query_without_result_object_reports_undetermined_scheme() {
    let scheme = unavailable_scheme(SchemeQueryFailure::NoQueryResult);
    assert!(matches!(
        scheme,
        PreferredColorScheme::Unavailable(reason) if reason == "failed to determine preferred scheme"
    ));
}

#[test]
fn a_read_after_the_condition_flips_reports_the_new_scheme() {
    let mut guard = ListenerGuard::new();

    // First render pass: the condition reports true, the listener is attached.
    let mut condition = true;
    let attach_now = guard.try_acquire();
    assert!(attach_now);
    assert!(matches!(determine_scheme(condition), PreferredColorScheme::Dark));

    // The environment flips the condition and invokes the change callback,
    // which schedules another render pass; that pass reads again.
    condition = false;
    assert!(!guard.try_acquire());
    assert!(matches!(determine_scheme(condition), PreferredColorScheme::Light));
}

use vstd::prelude::*;

verus! {

/// `wasm_bindgen::JsValue`: the host environment's untyped value, here only
/// the error value a rejected media query hands back. Opaque to the library.
#[verifier::external_type_specification]
#[verifier::external_body]
pub struct ExJsValue(wasm_bindgen::JsValue);

/// `web_sys::Window`: the host's graphical/windowing context. Opaque to the
/// library; only [`match_media`] is asked of it.
#[verifier::external_type_specification]
#[verifier::external_body]
pub struct ExWindow(web_sys::Window);

/// `web_sys::MediaQueryList`: the host's live-condition object for a media
/// query. Opaque to the library; it is read by [`media_matches`] and observed
/// by [`attach_change_listener`].
#[verifier::external_type_specification]
#[verifier::external_body]
pub struct ExMediaQueryList(web_sys::MediaQueryList);

/// `dioxus::prelude::ScopeState`: the UI runtime's handle for the component
/// being rendered, through which a re-render can be scheduled.
#[verifier::external_type_specification]
#[verifier::external_body]
pub struct ExScopeState(dioxus::prelude::ScopeState);

/// Relies on `web_sys::window`: yields the host's windowing context when the
/// process runs in one, and `None` otherwise. Which of the two comes back
/// depends on the environment alone, so nothing more is promised of it.
#[verifier::external_body]
pub(crate) fn host_window() -> Option<web_sys::Window> {
    web_sys::window()
}

/// Relies on `web_sys::Window::match_media`: evaluates a live media-query
/// condition. On success it yields a handle to the live-condition object, or
/// `Ok(None)` when the host produces none; when the host rejects the query it
/// yields the host's error value. The outcome depends on the environment, so
/// nothing more is promised of it; the caller is held to asking the one
/// expression of the library, the dark-appearance preference.
#[verifier::external_body]
pub(crate) fn match_media(window: &web_sys::Window, query: &str) -> Result<
    Option<web_sys::MediaQueryList>,
    wasm_bindgen::JsValue,
>
    requires
        query@ == crate::scheme::dark_query(),
{
    window.match_media(query)
}

/// Relies on `wasm_bindgen::JsValue::as_string`: the value's text when it is
/// a string, and `None` otherwise.
#[verifier::external_body]
pub(crate) fn error_text(error: &wasm_bindgen::JsValue) -> Option<String> {
    error.as_string()
}

/// Relies on `web_sys::MediaQueryList::matches`: the live condition's current
/// boolean value at the instant of the call. The value follows the user's
/// preference and may differ between two calls, so nothing is promised of it.
#[verifier::external_body]
pub(crate) fn media_matches(list: &web_sys::MediaQueryList) -> bool {
    list.matches()
}

/// Relies on `dioxus::prelude::ScopeState::schedule_update`,
/// `wasm_bindgen::prelude::Closure` and
/// `web_sys::MediaQueryList::set_onchange`: registers, as the condition's
/// change callback, a closure that calls the UI runtime's re-render trigger
/// with no arguments. The closure is deliberately leaked (`Closure::forget`):
/// the host may invoke the callback at any future time, so it must stay valid
/// for the rest of the process.
#[verifier::external_body]
pub(crate) fn attach_change_listener(
    list: &web_sys::MediaQueryList,
    cx: &dioxus::prelude::ScopeState,
) {
    let update_callback = cx.schedule_update();
    let listener = wasm_bindgen::prelude::Closure::wrap(Box::new(move || {
        update_callback();
    }) as Box<dyn Fn()>);
    let cb = listener.as_ref().clone();
    listener.forget();
    list.set_onchange(Some(wasm_bindgen::JsCast::unchecked_ref(&cb)));
}

} // verus!

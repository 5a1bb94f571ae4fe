use vstd::prelude::*;

use wasm_bindgen::JsCast;
use wasm_bindgen::JsValue;
use web_sys::{DomException, Event, EventTarget, IdbRequest};

verus! {

#[verifier::external_type_specification]
#[verifier::external_body]
pub struct ExJsValue(JsValue);

#[verifier::external_type_specification]
#[verifier::external_body]
pub struct ExEvent(Event);

#[verifier::external_type_specification]
#[verifier::external_body]
pub struct ExEventTarget(EventTarget);

#[verifier::external_type_specification]
#[verifier::external_body]
pub struct ExIdbRequest(IdbRequest);

#[verifier::external_type_specification]
#[verifier::external_body]
pub struct ExIdbCursor(web_sys::IdbCursor);

#[verifier::external_type_specification]
#[verifier::external_body]
pub struct ExDomException(DomException);

/// Relies on web_sys::Event::target: the object the event was dispatched to,
/// if any.
#[verifier::external_body]
fn event_target(evt: &Event) -> Option<EventTarget> {
    evt.target()
}

/// Relies on wasm_bindgen's JsCast::unchecked_into: views the target of an
/// error event as the request that raised it, without a check.
#[verifier::external_body]
fn target_as_request(target: EventTarget) -> IdbRequest {
    target.unchecked_into()
}

/// Relies on web_sys::IdbRequest::error: the request's error, if it has one;
/// `Err` where the platform throws because the request is not done.
#[verifier::external_body]
fn request_error(req: &IdbRequest) -> Result<Option<DomException>, JsValue> {
    req.error()
}

/// Whether a JS value is `null`; this depends on the value alone.
pub uninterp spec fn js_null(v: JsValue) -> bool;

/// Relies on wasm_bindgen::JsValue::is_null: whether the value is JS `null`.
#[verifier::external_body]
fn js_is_null(v: &JsValue) -> (r: bool)
    ensures
        r == js_null(*v),
{
    v.is_null()
}

/// Relies on wasm_bindgen's JsCast::unchecked_into: views a request's raw
/// result as a cursor, without a check.
#[verifier::external_body]
fn js_as_cursor(v: JsValue) -> web_sys::IdbCursor {
    v.unchecked_into()
}

/// The payload that a request's error getter yields: its error if it has
/// one, and none where it has none or cannot report it yet.
pub fn payload_of<E, X>(r: Result<Option<E>, X>) -> (p: Option<E>)
    ensures
        p == match r {
            Ok(x) => x,
            Err(_) => None,
        },
{
    match r {
        Ok(payload) => payload,
        Err(_) => None,
    }
}

/// The error payload of an error event: the error of the request that the
/// event was dispatched to. An event with no target, a request with no error,
/// or one that cannot report its error yet gives none, and such an event is
/// then ignored.
pub fn error_payload(evt: &Event) -> Option<DomException> {
    match event_target(evt) {
        None => None,
        Some(target) => {
            let req = target_as_request(target);
            payload_of(request_error(&req))
        },
    }
}

/// The raw value a cursor request settled with: `None` for JS `null`, the
/// platform's sentinel for an exhausted cursor, else the cursor.
pub fn raw_cursor(v: JsValue) -> (r: Option<web_sys::IdbCursor>)
    ensures
        r is None <==> js_null(v),
{
    if js_is_null(&v) {
        None
    } else {
        Some(js_as_cursor(v))
    }
}

} // verus!

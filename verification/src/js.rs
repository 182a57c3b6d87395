//! The JavaScript values that the host hands over, and the few calls into
//! the host that the library makes. What the host answers depends on the
//! page the module runs in, so these calls promise nothing about their
//! results; the verified code states what it does with every answer.
use vstd::prelude::*;
use wasm_bindgen::JsCast;

verus! {

/// A value living on the JavaScript side, held by handle.
#[verifier::external_type_specification]
#[verifier::external_body]
pub struct ExJsValue(wasm_bindgen::JsValue);

/// A JavaScript exception, as thrown by the host.
#[verifier::external_type_specification]
#[verifier::external_body]
pub struct ExJsError(js_sys::Error);

/// `js_sys::global`: the host's global object. Nothing is promised of it.
#[verifier::external_body]
pub(crate) fn js_global() -> wasm_bindgen::JsValue {
    js_sys::global().into()
}

/// `JsValue::from_str`: a JavaScript string holding `s`.
#[verifier::external_body]
pub(crate) fn js_string(s: &str) -> wasm_bindgen::JsValue {
    wasm_bindgen::JsValue::from_str(s)
}

/// `JsValue::from(u32)`: a JavaScript number holding `n`.
#[verifier::external_body]
pub(crate) fn js_u32(n: u32) -> wasm_bindgen::JsValue {
    wasm_bindgen::JsValue::from(n)
}

/// `JsValue::from(usize)`: a JavaScript number holding `n`.
#[verifier::external_body]
pub(crate) fn js_usize(n: usize) -> wasm_bindgen::JsValue {
    wasm_bindgen::JsValue::from(n)
}

/// `js_sys::Reflect::get`: reads property `key` of `target`; the host may
/// throw. Nothing is promised of the value read.
#[verifier::external_body]
pub(crate) fn reflect_get(
    target: &wasm_bindgen::JsValue,
    key: &wasm_bindgen::JsValue,
) -> Result<wasm_bindgen::JsValue, js_sys::Error> {
    js_sys::Reflect::get(target, key).map_err(js_sys::Error::from)
}

/// `JsValue::is_undefined`: whether the value is `undefined`.
#[verifier::external_body]
pub(crate) fn is_undefined(v: &wasm_bindgen::JsValue) -> bool {
    v.is_undefined()
}

/// `JsValue::is_truthy`: JavaScript truthiness of the value.
#[verifier::external_body]
pub(crate) fn is_truthy(v: &wasm_bindgen::JsValue) -> bool {
    v.is_truthy()
}

/// `js_sys::Function::call1`: calls `f` with `this` bound and one argument;
/// the host may throw. Nothing is promised of what the call returns.
#[verifier::external_body]
pub(crate) fn call1(
    f: &wasm_bindgen::JsValue,
    this: &wasm_bindgen::JsValue,
    arg: &wasm_bindgen::JsValue,
) -> Result<wasm_bindgen::JsValue, js_sys::Error> {
    f.unchecked_ref::<js_sys::Function>().call1(this, arg).map_err(js_sys::Error::from)
}

/// `js_sys::Uint8Array::from(&[u8])`: a JavaScript byte array holding a copy
/// of `bytes`.
#[verifier::external_body]
pub(crate) fn uint8_array_from(bytes: &[u8]) -> wasm_bindgen::JsValue {
    js_sys::Uint8Array::from(bytes).into()
}

/// `js_sys::Uint8Array::to_vec`, on a value that is a JavaScript byte
/// array (checked with `dyn_ref`): its bytes; nothing for any other value.
/// What the array holds is up to the host, so nothing more is promised.
#[verifier::external_body]
pub(crate) fn uint8_array_bytes(v: &wasm_bindgen::JsValue) -> Option<Vec<u8>> {
    match v.dyn_ref::<js_sys::Uint8Array>() {
        Some(a) => Some(a.to_vec()),
        None => None,
    }
}

/// `web_sys::console::error_2`: writes `label` and `e` to the host's
/// console.
#[verifier::external_body]
pub(crate) fn console_error(label: &str, e: &js_sys::Error) {
    web_sys::console::error_2(&wasm_bindgen::JsValue::from_str(label), e)
}

/// `r` is what reading property `key` of `target` answered: the key is
/// made a JavaScript string, which `Reflect::get` then reads.
pub open(crate) spec fn property_read(
    target: wasm_bindgen::JsValue,
    key: Seq<char>,
    r: Result<wasm_bindgen::JsValue, js_sys::Error>,
) -> bool {
    exists|k: &str, kv: wasm_bindgen::JsValue|
        k@ == key && #[trigger] call_ensures(js_string, (k,), kv) && #[trigger] call_ensures(
            reflect_get,
            (&target, &kv),
            r,
        )
}

/// Reads property `key` of `target`.
pub(crate) fn read_property(target: &wasm_bindgen::JsValue, key: &str) -> (r: Result<
    wasm_bindgen::JsValue,
    js_sys::Error,
>)
    ensures
        property_read(*target, key@, r),
{
    let kv = js_string(key);
    reflect_get(target, &kv)
}

} // verus!

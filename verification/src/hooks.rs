//! Hooks that the JavaScript host installs to follow file-system activity.
//!
//! The host publishes an object under the global name `fs_hook`. A hook
//! call looks up a method on it and calls it; a missing object or a missing
//! method counts as a hook that answered `false`, and a value the host
//! throws is passed on. The `populate` handler is one-shot: it is
//! dispatched the first time the directory is listed or a file in it is
//! opened, and never again; a failed dispatch is reported on the console.
use vstd::prelude::*;
use crate::js::{
    call1, console_error, is_truthy, is_undefined, js_global, js_u32, property_read, read_property, reflect_get,
};

verus! {

/// The hooks attached to one directory.
#[derive(Debug, Clone)]
pub struct Hooks {
    /// Handler number of the one-shot `populate` hook, while it has not fired.
    pub populate: Option<u32>,
}

/// `r` is what calling method `name` of the host's hook object with `arg`
/// answers, given the host's answer at each step: the hook object is read
/// from the global object; when it is `undefined` the answer is
/// `Ok(false)`; otherwise its method `name` is read; when that is
/// `undefined` the answer is `Ok(false)`; otherwise it is called with the
/// hook object as `this` and `arg`, and the answer is the truthiness of
/// what it returned. A value thrown at any step is the answer.
pub open(crate) spec fn hook_call(name: Seq<char>, arg: wasm_bindgen::JsValue, r: Result<bool, js_sys::Error>) -> bool {
    exists|global: wasm_bindgen::JsValue, hook: Result<wasm_bindgen::JsValue, js_sys::Error>|
        #[trigger] call_ensures(js_global, (), global) && #[trigger] property_read(global, "fs_hook"@, hook)
            && match hook {
            Err(e) => r == Err::<bool, js_sys::Error>(e),
            Ok(h) => hook_found(h, name, arg, r),
        }
}

/// The rest of a hook call once the hook object `h` is found.
pub open(crate) spec fn hook_found(
    h: wasm_bindgen::JsValue,
    name: Seq<char>,
    arg: wasm_bindgen::JsValue,
    r: Result<bool, js_sys::Error>,
) -> bool {
    exists|undefined: bool|
        #[trigger] call_ensures(is_undefined, (&h,), undefined) && if undefined {
            r == Ok::<bool, js_sys::Error>(false)
        } else {
            exists|method: Result<wasm_bindgen::JsValue, js_sys::Error>|
                #[trigger] property_read(h, name, method) && match method {
                    Err(e) => r == Err::<bool, js_sys::Error>(e),
                    Ok(m) => method_found(h, m, arg, r),
                }
        }
}

/// The rest of a hook call once method `m` of the hook object `h` is found.
pub open(crate) spec fn method_found(
    h: wasm_bindgen::JsValue,
    m: wasm_bindgen::JsValue,
    arg: wasm_bindgen::JsValue,
    r: Result<bool, js_sys::Error>,
) -> bool {
    exists|undefined: bool|
        #[trigger] call_ensures(is_undefined, (&m,), undefined) && if undefined {
            r == Ok::<bool, js_sys::Error>(false)
        } else {
            exists|reply: Result<wasm_bindgen::JsValue, js_sys::Error>|
                #[trigger] call_ensures(call1, (&m, &h, &arg), reply) && match reply {
                    Err(e) => r == Err::<bool, js_sys::Error>(e),
                    Ok(v) => exists|t: bool| #[trigger] call_ensures(is_truthy, (&v,), t) && r == Ok::<bool, js_sys::Error>(t),
                }
        }
}

/// `r` is what dispatching handler `handler` answers: a hook call of
/// method `dispatch` with the handler as a JavaScript number.
pub open(crate) spec fn dispatched(handler: u32, r: Result<bool, js_sys::Error>) -> bool {
    exists|arg: wasm_bindgen::JsValue|
        #[trigger] call_ensures(js_u32, (handler,), arg) && hook_call("dispatch"@, arg, r)
}

/// `e` was written to the host's console under the label `in fs_hook:`.
pub open(crate) spec fn reported(e: js_sys::Error) -> bool {
    exists|l: &str| l@ == "in fs_hook:"@ && #[trigger] call_ensures(console_error, (l, &e), ())
}

/// What one `trigger_populate` call does: the handler is consumed; a
/// pending handler is dispatched (a call of `Hooks::dispatch`) and the
/// answer is its answer with a failure dropped, the failure being reported
/// on the console; with none pending the answer is `Some(false)`.
pub open spec fn trigger_populate_post(before: Hooks, after: Hooks, answer: Option<bool>) -> bool {
    &&& after.populate is None
    &&& before.populate is None ==> answer == Some(false)
    &&& before.populate matches Some(h) ==> exists|d: Result<bool, js_sys::Error>|
        #[trigger] call_ensures(Hooks::dispatch, (h,), d) && answer == ok_value(d) && (d matches Err(e) ==> reported(e))
}

/// What one `dispatch_take` call does to its handler slot and answers: the
/// slot is emptied; a handler that was there is dispatched (a call of
/// `Hooks::dispatch`) and its answer is the answer; an empty slot answers
/// `Ok(false)`.
pub open spec fn dispatch_take_post(
    before: Option<u32>,
    after: Option<u32>,
    answer: Result<bool, js_sys::Error>,
) -> bool {
    &&& after is None
    &&& before is None ==> answer == Ok::<bool, js_sys::Error>(false)
    &&& before matches Some(h) ==> call_ensures(Hooks::dispatch, (h,), answer)
}

/// The optional form of a result: its value on success, nothing on failure.
pub open spec fn ok_value<T, E>(r: Result<T, E>) -> Option<T> {
    match r {
        Ok(v) => Some(v),
        Err(_) => None,
    }
}

impl Default for Hooks {
    fn default() -> (h: Hooks)
        ensures
            h.populate is None,
    {
        Hooks { populate: None }
    }
}

impl Hooks {
    /// Hooks with no handler installed.
    pub fn new() -> (h: Hooks)
        ensures
            h.populate is None,
    {
        Hooks::default()
    }

    /// Tells the host to run handler `handler` (see `dispatched`).
    pub fn dispatch(handler: u32) -> (r: Result<bool, js_sys::Error>)
        ensures
            dispatched(handler, r),
    {
        let arg = js_u32(handler);
        Self::call_method("dispatch", arg)
    }

    /// Dispatches the handler in `handler`, if any, and empties the slot.
    /// An empty slot answers `Ok(false)` without a call to the host.
    pub fn dispatch_take(handler: &mut Option<u32>) -> (r: Result<bool, js_sys::Error>)
        ensures
            dispatch_take_post(*old(handler), *final(handler), r),
    {
        match handler.take() {
            Some(h) => Self::dispatch(h),
            None => Ok(false),
        }
    }

    /// Hands `message` to the host's `intercept` method (see `hook_call`).
    pub fn intercept(message: wasm_bindgen::JsValue) -> (r: Result<bool, js_sys::Error>)
        ensures
            hook_call("intercept"@, message, r),
    {
        Self::call_method("intercept", message)
    }

    /// Calls method `name` of the host's `fs_hook` object with `arg`.
    fn call_method(name: &str, arg: wasm_bindgen::JsValue) -> (r: Result<bool, js_sys::Error>)
        ensures
            hook_call(name@, arg, r),
    {
        let global = js_global();
        let hook = read_property(&global, "fs_hook");
        let js_fs_hook = match hook {
            Ok(h) => h,
            Err(e) => {
                return Err(e);
            },
        };
        let hook_undefined = is_undefined(&js_fs_hook);
        if hook_undefined {
            assert(hook_found(js_fs_hook, name@, arg, Ok(false)));
            return Ok(false);
        }
        let method = read_property(&js_fs_hook, name);
        let m = match method {
            Ok(m) => m,
            Err(e) => {
                assert(hook_found(js_fs_hook, name@, arg, Err(e)));
                return Err(e);
            },
        };
        let method_undefined = is_undefined(&m);
        if method_undefined {
            assert(method_found(js_fs_hook, m, arg, Ok(false)));
            assert(hook_found(js_fs_hook, name@, arg, Ok(false)));
            return Ok(false);
        }
        let reply = call1(&m, &js_fs_hook, &arg);
        match reply {
            Ok(v) => {
                let t = is_truthy(&v);
                assert(method_found(js_fs_hook, m, arg, Ok(t)));
                assert(hook_found(js_fs_hook, name@, arg, Ok(t)));
                Ok(t)
            },
            Err(e) => {
                assert(method_found(js_fs_hook, m, arg, Err(e)));
                assert(hook_found(js_fs_hook, name@, arg, Err(e)));
                Err(e)
            },
        }
    }

    /// A hook's answer with its failure dropped; a failure is reported on
    /// the host's console.
    pub fn or_console_error<T>(r: Result<T, js_sys::Error>) -> (o: Option<T>)
        ensures
            o == ok_value(r),
            r matches Err(e) ==> reported(e),
    {
        match r {
            Ok(v) => Some(v),
            Err(e) => {
                console_error("in fs_hook:", &e);
                assert(reported(e));
                None
            },
        }
    }

    /// Fires the one-shot `populate` hook if it is still pending.
    pub fn trigger_populate(&mut self) -> (r: Option<bool>)
        ensures
            trigger_populate_post(*old(self), *final(self), r),
    {
        let d = Self::dispatch_take(&mut self.populate);
        Self::or_console_error(d)
    }
}

/// The `populate` hook fires at most once: once it has been triggered, the
/// next trigger answers `Some(false)` and leaves nothing pending.
pub proof fn lemma_populate_fires_once(
    h0: Hooks,
    h1: Hooks,
    first: Option<bool>,
    h2: Hooks,
    second: Option<bool>,
)
    requires
        trigger_populate_post(h0, h1, first),
        trigger_populate_post(h1, h2, second),
    ensures
        second == Some(false),
        h2.populate is None,
{
}

/// A taken handler slot stays empty: a second `dispatch_take` answers
/// `Ok(false)`.
pub proof fn lemma_dispatch_take_once(
    s0: Option<u32>,
    s1: Option<u32>,
    first: Result<bool, js_sys::Error>,
    s2: Option<u32>,
    second: Result<bool, js_sys::Error>,
)
    requires
        dispatch_take_post(s0, s1, first),
        dispatch_take_post(s1, s2, second),
    ensures
        second == Ok::<bool, js_sys::Error>(false),
        s2 is None,
{
}

/// Some object `h` of the host has a method `name` (read as a property),
/// and calling that method with `h` as `this` and `arg` returned a value
/// whose JavaScript truthiness is `b`.
pub open(crate) spec fn method_replied(name: Seq<char>, arg: wasm_bindgen::JsValue, b: bool) -> bool {
    exists|h: wasm_bindgen::JsValue, m: wasm_bindgen::JsValue, v: wasm_bindgen::JsValue|
        #[trigger] property_read(h, name, Ok::<wasm_bindgen::JsValue, js_sys::Error>(m))
            && #[trigger] call_ensures(call1, (&m, &h, &arg), Ok::<wasm_bindgen::JsValue, js_sys::Error>(v))
            && #[trigger] call_ensures(is_truthy, (&v,), b)
}

/// `v` is the JavaScript number made from `n`.
pub open(crate) spec fn js_number_of(n: u32, v: wasm_bindgen::JsValue) -> bool {
    call_ensures(js_u32, (n,), v)
}

/// A value the host handed over was found to be `undefined`.
pub open(crate) spec fn host_gave_undefined() -> bool {
    exists|x: wasm_bindgen::JsValue| #[trigger] call_ensures(is_undefined, (&x,), true)
}

/// The host threw `e`, when a property was read or when a method was
/// called.
pub open(crate) spec fn host_threw(e: js_sys::Error) -> bool {
    ||| exists|t: wasm_bindgen::JsValue, k: wasm_bindgen::JsValue|
        #[trigger] call_ensures(reflect_get, (&t, &k), Err::<wasm_bindgen::JsValue, js_sys::Error>(e))
    ||| exists|f: wasm_bindgen::JsValue, t: wasm_bindgen::JsValue, a: wasm_bindgen::JsValue|
        #[trigger] call_ensures(call1, (&f, &t, &a), Err::<wasm_bindgen::JsValue, js_sys::Error>(e))
}

/// What a hook call answers comes from the host: `Ok(b)` is the truthiness
/// of what the method `name` returned when called with `arg`, except that
/// `Ok(false)` also stands for a missing hook object or method; an error is
/// one the host threw.
proof fn lemma_hook_call_is_host_reply(name: Seq<char>, arg: wasm_bindgen::JsValue, r: Result<bool, js_sys::Error>)
    requires
        hook_call(name, arg, r),
    ensures
        r == Ok::<bool, js_sys::Error>(true) ==> method_replied(name, arg, true),
        r == Ok::<bool, js_sys::Error>(false) ==> method_replied(name, arg, false) || host_gave_undefined(),
        r matches Err(e) ==> host_threw(e),
{
}

/// `intercept` answers what the host's `intercept` method said of the
/// message: `Ok(true)` only when that method, called with the message,
/// returned a truthy value; `Ok(false)` only when it returned a falsy one or
/// the hook object or the method is missing (`undefined`); an error only
/// when the host threw it.
pub proof fn lemma_intercept_answers_host_reply(message: wasm_bindgen::JsValue, r: Result<bool, js_sys::Error>)
    requires
        call_ensures(Hooks::intercept, (message,), r),
    ensures
        r == Ok::<bool, js_sys::Error>(true) ==> method_replied("intercept"@, message, true),
        r == Ok::<bool, js_sys::Error>(false) ==> method_replied("intercept"@, message, false) || host_gave_undefined(),
        r matches Err(e) ==> host_threw(e),
{
    lemma_hook_call_is_host_reply("intercept"@, message, r);
}

/// `dispatch` hands the handler number to the host's `dispatch` method and
/// answers what it said: `Ok(true)` only when that method, called with the
/// number, returned a truthy value; `Ok(false)` only when it returned a
/// falsy one or the hook object or the method is missing; an error only
/// when the host threw it.
pub proof fn lemma_dispatch_answers_host_reply(handler: u32, r: Result<bool, js_sys::Error>)
    requires
        call_ensures(Hooks::dispatch, (handler,), r),
    ensures
        exists|arg: wasm_bindgen::JsValue| #[trigger] js_number_of(handler, arg) && {
            &&& r == Ok::<bool, js_sys::Error>(true) ==> method_replied("dispatch"@, arg, true)
            &&& r == Ok::<bool, js_sys::Error>(false) ==> method_replied("dispatch"@, arg, false) || host_gave_undefined()
        },
        r matches Err(e) ==> host_threw(e),
{
    let arg = choose|arg: wasm_bindgen::JsValue|
        #[trigger] call_ensures(js_u32, (handler,), arg) && hook_call("dispatch"@, arg, r);
    lemma_hook_call_is_host_reply("dispatch"@, arg, r);
    assert(js_number_of(handler, arg));
}

/// Firing the `populate` hook while handler `h` is pending consumes it,
/// dispatches `h` to the host, and answers the host's answer: `Some(b)`
/// when the dispatch answered `Ok(b)`, nothing when the host threw. So a
/// `Some(true)` answer means the host's `dispatch` method was called with
/// `h` and returned a truthy value.
pub proof fn lemma_populate_dispatches_pending(before: Hooks, after: Hooks, answer: Option<bool>, h: u32)
    requires
        trigger_populate_post(before, after, answer),
        before.populate == Some(h),
    ensures
        after.populate is None,
        exists|d: Result<bool, js_sys::Error>| #[trigger] call_ensures(Hooks::dispatch, (h,), d) && {
            &&& d matches Ok(b) ==> answer == Some(b)
            &&& d is Err ==> answer is None
        },
        answer == Some(true) ==> exists|arg: wasm_bindgen::JsValue|
            #[trigger] js_number_of(h, arg) && method_replied("dispatch"@, arg, true),
{
    let d = choose|d: Result<bool, js_sys::Error>|
        #[trigger] call_ensures(Hooks::dispatch, (h,), d) && answer == ok_value(d) && (d matches Err(e) ==> reported(e));
    lemma_dispatch_answers_host_reply(h, d);
}

} // verus!

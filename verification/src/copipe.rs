//! A pipe whose two ends are JavaScript callbacks: reading asks the host's
//! `read` method for bytes, writing hands bytes to its `write` method.
use vstd::prelude::*;
use crate::hooks::host_threw;
use crate::js::{call1, js_usize, property_read, read_property, uint8_array_bytes, uint8_array_from};

verus! {

/// Why a read or write on the pipe failed.
#[derive(Debug)]
pub enum CopipeError {
    /// The host threw.
    Js(js_sys::Error),
    /// The host answered a read with more bytes than were asked for.
    ReplyTooLong { asked: usize, got: usize },
    /// The host answered a read with something other than a byte array.
    NotBytes,
}

/// `r` is what asking the host for `len` bytes answers: the host's `read`
/// method is read from `hook` and called with `hook` as `this` and `len` as
/// a JavaScript number; a byte array it returns gives its bytes, anything
/// else is `NotBytes`, and a value thrown at any step is the answer.
pub open(crate) spec fn requested(hook: wasm_bindgen::JsValue, len: usize, r: Result<Vec<u8>, CopipeError>) -> bool {
    exists|f: Result<wasm_bindgen::JsValue, js_sys::Error>|
        #[trigger] property_read(hook, "read"@, f) && match f {
            Err(e) => r == Err::<Vec<u8>, CopipeError>(CopipeError::Js(e)),
            Ok(func) => exists|arg: wasm_bindgen::JsValue, reply: Result<wasm_bindgen::JsValue, js_sys::Error>|
                #[trigger] call_ensures(js_usize, (len,), arg) && #[trigger] call_ensures(call1, (&func, &hook, &arg), reply)
                    && match reply {
                    Err(e) => r == Err::<Vec<u8>, CopipeError>(CopipeError::Js(e)),
                    Ok(v) => exists|bytes: Option<Vec<u8>>|
                        #[trigger] call_ensures(uint8_array_bytes, (&v,), bytes) && match bytes {
                            None => r == Err::<Vec<u8>, CopipeError>(CopipeError::NotBytes),
                            Some(b) => r == Ok::<Vec<u8>, CopipeError>(b),
                        },
                },
        }
}

/// `r` is what handing `bytes` to the host answers: the host's `write`
/// method is read from `hook` and called with `hook` as `this` and a
/// JavaScript byte array holding `bytes`; the answer is the number of
/// bytes, or a value thrown at any step.
pub open(crate) spec fn written(hook: wasm_bindgen::JsValue, bytes: Seq<u8>, r: Result<usize, js_sys::Error>) -> bool {
    exists|f: Result<wasm_bindgen::JsValue, js_sys::Error>|
        #[trigger] property_read(hook, "write"@, f) && match f {
            Err(e) => r == Err::<usize, js_sys::Error>(e),
            Ok(func) => exists|s: &[u8], arr: wasm_bindgen::JsValue, reply: Result<wasm_bindgen::JsValue, js_sys::Error>|
                s@ == bytes && #[trigger] call_ensures(uint8_array_from, (s,), arr) && #[trigger] call_ensures(
                    call1,
                    (&func, &hook, &arr),
                    reply,
                ) && match reply {
                    Err(e) => r == Err::<usize, js_sys::Error>(e),
                    Ok(_) => r == Ok::<usize, js_sys::Error>(bytes.len() as usize),
                },
        }
}

/// What one `read` on a pipe served by `hook` does, with the buffer holding
/// `before` and then `after`: the host is asked for `before.len()` bytes;
/// a reply that fits is copied to the front of the buffer and its length is
/// the answer; a longer reply is refused with both lengths; a failed
/// request is the answer; in both failures the buffer is left as it was.
pub open spec fn read_post(hook: wasm_bindgen::JsValue, before: Seq<u8>, after: Seq<u8>, r: Result<usize, CopipeError>) -> bool {
    match r {
        Ok(n) => exists|reply: Vec<u8>|
            #[trigger] requested(hook, before.len() as usize, Ok(reply)) && n == reply@.len()
                && n <= before.len() && after == reply@ + before.skip(n as int),
        Err(CopipeError::ReplyTooLong { asked, got }) => exists|reply: Vec<u8>|
            #[trigger] requested(hook, before.len() as usize, Ok(reply)) && got == reply@.len()
                && asked == before.len() && got > asked && after == before,
        Err(e) => requested(hook, before.len() as usize, Err(e)) && after == before,
    }
}

/// A pipe served by the host object `hook`.
#[derive(Debug)]
pub struct Copipe {
    pub hook: wasm_bindgen::JsValue,
}

/// Copies `reply` to the front of `buf`, leaving the rest of `buf` as it
/// was, and answers how many bytes were copied.
pub fn copy_reply(buf: &mut [u8], reply: &[u8]) -> (n: usize)
    requires
        reply@.len() <= old(buf)@.len(),
    ensures
        n == reply@.len(),
        final(buf)@ == reply@ + old(buf)@.skip(reply@.len() as int),
{
    let mut i: usize = 0;
    while i < reply.len()
        invariant
            i <= reply@.len(),
            reply@.len() <= buf@.len(),
            buf@.len() == old(buf)@.len(),
            forall|k: int| 0 <= k < i ==> buf@[k] == reply@[k],
            forall|k: int| i <= k < buf@.len() ==> buf@[k] == old(buf)@[k],
        decreases reply@.len() - i,
    {
        buf[i] = reply[i];
        i = i + 1;
    }
    assert(buf@ =~= reply@ + old(buf)@.skip(reply@.len() as int));
    reply.len()
}

impl Copipe {
    /// A pipe served by the host object `hook`.
    pub fn new(hook: wasm_bindgen::JsValue) -> (p: Copipe)
        ensures
            p.hook == hook,
    {
        Copipe { hook }
    }

    /// Asks the host's `read` method for at most `len` bytes and answers the
    /// bytes it returned (see `requested`).
    pub fn request(&self, len: usize) -> (r: Result<Vec<u8>, CopipeError>)
        ensures
            requested(self.hook, len, r),
    {
        let read = match read_property(&self.hook, "read") {
            Ok(f) => f,
            Err(e) => {
                return Err(CopipeError::Js(e));
            },
        };
        let asked = js_usize(len);
        let reply = match call1(&read, &self.hook, &asked) {
            Ok(v) => v,
            Err(e) => {
                return Err(CopipeError::Js(e));
            },
        };
        match uint8_array_bytes(&reply) {
            Some(b) => Ok(b),
            None => Err(CopipeError::NotBytes),
        }
    }

    /// Fills the front of `buf` with what the host's `read` method returns
    /// when asked for `buf.len()` bytes, and answers how many it returned.
    /// A reply longer than `buf` is refused and leaves `buf` as it was, as
    /// does a failed request.
    pub fn read(&self, buf: &mut [u8]) -> (r: Result<usize, CopipeError>)
        ensures
            read_post(self.hook, old(buf)@, final(buf)@, r),
    {
        let answer = self.request(buf.len());
        let reply = match answer {
            Ok(bytes) => bytes,
            Err(e) => {
                return Err(e);
            },
        };
        assert(requested(self.hook, old(buf)@.len() as usize, Ok(reply)));
        if reply.len() > buf.len() {
            return Err(CopipeError::ReplyTooLong { asked: buf.len(), got: reply.len() });
        }
        let n: usize = copy_reply(buf, reply.as_slice());
        Ok(n)
    }

    /// Hands all of `buf` to the host's `write` method and answers its
    /// length (see `written`).
    pub fn write(&self, buf: &[u8]) -> (r: Result<usize, js_sys::Error>)
        ensures
            written(self.hook, buf@, r),
    {
        let write = match read_property(&self.hook, "write") {
            Ok(f) => f,
            Err(e) => {
                return Err(e);
            },
        };
        let bytes = uint8_array_from(buf);
        match call1(&write, &self.hook, &bytes) {
            Ok(_) => Ok(buf.len()),
            Err(e) => Err(e),
        }
    }
}

/// The host's `read` method of `hook`, called with `hook` as `this` and
/// `len` as a JavaScript number, returned a byte array holding `bytes`.
pub open(crate) spec fn host_sent_bytes(hook: wasm_bindgen::JsValue, len: usize, bytes: Seq<u8>) -> bool {
    exists|f: wasm_bindgen::JsValue, arg: wasm_bindgen::JsValue, v: wasm_bindgen::JsValue, got: Vec<u8>|
        #[trigger] property_read(hook, "read"@, Ok::<wasm_bindgen::JsValue, js_sys::Error>(f))
            && #[trigger] call_ensures(js_usize, (len,), arg)
            && #[trigger] call_ensures(call1, (&f, &hook, &arg), Ok::<wasm_bindgen::JsValue, js_sys::Error>(v))
            && #[trigger] call_ensures(uint8_array_bytes, (&v,), Some(got)) && got@ == bytes
}

/// The host's `write` method of `hook`, called with `hook` as `this` and a
/// JavaScript byte array holding `bytes`, returned without throwing.
pub open(crate) spec fn host_took_bytes(hook: wasm_bindgen::JsValue, bytes: Seq<u8>) -> bool {
    exists|f: wasm_bindgen::JsValue, s: &[u8], arr: wasm_bindgen::JsValue, v: wasm_bindgen::JsValue|
        #[trigger] property_read(hook, "write"@, Ok::<wasm_bindgen::JsValue, js_sys::Error>(f)) && s@ == bytes
            && #[trigger] call_ensures(uint8_array_from, (s,), arr)
            && #[trigger] call_ensures(call1, (&f, &hook, &arr), Ok::<wasm_bindgen::JsValue, js_sys::Error>(v))
}

/// Bytes that a request answers are exactly the bytes the host's `read`
/// method returned for that request: none added, dropped or changed. So a
/// `read` that answers `Ok(n)` returned the host's `n` bytes at the front of
/// the buffer.
pub proof fn lemma_requested_bytes_are_host_bytes(hook: wasm_bindgen::JsValue, len: usize, reply: Vec<u8>)
    requires
        requested(hook, len, Ok(reply)),
    ensures
        host_sent_bytes(hook, len, reply@),
{
}

/// A request answers `Ok(b)` only when the host's `read` method, asked for
/// `len` bytes, returned a byte array holding exactly `b`; a JavaScript
/// error it answers is one the host threw.
pub proof fn lemma_request_answers_host_bytes(p: Copipe, len: usize, r: Result<Vec<u8>, CopipeError>)
    requires
        call_ensures(Copipe::request, (&p, len), r),
    ensures
        r matches Ok(b) ==> host_sent_bytes(p.hook, len, b@),
        r matches Err(CopipeError::Js(e)) ==> host_threw(e),
{
    if let Ok(b) = r {
        lemma_requested_bytes_are_host_bytes(p.hook, len, b);
    }
}

/// A write that succeeds handed all of `buf` to the host's `write` method
/// and answers `buf`'s length; an error it answers is one the host threw.
pub proof fn lemma_write_answers_length(p: Copipe, buf: &[u8], r: Result<usize, js_sys::Error>)
    requires
        call_ensures(Copipe::write, (&p, buf), r),
    ensures
        r matches Ok(n) ==> n == buf@.len(),
        r is Ok ==> host_took_bytes(p.hook, buf@),
        r matches Err(e) ==> host_threw(e),
{
    assert(buf.len() == buf@.len());
    assert(written(p.hook, buf@, r));
    if r is Ok {
        let f = choose|f: Result<wasm_bindgen::JsValue, js_sys::Error>|
            #[trigger] property_read(p.hook, "write"@, f) && match f {
                Err(e) => r == Err::<usize, js_sys::Error>(e),
                Ok(func) => exists|s: &[u8], arr: wasm_bindgen::JsValue, reply: Result<wasm_bindgen::JsValue, js_sys::Error>|
                    s@ == buf@ && #[trigger] call_ensures(uint8_array_from, (s,), arr) && #[trigger] call_ensures(
                        call1,
                        (&func, &p.hook, &arr),
                        reply,
                    ) && match reply {
                        Err(e) => r == Err::<usize, js_sys::Error>(e),
                        Ok(_) => r == Ok::<usize, js_sys::Error>(buf@.len() as usize),
                    },
            };
        let func = f->Ok_0;
        let (s, arr, reply) = choose|s: &[u8], arr: wasm_bindgen::JsValue, reply: Result<wasm_bindgen::JsValue, js_sys::Error>|
            s@ == buf@ && #[trigger] call_ensures(uint8_array_from, (s,), arr) && #[trigger] call_ensures(
                call1,
                (&func, &p.hook, &arr),
                reply,
            ) && match reply {
                Err(e) => r == Err::<usize, js_sys::Error>(e),
                Ok(_) => r == Ok::<usize, js_sys::Error>(buf@.len() as usize),
            };
        let v = reply->Ok_0;
        assert(call_ensures(call1, (&func, &p.hook, &arr), Ok::<wasm_bindgen::JsValue, js_sys::Error>(v)));
    }
}

/// A read that answers `Ok(n)` put at the front of the buffer exactly the
/// bytes the host's `read` method returned when asked for the buffer's
/// length (`n` of them, so no more than fit), and left the rest of the
/// buffer as it was.
pub proof fn lemma_read_fills_with_host_bytes(hook: wasm_bindgen::JsValue, before: Seq<u8>, after: Seq<u8>, n: usize)
    requires
        read_post(hook, before, after, Ok(n)),
    ensures
        n <= before.len(),
        after.len() == before.len(),
        host_sent_bytes(hook, before.len() as usize, after.take(n as int)),
        after.skip(n as int) == before.skip(n as int),
{
    let reply = choose|reply: Vec<u8>|
        #[trigger] requested(hook, before.len() as usize, Ok(reply)) && n == reply@.len()
            && n <= before.len() && after == reply@ + before.skip(n as int);
    lemma_requested_bytes_are_host_bytes(hook, before.len() as usize, reply);
    assert(after.take(n as int) =~= reply@);
    assert(after.skip(n as int) =~= before.skip(n as int));
}

} // verus!

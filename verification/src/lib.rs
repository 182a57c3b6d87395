//! The host side of a WASIX runtime in the browser: in-memory directories
//! that a JavaScript host can inspect and fill, hooks that the host
//! installs to be told about file-system activity, and the small decisions
//! around running a module and wiring a terminal.
//!
//! The in-memory file system and the JavaScript host are shared with code
//! outside this library, so what they answer is not a function of what they
//! are asked. Where a result comes from them, a contract says which call was
//! made and what the library did with the answer. It does so with
//! `call_ensures(f, args, r)`: Verus records this fact at every call of `f`
//! on `args` that returned `r`, so in an `ensures` it states that such a call
//! was made and answered `r`. The spec functions that gather these records
//! (`listed_at`, `dir_made`, `hook_call`, `listed_when_populated` and the
//! like) each say in their doc comment which call they stand for.
pub mod path;
pub mod js;
pub mod hooks;
pub mod fs;
pub mod directory;
pub mod copipe;
pub mod run;
pub mod tty;

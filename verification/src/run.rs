//! The decisions made when a WASIX program is started: its name and
//! whether the bytes handed over can be a module at all.
use vstd::prelude::*;

verus! {

/// Why a module could not be loaded.
#[derive(Debug, Clone, Copy, PartialEq, Eq, Structural)]
pub enum ModuleError {
    /// No bytes were handed over.
    InvalidBinary,
}

impl ModuleError {
    /// The message the host sees.
    pub fn message(&self) -> (m: &'static str)
        ensures
            m@ == "invalid WASM binary data"@,
    {
        "invalid WASM binary data"
    }
}

/// The name a program runs under: the one given, or `wasm`.
pub fn program_name(given: Option<String>) -> (name: String)
    ensures
        name@ == match given {
            Some(s) => s@,
            None => "wasm"@,
        },
{
    match given {
        Some(s) => s,
        None => String::from_str("wasm"),
    }
}

/// Whether `bytes` may be handed to the module loader: an empty buffer is
/// refused as an invalid binary, anything else goes on to the loader.
pub fn check_module_bytes(bytes: &[u8]) -> (r: Result<(), ModuleError>)
    ensures
        r is Ok <==> bytes@.len() > 0,
        r matches Err(e) ==> e == ModuleError::InvalidBinary,
{
    if bytes.len() == 0 {
        Err(ModuleError::InvalidBinary)
    } else {
        Ok(())
    }
}

} // verus!

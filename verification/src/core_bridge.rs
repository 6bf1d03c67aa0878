//! Bridge to the crypto core: when one is built, and how failures are reported.

use vstd::prelude::*;
use vstd::string::*;

use crate::error::EngineError;

verus! {

/// Why a crypto core could not be built.
#[derive(Debug)]
pub enum CoreFault {
    /// The key blob could not be decoded.
    Decode(String),
    /// The keys were rejected.
    Client(String),
}

/// Whether a key blob holds keys; it is empty on a fresh install.
pub fn has_keys(keys_cfe_data: &[u8]) -> (b: bool)
    ensures
        b == (keys_cfe_data@.len() > 0),
{
    keys_cfe_data.len() > 0
}

/// The core that was built from a key blob: none when the blob is empty, in which case `built`
/// is not looked at; an error when building failed.
pub fn build_core<C>(keys_cfe_data: &[u8], built: Result<C, CoreFault>) -> (r: Result<
    Option<C>,
    EngineError,
>)
    ensures
        if keys_cfe_data@.len() == 0 {
            r matches Ok(None)
        } else {
            match built {
                Ok(core) => r == Ok::<Option<C>, EngineError>(Some(core)),
                Err(CoreFault::Decode(cause)) => r matches Err(EngineError::Crypto { message })
                    && message@ == "decode private keys: "@ + cause@,
                Err(CoreFault::Client(cause)) => r matches Err(EngineError::Crypto { message })
                    && message@ == "build crypto client: "@ + cause@,
            }
        },
{
    if !has_keys(keys_cfe_data) {
        return Ok(None);
    }
    match built {
        Ok(core) => Ok(Some(core)),
        Err(CoreFault::Decode(cause)) => {
            let text = String::from_str("decode private keys: ").concat(cause.as_str());
            Err(EngineError::crypto(text.as_str()))
        },
        Err(CoreFault::Client(cause)) => {
            let text = String::from_str("build crypto client: ").concat(cause.as_str());
            Err(EngineError::crypto(text.as_str()))
        },
    }
}

} // verus!

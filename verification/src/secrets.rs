//! What is kept in the system keyring.

use crate::text::{chars_of, is_blank, trim, trim_string};
use vstd::prelude::*;

verus! {

/// The keyring service the OpenRouter key is stored under.
pub const SECRET_SERVICE_NAME: &'static str = "com.levlon.aipanel";

/// The keyring user name the OpenRouter key is stored under.
pub const OPENROUTER_SECRET_USERNAME: &'static str = "openrouter_api_key";

/// What saving the OpenRouter API key writes to the keyring: the trimmed key,
/// or `None` when it is blank, in which case the stored key is removed.
pub fn openrouter_key_to_store(api_key: &str) -> (r: Option<String>)
    ensures
        match r {
            Some(k) => !is_blank(api_key@) && k@ == trim(api_key@),
            None => is_blank(api_key@),
        },
{
    let key = trim_string(api_key);
    let kv = chars_of(key.as_str());
    if kv.len() == 0 {
        None
    } else {
        Some(key)
    }
}

} // verus!

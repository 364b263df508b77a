//! The configuration state: the stored service key. Reading and
//! writing the configuration file, and any environment fallback, are
//! the surrounding tool's business; this type only holds the value.

use vstd::prelude::*;

verus! {

/// The persisted configuration: the service key, if one is stored.
pub struct Config {
    pub api_key: Option<String>,
}

impl Default for Config {
    /// A configuration with no key stored.
    fn default() -> (r: Self)
        ensures
            r.api_key is None,
    {
        Config { api_key: None }
    }
}

impl Config {
    /// Store `api_key` as the key.
    pub fn set_api_key(&mut self, api_key: String)
        ensures
            final(self).api_key == Some(api_key),
    {
        self.api_key = Some(api_key);
    }

    /// The stored key, or the empty string when none is stored.
    pub fn get_api_key(&self) -> (r: String)
        ensures
            (match self.api_key {
                Some(k) => r@ == k@,
                None => r@ == Seq::<char>::empty(),
            }),
    {
        match &self.api_key {
            Some(k) => k.clone(),
            None => String::new(),
        }
    }
}

} // verus!

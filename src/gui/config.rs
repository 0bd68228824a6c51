//! The standalone uploader's settings.
use vstd::prelude::*;

verus! {

#[derive(Debug, Clone)]
pub struct Config {
    version: Option<i64>,
    vrchat_api_key: Option<String>,
}

/// The settings format that this version writes.
pub const CONFIG_VERSION: i64 = 1;

impl Config {
    pub closed spec fn spec_version(self) -> Option<i64> {
        self.version
    }

    pub closed spec fn spec_vrchat_api_key(self) -> Option<Seq<char>> {
        match self.vrchat_api_key {
            Some(k) => Some(k@),
            None => None,
        }
    }

    /// Settings with the given fields.
    pub fn with_fields(version: Option<i64>, vrchat_api_key: Option<String>) -> (c: Config)
        ensures
            c.spec_version() == version,
            c.spec_vrchat_api_key() == match vrchat_api_key {
                Some(k) => Some(k@),
                None => None::<Seq<char>>,
            },
    {
        Config { version, vrchat_api_key }
    }

    /// What a missing settings file stands for: nothing set, no version.
    pub fn missing() -> (c: Config)
        ensures
            c.spec_version() is None,
            c.spec_vrchat_api_key() is None,
    {
        Config { version: None, vrchat_api_key: None }
    }

    /// A copy of the settings.
    pub fn duplicate(&self) -> (c: Config)
        ensures
            c.spec_version() == self.spec_version(),
            c.spec_vrchat_api_key() == self.spec_vrchat_api_key(),
    {
        let key = match &self.vrchat_api_key {
            Some(k) => Some(k.clone()),
            None => None,
        };
        Config { version: self.version, vrchat_api_key: key }
    }

    pub fn version(&self) -> (v: Option<i64>)
        ensures
            v == self.spec_version(),
    {
        self.version
    }

    pub fn get_vrchat_api_key(&self) -> (r: Option<&str>)
        ensures
            match r {
                Some(k) => self.spec_vrchat_api_key() == Some(k@),
                None => self.spec_vrchat_api_key() is None,
            },
    {
        match &self.vrchat_api_key {
            Some(k) => Some(k.as_str()),
            None => None,
        }
    }

    pub fn set_vrchat_api_key(&mut self, api_key: String)
        ensures
            final(self).spec_vrchat_api_key() == Some(api_key@),
            final(self).spec_version() == old(self).spec_version(),
    {
        self.vrchat_api_key = Some(api_key);
    }
}

impl Default for Config {
    fn default() -> (c: Config)
        ensures
            c.spec_version() == Some(CONFIG_VERSION),
            c.spec_vrchat_api_key() is None,
    {
        Config { version: Some(CONFIG_VERSION), vrchat_api_key: None }
    }
}

} // verus!

//! Web assets: each is embedded in the binary, and a development directory
//! may override it file by file.
use vstd::prelude::*;
use crate::args::{join_path, join_path_str};
use crate::text::clone_opt;

verus! {

/// One static asset.
#[derive(Debug, Clone, Copy, PartialEq, Eq)]
pub struct Asset {
    /// Path relative to the asset directory, such as `app.js`.
    pub file: &'static str,
    /// The embedded content.
    pub embedded: &'static str,
}

/// Where assets are taken from at run time.
#[derive(Debug, Clone)]
pub struct AssetSettings {
    override_dir: Option<String>,
}

impl AssetSettings {
    /// The override directory, if any.
    pub closed spec fn spec_override_dir(&self) -> Option<Seq<char>> {
        match self.override_dir {
            Some(d) => Some(d@),
            None => None,
        }
    }

    /// Embedded assets only.
    pub fn new() -> (r: Self)
        ensures
            r.spec_override_dir() is None,
    {
        AssetSettings { override_dir: None }
    }

    /// Assets read from `dir` first.
    pub fn with_override_dir(dir: &str) -> (r: Self)
        ensures
            r.spec_override_dir() == Some(dir@),
    {
        AssetSettings { override_dir: Some(dir.to_owned()) }
    }

    /// The override directory, if any.
    pub fn override_dir(&self) -> (r: Option<String>)
        ensures
            r matches Some(d) ==> self.spec_override_dir() == Some(d@),
            r is None ==> self.spec_override_dir() is None,
    {
        clone_opt(&self.override_dir)
    }

    /// The file that would override `asset`, if there is an override
    /// directory.
    pub fn override_path(&self, asset: &Asset) -> (r: Option<String>)
        ensures
            match self.spec_override_dir() {
                Some(d) => r matches Some(p) && p@ == join_path(d, asset.file@),
                None => r is None,
            },
    {
        match &self.override_dir {
            Some(d) => Some(join_path_str(d.as_str(), asset.file)),
            None => None,
        }
    }

    /// The content served for `asset`, given what reading its override file
    /// gave (nothing when there is no such file or it could not be read):
    /// the override when there is one, else the embedded content.
    pub fn resolve_with(&self, asset: &Asset, read: Option<String>) -> (r: String)
        ensures
            match (self.spec_override_dir(), read) {
                (Some(_), Some(text)) => r@ == text@,
                _ => r@ == asset.embedded@,
            },
    {
        match (&self.override_dir, read) {
            (Some(_), Some(text)) => text,
            _ => asset.embedded.to_owned(),
        }
    }
}

impl Default for AssetSettings {
    fn default() -> (r: Self)
        ensures
            r.spec_override_dir() is None,
    {
        AssetSettings::new()
    }
}

} // verus!

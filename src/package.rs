//! The entry points named in a JavaScript project's `package.json`.
use vstd::prelude::*;
use vstd::string::*;

verus! {

/// The `main` and `module` keys of `package.json`, empty when absent.
#[derive(Debug, Clone)]
pub struct Package {
    pub main: String,
    pub module: String,
}

/// Why a package has no usable entry point.
#[derive(Debug, Clone, PartialEq, Eq)]
pub enum PackageError {
    /// The `main` key is missing.
    MissingMain,
    /// The `module` key is missing.
    MissingModule,
    /// The named entry point does not exist; holds its path.
    EntryNotFound(String),
}

impl Package {
    /// The `main` entry point; `entry_exists` tells whether the file it names
    /// exists in the package directory.
    pub fn main(&self, entry_exists: bool) -> (r: Result<String, PackageError>)
        ensures
            self.main@.len() == 0 ==> r == Err::<String, PackageError>(PackageError::MissingMain),
            self.main@.len() > 0 && !entry_exists ==> (r matches Err(PackageError::EntryNotFound(p))
                && p@ == self.main@),
            self.main@.len() > 0 && entry_exists ==> (r matches Ok(p) && p@ == self.main@),
    {
        if self.main.as_str().unicode_len() == 0 {
            Err(PackageError::MissingMain)
        } else if !entry_exists {
            Err(PackageError::EntryNotFound(self.main.clone()))
        } else {
            Ok(self.main.clone())
        }
    }

    /// The `module` entry point; `entry_exists` tells whether the file it
    /// names exists in the package directory.
    pub fn module(&self, entry_exists: bool) -> (r: Result<String, PackageError>)
        ensures
            self.module@.len() == 0 ==> r == Err::<String, PackageError>(
                PackageError::MissingModule,
            ),
            self.module@.len() > 0 && !entry_exists ==> (r matches Err(
                PackageError::EntryNotFound(p),
            ) && p@ == self.module@),
            self.module@.len() > 0 && entry_exists ==> (r matches Ok(p) && p@ == self.module@),
    {
        if self.module.as_str().unicode_len() == 0 {
            Err(PackageError::MissingModule)
        } else if !entry_exists {
            Err(PackageError::EntryNotFound(self.module.clone()))
        } else {
            Ok(self.module.clone())
        }
    }
}

} // verus!

//! The directories of the command-line tool: a root, with a scratch
//! directory per namespace and the configuration file under it.
use vstd::prelude::*;
use vstd::string::*;
use crate::text::{join, join_path};

verus! {

/// The directories of the command-line tool, under one root.
pub struct Dirs {
    root_dir: String,
}

impl Dirs {
    /// The root directory, as text.
    pub closed spec fn spec_root(&self) -> Seq<char> {
        self.root_dir@
    }

    /// Directories under `root_dir`.
    pub fn new(root_dir: String) -> (r: Dirs)
        ensures
            r.spec_root() == root_dir@,
    {
        Dirs { root_dir }
    }

    /// The root directory.
    pub fn root_dir(&self) -> (r: &str)
        ensures
            r@ == self.spec_root(),
    {
        self.root_dir.as_str()
    }

    /// The scratch directory of a namespace: `<root>/tmp/<namespace>`.
    pub fn tmp_dir(&self, namespace: &str) -> (r: String)
        ensures
            r@ == join_path(join_path(self.spec_root(), "tmp"@), namespace@),
    {
        let tmp = join(self.root_dir.as_str(), "tmp");
        join(tmp.as_str(), namespace)
    }

    /// The configuration file: `<root>/config.toml`.
    pub fn config_file(&self) -> (r: String)
        ensures
            r@ == join_path(self.spec_root(), "config.toml"@),
    {
        join(self.root_dir.as_str(), "config.toml")
    }
}

} // verus!

//! The resource loader's context: the directory that resource names are
//! resolved against. It is built once and passed to whoever loads.

use vstd::prelude::*;

verus! {

/// A loader that reads from a base directory.
#[derive(Debug)]
pub struct DefaultLoader {
    base_dir: String,
}

impl DefaultLoader {
    /// The directory that names are resolved against.
    pub closed spec fn root(&self) -> Seq<char> {
        self.base_dir@
    }

    pub fn new(root_dir: String) -> (r: Self)
        ensures
            r.root() == root_dir@,
    {
        DefaultLoader { base_dir: root_dir }
    }

    /// The directory that names are resolved against.
    pub fn base_dir(&self) -> (r: &String)
        ensures
            r@ == self.root(),
    {
        &self.base_dir
    }
}

/// Builds the loader for the project at `root`.
pub fn init_loader(root: String) -> (r: DefaultLoader)
    ensures
        r.root() == root@,
{
    DefaultLoader::new(root)
}

} // verus!

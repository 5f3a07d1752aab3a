use vstd::prelude::*;

verus! {

/// A package, identified by its name within a registry.
#[derive(Debug)]
pub struct Package {
    name: String,
}

impl View for Package {
    type V = Seq<char>;

    /// A package is its name.
    closed spec fn view(&self) -> Seq<char> {
        self.name@
    }
}

impl Package {
    pub fn new(name: &str) -> (r: Package)
        ensures
            r@ == name@,
    {
        Package { name: String::from_str(name) }
    }

    pub fn name(&self) -> (r: &str)
        ensures
            r@ == self@,
    {
        self.name.as_str()
    }
}

} // verus!

//! Entries of the debloat catalog.

use vstd::prelude::*;

verus! {

/// One entry of the debloat catalog: a package identifier and what is known
/// about the package.
#[derive(Debug, PartialEq, Eq)]
pub struct Package {
    pub id: String,
    pub description: String,
}

/// What a [`Package`] is in contracts.
pub struct PackageModel {
    pub id: Seq<char>,
    pub description: Seq<char>,
}

impl DeepView for Package {
    type V = PackageModel;

    open spec fn deep_view(&self) -> PackageModel {
        PackageModel { id: self.id@, description: self.description@ }
    }
}

impl Clone for Package {
    fn clone(&self) -> (copy: Self)
        ensures
            copy == *self,
    {
        Package { id: self.id.clone(), description: self.description.clone() }
    }
}

} // verus!

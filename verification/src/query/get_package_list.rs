//! List of all packages.
//!
//! <http://pear.php.net/dtd/rest.allpackages.xsd>

use vstd::prelude::*;
use crate::context::EmptyContext;

verus! {

/// Ask for the list of all packages of the channel.
#[derive(Clone, Debug)]
pub struct GetPackageListQuery<Cx> {
    pub context: Cx,
}

/// The same query, borrowing its context.
pub type GetPackageListQueryView<'req, Cx> = GetPackageListQuery<&'req Cx>;

impl<Cx> GetPackageListQuery<Cx> {
    /// Replace the context, keeping everything else.
    pub fn set_context<NewCx>(self, new_context: NewCx) -> (r: GetPackageListQuery<NewCx>)
        ensures
            r.context == new_context,
    {
        GetPackageListQuery { context: new_context }
    }

    /// Borrow the query without giving it up.
    pub fn as_view(&self) -> (r: GetPackageListQueryView<'_, Cx>)
        ensures
            *r.context == self.context,
    {
        GetPackageListQueryView { context: &self.context }
    }
}

impl GetPackageListQuery<EmptyContext> {
    /// The query with an empty context.
    pub fn new() -> (r: Self)
        ensures
            r.context.pear_url == (),
    {
        Self { context: EmptyContext::new() }
    }
}

impl Default for GetPackageListQuery<EmptyContext> {
    fn default() -> (r: Self)
        ensures
            r.context.pear_url == (),
    {
        Self::new()
    }
}

} // verus!

//! List of all releases of a package.
//!
//! <http://pear.php.net/dtd/rest.allreleases.xsd>

use vstd::prelude::*;
use crate::context::EmptyContext;

verus! {

/// Ask for the list of all releases of one package.
#[derive(Clone, Debug)]
pub struct GetReleaseListQuery<Cx, Str = String> {
    pub context: Cx,
    pub package: Str,
}

/// The same query, borrowing its context and package name.
pub type GetReleaseListQueryView<'req, Cx, Str> = GetReleaseListQuery<&'req Cx, Str>;

impl<Cx, Str> GetReleaseListQuery<Cx, Str> {
    /// Replace the context, keeping everything else.
    pub fn set_context<NewCx>(self, new_context: NewCx) -> (r: GetReleaseListQuery<NewCx, Str>)
        ensures
            r.context == new_context,
            r.package == self.package,
    {
        GetReleaseListQuery { context: new_context, package: self.package }
    }
}

impl<Cx> GetReleaseListQuery<Cx, String> {
    /// Borrow the query without giving it up.
    pub fn as_view(&self) -> (r: GetReleaseListQueryView<'_, Cx, &str>)
        ensures
            *r.context == self.context,
            r.package@ == self.package@,
    {
        GetReleaseListQueryView { context: &self.context, package: self.package.as_str() }
    }
}

impl GetReleaseListQuery<EmptyContext> {
    /// The query with an empty context.
    pub fn new(package: String) -> (r: Self)
        ensures
            r.context.pear_url == (),
            r.package == package,
    {
        Self { context: EmptyContext::new(), package }
    }
}

} // verus!

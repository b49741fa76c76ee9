//! List of all releases of a package, including the least runtime version
//! each release asks for.
//!
//! <https://pear.php.net/dtd/rest.allreleases2.xsd>

use vstd::prelude::*;
use crate::context::EmptyContext;

verus! {

/// Ask for the extended list of all releases of one package.
#[derive(Clone, Debug)]
pub struct GetReleaseList2Query<Cx, Str = String> {
    pub context: Cx,
    pub package: Str,
}

/// The same query, borrowing its context and package name.
pub type GetReleaseList2QueryView<'req, Cx, Str> = GetReleaseList2Query<&'req Cx, Str>;

impl<Cx, Str> GetReleaseList2Query<Cx, Str> {
    /// Replace the context, keeping everything else.
    pub fn set_context<NewCx>(self, new_context: NewCx) -> (r: GetReleaseList2Query<NewCx, Str>)
        ensures
            r.context == new_context,
            r.package == self.package,
    {
        GetReleaseList2Query { context: new_context, package: self.package }
    }
}

impl<Cx> GetReleaseList2Query<Cx, String> {
    /// Borrow the query without giving it up.
    pub fn as_view(&self) -> (r: GetReleaseList2QueryView<'_, Cx, &str>)
        ensures
            *r.context == self.context,
            r.package@ == self.package@,
    {
        GetReleaseList2QueryView { context: &self.context, package: self.package.as_str() }
    }
}

impl GetReleaseList2Query<EmptyContext> {
    /// The query with an empty context.
    pub fn new(package: String) -> (r: Self)
        ensures
            r.context.pear_url == (),
            r.package == package,
    {
        Self { context: EmptyContext::new(), package }
    }
}

} // verus!

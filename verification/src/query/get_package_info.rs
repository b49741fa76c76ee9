//! General package information.
//!
//! <https://pear.php.net/dtd/rest.package.xsd>

use vstd::prelude::*;
use crate::context::EmptyContext;

verus! {

/// Ask for the general information of one package.
#[derive(Clone, Debug)]
pub struct GetPackageInfoQuery<Cx, Str = String> {
    pub context: Cx,
    pub package: Str,
}

/// The same query, borrowing its context and package name.
pub type GetPackageInfoQueryView<'req, Cx, Str> = GetPackageInfoQuery<&'req Cx, Str>;

impl<Cx, Str> GetPackageInfoQuery<Cx, Str> {
    /// Replace the context, keeping everything else.
    pub fn set_context<NewCx>(self, new_context: NewCx) -> (r: GetPackageInfoQuery<NewCx, Str>)
        ensures
            r.context == new_context,
            r.package == self.package,
    {
        GetPackageInfoQuery { context: new_context, package: self.package }
    }
}

impl<Cx> GetPackageInfoQuery<Cx, String> {
    /// Borrow the query without giving it up.
    pub fn as_view(&self) -> (r: GetPackageInfoQueryView<'_, Cx, &str>)
        ensures
            *r.context == self.context,
            r.package@ == self.package@,
    {
        GetPackageInfoQueryView { context: &self.context, package: self.package.as_str() }
    }
}

impl GetPackageInfoQuery<EmptyContext> {
    /// The query with an empty context.
    pub fn new(package: String) -> (r: Self)
        ensures
            r.context.pear_url == (),
            r.package == package,
    {
        Self { context: EmptyContext::new(), package }
    }
}

} // verus!

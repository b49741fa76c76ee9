//! Full information of one release of a package.
//!
//! <https://pear.php.net/dtd/rest.release.xsd>

use vstd::prelude::*;
use crate::context::EmptyContext;

verus! {

/// Ask for the full information of one release of one package.
#[derive(Clone, Debug)]
pub struct GetReleaseQuery<Cx, Str = String> {
    pub context: Cx,
    pub package: Str,
    pub version: Str,
}

/// The same query, borrowing its context, package name and version.
pub type GetReleaseQueryView<'req, Cx, Str> = GetReleaseQuery<&'req Cx, Str>;

impl<Cx, Str> GetReleaseQuery<Cx, Str> {
    /// Replace the context, keeping everything else.
    pub fn set_context<NewCx>(self, new_context: NewCx) -> (r: GetReleaseQuery<NewCx, Str>)
        ensures
            r.context == new_context,
            r.package == self.package,
            r.version == self.version,
    {
        GetReleaseQuery { context: new_context, package: self.package, version: self.version }
    }
}

impl<Cx> GetReleaseQuery<Cx, String> {
    /// Borrow the query without giving it up.
    pub fn as_view(&self) -> (r: GetReleaseQueryView<'_, Cx, &str>)
        ensures
            *r.context == self.context,
            r.package@ == self.package@,
            r.version@ == self.version@,
    {
        GetReleaseQueryView {
            context: &self.context,
            package: self.package.as_str(),
            version: self.version.as_str(),
        }
    }
}

impl GetReleaseQuery<EmptyContext> {
    /// The query with an empty context.
    pub fn new(package: String, version: String) -> (r: Self)
        ensures
            r.context.pear_url == (),
            r.package == package,
            r.version == version,
    {
        Self { context: EmptyContext::new(), package, version }
    }
}

} // verus!

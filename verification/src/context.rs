//! A very restricted heterogeneous context for registry client requests.

use vstd::prelude::*;

verus! {

/// The context a request is made in; `TyPearUrl` is the slot for the
/// registry channel URL.
#[derive(Clone, Debug)]
pub struct Context<TyPearUrl> {
    /// Registry channel URL.
    pub pear_url: TyPearUrl,
}

impl<TyPearUrl> Context<TyPearUrl> {
    /// Replace the channel-URL slot, keeping everything else.
    pub fn set_pear_url<NewPearUrl>(self, pear_url: NewPearUrl) -> (r: Context<NewPearUrl>)
        ensures
            r.pear_url == pear_url,
    {
        Context { pear_url }
    }
}

/// A context with nothing in it.
pub type EmptyContext = Context<()>;

impl EmptyContext {
    /// The empty context.
    pub fn new() -> (r: Self)
        ensures
            r.pear_url == (),
    {
        Context { pear_url: () }
    }
}

impl Default for EmptyContext {
    fn default() -> (r: Self)
        ensures
            r.pear_url == (),
    {
        Self::new()
    }
}

/// Borrow a part of a composite value by its type.
pub trait GetRef<T> {
    fn get_ref(&self) -> &T;
}

impl<T> GetRef<T> for Context<T> {
    fn get_ref(&self) -> &T {
        &self.pear_url
    }
}

} // verus!

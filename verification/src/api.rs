//! The routes that the features add to the HTTP side of the gateway.

use vstd::prelude::*;
use vstd::string::*;

verus! {

/// A route: its path and what serves it.
pub struct ApiRoute<R> {
    pub path: String,
    pub handler: R,
}

/// The routes in the order in which they were registered.
///
/// `R` is whatever the application mounts under a path; the registry stores
/// and hands it out and never looks inside.
pub struct ApiRegistry<R> {
    routes: Vec<ApiRoute<R>>,
}

impl<R> View for ApiRegistry<R> {
    type V = Seq<(Seq<char>, R)>;

    closed spec fn view(&self) -> Seq<(Seq<char>, R)> {
        self.routes@.map_values(|route: ApiRoute<R>| (route.path@, route.handler))
    }
}

impl<R> ApiRegistry<R> {
    /// A registry without routes.
    pub fn new() -> (r: ApiRegistry<R>)
        ensures
            r@ == Seq::<(Seq<char>, R)>::empty(),
    {
        let r = ApiRegistry { routes: Vec::new() };
        assert(r@ =~= Seq::<(Seq<char>, R)>::empty());
        r
    }

    /// Adds a route at the end. A path that is registered already is added
    /// again; which of the two then serves is up to the router that the
    /// routes are mounted on.
    pub fn register_route(&mut self, path: String, handler: R)
        ensures
            final(self)@ == old(self)@.push((path@, handler)),
    {
        self.routes.push(ApiRoute { path, handler });
        assert(self@ =~= old(self)@.push((path@, handler)));
    }

    /// The number of routes.
    pub fn len(&self) -> (r: usize)
        ensures
            r == self@.len(),
    {
        self.routes.len()
    }

    /// The route at `index` in the order of registration.
    pub fn route(&self, index: usize) -> (r: Option<&ApiRoute<R>>)
        ensures
            match r {
                Some(route) => index < self@.len() && (route.path@, route.handler)
                    == self@[index as int],
                None => index >= self@.len(),
            },
    {
        if index < self.routes.len() {
            Some(&self.routes[index])
        } else {
            None
        }
    }
}

} // verus!

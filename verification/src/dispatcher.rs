//! Choosing the handler of a request.
use vstd::prelude::*;

use crate::request::Req;
use crate::status::{ErrorKind, Status};

verus! {

/// The method and the path that a handler is registered under.
#[derive(Debug)]
pub struct Route {
    pub method: String,
    pub path: String,
}

/// What a [`Route`] says.
#[verifier::ext_equal]
pub struct RouteView {
    pub method: Seq<char>,
    pub path: Seq<char>,
}

impl View for Route {
    type V = RouteView;

    open spec fn view(&self) -> RouteView {
        RouteView { method: self.method@, path: self.path@ }
    }
}

/// The routes of a list of handlers, in the order of their registration.
pub open spec fn routes_view(routes: Seq<Route>) -> Seq<RouteView> {
    routes.map_values(|r: Route| r@)
}

/// The handler that is chosen for a method and a path, by its place in the list of handlers.
///
/// A handler takes the requests whose method and path are those that it is registered under.
/// Where a path has handlers, but none for the method, the answer is "method not allowed";
/// where it has none at all, "not found".
pub open spec fn chosen(routes: Seq<RouteView>, method: Seq<char>, path: Seq<char>) -> Result<
    int,
    Status,
> {
    if exists|i: int| 0 <= i < routes.len() && routes[i] == (RouteView { method, path }) {
        Ok(choose|i: int| 0 <= i < routes.len() && routes[i] == (RouteView { method, path }))
    } else if exists|i: int| 0 <= i < routes.len() && (#[trigger] routes[i]).path == path {
        Err(Status::MethodNotAllowed)
    } else {
        Err(Status::NotFound)
    }
}

/// Collects the handlers of a server.
#[derive(Debug)]
pub struct DispatcherBuilder {
    routes: Vec<Route>,
}

impl View for DispatcherBuilder {
    type V = Seq<RouteView>;

    closed spec fn view(&self) -> Seq<RouteView> {
        routes_view(self.routes@)
    }
}

impl DispatcherBuilder {
    /// No two handlers have the same method and path.
    pub open spec fn wf(&self) -> bool {
        self@.no_duplicates()
    }

    /// Makes a builder without handlers.
    pub fn new() -> (r: Self)
        ensures
            r.wf(),
            r@ == Seq::<RouteView>::empty(),
    {
        let r = DispatcherBuilder { routes: Vec::new() };
        assert(r@ =~= Seq::<RouteView>::empty());
        r
    }

    /// Adds a handler for a method and a path.
    ///
    /// # Errors
    ///
    /// If a handler with this method and path is there already, the answer is
    /// `ErrorKind::InvalidInput`, and nothing changes.
    pub fn register_handler(&mut self, method: &str, path: &str) -> (r: Result<(), ErrorKind>)
        requires
            old(self).wf(),
        ensures
            final(self).wf(),
            ({
                let route = RouteView { method: method@, path: path@ };
                if old(self)@.contains(route) {
                    r == Err::<(), ErrorKind>(ErrorKind::InvalidInput) && *final(self) == *old(self)
                } else {
                    r == Ok::<(), ErrorKind>(()) && final(self)@ == old(self)@.push(route)
                }
            }),
    {
        let route = Route { method: method.to_owned(), path: path.to_owned() };
        let mut i: usize = 0;
        while i < self.routes.len()
            invariant
                i <= self.routes.len(),
                *self == *old(self),
                old(self).wf(),
                route@ == (RouteView { method: method@, path: path@ }),
                forall|j: int| 0 <= j < i ==> (#[trigger] self@[j]) != route@,
            decreases self.routes.len() - i,
        {
            if self.routes[i].method == route.method && self.routes[i].path == route.path {
                assert(self@[i as int] == route@);
                return Err(ErrorKind::InvalidInput);
            }
            assert(self@[i as int] == self.routes@[i as int]@);
            i = i + 1;
        }
        self.routes.push(route);
        assert(self@ =~= old(self)@.push(route@));
        Ok(())
    }

    /// Ends the registration.
    pub fn finish(self) -> (r: Dispatcher)
        requires
            self.wf(),
        ensures
            r.wf(),
            r@ == self@,
    {
        Dispatcher { routes: self.routes }
    }
}

/// Finds the handlers of requests.
#[derive(Debug)]
pub struct Dispatcher {
    routes: Vec<Route>,
}

impl View for Dispatcher {
    type V = Seq<RouteView>;

    closed spec fn view(&self) -> Seq<RouteView> {
        routes_view(self.routes@)
    }
}

impl Clone for Dispatcher {
    fn clone(&self) -> (r: Self)
        ensures
            r@ == self@,
    {
        let mut routes: Vec<Route> = Vec::new();
        let mut i: usize = 0;
        while i < self.routes.len()
            invariant
                i <= self.routes.len(),
                routes@.len() == i,
                forall|j: int| 0 <= j < i ==> (#[trigger] routes@[j])@ == self.routes@[j]@,
            decreases self.routes.len() - i,
        {
            routes.push(
                Route {
                    method: self.routes[i].method.clone(),
                    path: self.routes[i].path.clone(),
                },
            );
            i = i + 1;
        }
        let r = Dispatcher { routes };
        assert(r@ =~= self@);
        r
    }
}

impl Dispatcher {
    /// No two handlers have the same method and path.
    pub open spec fn wf(&self) -> bool {
        self@.no_duplicates()
    }

    /// Chooses the handler of a request, by its place in the order of registration.
    ///
    /// # Errors
    ///
    /// Where no handler takes the request, the status to answer it with.
    pub fn dispatch(&self, req: &Req) -> (r: Result<usize, Status>)
        requires
            self.wf(),
        ensures
            match chosen(self@, req@.head.method, req@.path) {
                Ok(i) => r == Ok::<usize, Status>(i as usize) && 0 <= i < self@.len() && i
                    <= usize::MAX,
                Err(status) => r == Err::<usize, Status>(status),
            },
    {
        let ghost route = RouteView { method: req@.head.method, path: req@.path };
        let mut path_known: bool = false;
        let mut i: usize = 0;
        while i < self.routes.len()
            invariant
                i <= self.routes.len(),
                self.wf(),
                route == (RouteView { method: req@.head.method, path: req@.path }),
                forall|j: int| 0 <= j < i ==> (#[trigger] self@[j]) != route,
                path_known <==> exists|j: int| 0 <= j < i && (#[trigger] self@[j]).path == route.path,
            decreases self.routes.len() - i,
        {
            assert(self@[i as int] == self.routes@[i as int]@);
            if self.routes[i].path == req.path {
                path_known = true;
                if self.routes[i].method == req.head.method {
                    assert(self@[i as int] == route);
                    return Ok(i);
                }
            }
            i = i + 1;
        }
        if path_known {
            Err(Status::MethodNotAllowed)
        } else {
            Err(Status::NotFound)
        }
    }
}

} // verus!

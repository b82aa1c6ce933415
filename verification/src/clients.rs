//! The ways to log in that are switched on, and the routes that serve them.

use std::sync::Arc;
use vstd::prelude::*;

verus! {

/// The clients of the login providers. `G` is the client of Google; without one, login through
/// Google is switched off.
pub struct Clients<G> {
    google: Option<Arc<G>>,
}

/// A group of HTTP routes.
pub enum Route<G> {
    /// The route that trades a refresh token for a new access token.
    RefreshToken,
    /// The routes of the login through Google, served by its client.
    Google(Arc<G>),
}

impl<G> Clients<G> {
    /// The client of Google, if login through Google is switched on.
    pub closed spec fn spec_google(self) -> Option<G> {
        match self.google {
            Some(client) => Some(*client),
            None => None,
        }
    }

    /// The clients, by what came of making the client of Google: a failure switches the login
    /// through Google off.
    pub fn new<E>(google: Result<G, E>) -> (clients: Self)
        ensures
            clients.spec_google() == (match google {
                Ok(client) => Some(client),
                Err(_) => None,
            }),
    {
        let google = match google {
            Ok(client) => Some(Arc::new(client)),
            Err(_) => None,
        };
        Clients { google }
    }
}

impl<G> Clone for Clients<G> {
    fn clone(&self) -> (copy: Self)
        ensures
            copy.spec_google() == self.spec_google(),
    {
        let google = match &self.google {
            Some(client) => Some(Arc::clone(client)),
            None => None,
        };
        Clients { google }
    }
}

/// The routes that are served: the one for refresh tokens always, and behind it those of Google
/// where there is a client for them.
pub open spec fn served_routes<G>(google: Option<G>) -> Seq<Route<G>> {
    match google {
        Some(client) => seq![Route::RefreshToken, Route::Google(Arc::new(client))],
        None => seq![Route::RefreshToken],
    }
}

/// All the routes that are served, in the order in which they are set up.
pub fn routes<G>(clients: &Clients<G>) -> (routes: Vec<Route<G>>)
    ensures
        routes@ == served_routes(clients.spec_google()),
{
    let mut routes: Vec<Route<G>> = Vec::new();
    routes.push(Route::RefreshToken);
    if let Some(google) = &clients.google {
        routes.push(Route::Google(Arc::clone(google)));
    }
    assert(routes@ =~= served_routes(clients.spec_google()));
    routes
}

impl<G> Route<G> {
    /// The HTTP method and the path of the route for refresh tokens; the routes of Google have
    /// methods and paths of their own.
    pub fn endpoint(&self) -> (endpoint: Option<(&'static str, &'static str)>)
        ensures
            match endpoint {
                Some((method, path)) => self is RefreshToken && method@ == "POST"@ && path@
                    == "/auth/refresh"@,
                None => self is Google,
            },
    {
        match self {
            Route::RefreshToken => Some(("POST", "/auth/refresh")),
            Route::Google(_) => None,
        }
    }
}

} // verus!

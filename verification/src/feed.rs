//! What the import reads of a transit feed: its routes.

use vstd::prelude::*;

verus! {

/// The transport mode of a route.
#[derive(Debug, Clone, Copy, PartialEq, Eq)]
pub enum RouteType {
    Tramway,
    Subway,
    Rail,
    Bus,
    Ferry,
    CableCar,
    Gondola,
    Funicular,
    /// Any other mode, by the number that the feed gives it.
    Other(i16),
}

/// A route of the feed: a commercial line.
#[derive(Debug, PartialEq, Eq)]
pub struct Route {
    /// The identifier that the feed gives the route.
    pub id: String,
    pub short_name: String,
    pub long_name: String,
    pub route_type: RouteType,
}

/// A `Route` as a mathematical value.
pub struct RouteView {
    pub id: Seq<char>,
    pub short_name: Seq<char>,
    pub long_name: Seq<char>,
    pub route_type: RouteType,
}

impl View for Route {
    type V = RouteView;

    open spec fn view(&self) -> RouteView {
        RouteView {
            id: self.id@,
            short_name: self.short_name@,
            long_name: self.long_name@,
            route_type: self.route_type,
        }
    }
}

impl Clone for Route {
    fn clone(&self) -> (copy: Self)
        ensures
            copy@ == self@,
    {
        Route {
            id: self.id.clone(),
            short_name: self.short_name.clone(),
            long_name: self.long_name.clone(),
            route_type: self.route_type,
        }
    }
}

} // verus!

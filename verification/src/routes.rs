//! The route table: which page each URL path addresses.

use crate::text::str_eq;
use vstd::prelude::*;

verus! {

/// The five pages the shell can address.
#[derive(Clone, Copy, Debug, PartialEq, Eq, Structural)]
pub enum Route {
    About,
    Resume,
    Projects,
    Contact,
    NotFound,
}

/// Which page a URL path addresses; every unknown path lands on the Not
/// Found page.
pub open spec fn route_of_path(path: Seq<char>) -> Route {
    if path == "/"@ {
        Route::About
    } else if path == "/resume"@ {
        Route::Resume
    } else if path == "/projects"@ {
        Route::Projects
    } else if path == "/contact"@ {
        Route::Contact
    } else {
        Route::NotFound
    }
}

/// The canonical path of each page.
pub open spec fn path_of_route(route: Route) -> Seq<char> {
    match route {
        Route::About => "/"@,
        Route::Resume => "/resume"@,
        Route::Projects => "/projects"@,
        Route::Contact => "/contact"@,
        Route::NotFound => "/404"@,
    }
}

/// Maps a URL path to the page it addresses.
pub fn route_for_path(path: &str) -> (r: Route)
    ensures
        r == route_of_path(path@),
{
    if str_eq(path, "/") {
        Route::About
    } else if str_eq(path, "/resume") {
        Route::Resume
    } else if str_eq(path, "/projects") {
        Route::Projects
    } else if str_eq(path, "/contact") {
        Route::Contact
    } else {
        Route::NotFound
    }
}

/// The canonical path of a page, for the address bar.
pub fn route_path(route: Route) -> (r: &'static str)
    ensures
        r@ == path_of_route(route),
{
    match route {
        Route::About => "/",
        Route::Resume => "/resume",
        Route::Projects => "/projects",
        Route::Contact => "/contact",
        Route::NotFound => "/404",
    }
}

/// Law: each page's canonical path leads back to that page.
pub proof fn law_path_round_trip(route: Route)
    ensures
        route_of_path(path_of_route(route)) == route,
{
    broadcast use vstd::string::group_string_axioms;

    reveal_strlit("/");
    reveal_strlit("/resume");
    reveal_strlit("/projects");
    reveal_strlit("/contact");
    reveal_strlit("/404");
    assert("/"@.len() == 1);
    assert("/resume"@.len() == 7);
    assert("/projects"@.len() == 9);
    assert("/contact"@.len() == 8);
    assert("/404"@.len() == 4);
    assert("/contact"@[1] == 'c' && "/resume"@[1] == 'r');
}

} // verus!

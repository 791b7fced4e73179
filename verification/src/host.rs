//! Composition facts of the merchandise host: the seed it loads by default and the route crates
//! the API assembly mounts.
use vstd::prelude::*;

verus! {

/// The route crates the API assembly mounts: the backend catalog API.
pub const ROUTE_CRATE_COUNT: usize = 1;

/// The locale the default seed data is written in.
pub fn default_seed_locale() -> (r: &'static str)
    ensures
        r@ == "zh-CN"@,
{
    "zh-CN"
}

/// The seed profile loaded when none is named.
pub fn default_seed_profile() -> (r: &'static str)
    ensures
        r@ == "standard"@,
{
    "standard"
}

/// The number of route crates the API assembly mounts.
pub fn assembly_route_count() -> (r: usize)
    ensures
        r == ROUTE_CRATE_COUNT,
{
    ROUTE_CRATE_COUNT
}

} // verus!

//! The fixed set of CORS headers every response carries.

use vstd::prelude::*;

verus! {

/// Marker for the response fairing that adds CORS headers.
pub struct Cors;

impl Cors {
    /// The headers added to every response, in order.
    pub fn response_headers() -> (r: Vec<(&'static str, &'static str)>)
        ensures
            r@.len() == 4,
            r@[0].0@ == "Access-Control-Allow-Origin"@ && r@[0].1@ == "*"@,
            r@[1].0@ == "Access-Control-Allow-Methods"@ && r@[1].1@
                == "GET, POST, PUT, DELETE"@,
            r@[2].0@ == "Access-Control-Allow-Headers"@ && r@[2].1@ == "*"@,
            r@[3].0@ == "Access-Control-Allow-Credentials"@ && r@[3].1@ == "true"@,
    {
        let mut r: Vec<(&'static str, &'static str)> = Vec::new();
        r.push(("Access-Control-Allow-Origin", "*"));
        r.push(("Access-Control-Allow-Methods", "GET, POST, PUT, DELETE"));
        r.push(("Access-Control-Allow-Headers", "*"));
        r.push(("Access-Control-Allow-Credentials", "true"));
        r
    }
}

} // verus!

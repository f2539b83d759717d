pub mod buffer;
pub mod car_info;
pub mod encoder;
pub mod handshake;
pub mod lap;
pub mod parser;

use vstd::prelude::*;

verus! {

/// Greeting used by the collector's smoke check.
pub fn show_hello_world() -> (r: String)
    ensures
        r@ == "Hello World"@,
{
    "Hello World".to_owned()
}

} // verus!

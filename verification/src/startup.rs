//! The fixed listening endpoint and the line announced on standard output
//! once the listener is bound. Binding itself is network work and lives
//! outside the library; these constants are what it binds and prints.

use vstd::prelude::*;

verus! {

/// The fixed port of the listener.
pub const PORT: u16 = 3000;

/// The line printed once the listener is bound.
pub open spec fn startup_line() -> Seq<char> {
    "Server running on 0.0.0.0:3000"@
}

/// The address the listener binds: all interfaces, as four IPv4 octets, and
/// the fixed port.
pub fn bind_address() -> (r: ((u8, u8, u8, u8), u16))
    ensures
        r.0 == (0u8, 0u8, 0u8, 0u8),
        r.1 == PORT,
{
    ((0, 0, 0, 0), PORT)
}

/// The startup announcement, naming the bound address.
pub fn startup_message() -> (r: &'static str)
    ensures
        r@ == startup_line(),
{
    "Server running on 0.0.0.0:3000"
}

} // verus!

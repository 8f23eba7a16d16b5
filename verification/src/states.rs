//! Named values of the enumerations shared with the rest of the system. The raw
//! numbers stand only here.

pub mod bl;
pub mod hub4mode;
pub mod sysstate;

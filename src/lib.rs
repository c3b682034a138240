//! Sets the birth (creation) time of a file. The library holds the decisions:
//! decoding the path buffer handed over by the host, the timestamp
//! conversions and attribute records that each operating system wants, and
//! the errors reported back. The system calls themselves are made by the
//! caller, from the plain values computed here.

pub mod path;
pub mod filetime;
pub mod attrs;
pub mod error;
pub mod setter;

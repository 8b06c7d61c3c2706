//! Where a datastore is opened, and the address the engine is given for it.

use vstd::prelude::*;
use vstd::string::StringExecFns;

verus! {

/// The kind of storage a connection opens, with its address where it has one.
///
/// The strings of `File` and `TiKV` already hold their scheme prefix.
pub enum ConnectionType {
    Memory,
    File(String),
    TiKV(String),
}

/// The address under which the engine opens an in-memory datastore.
pub const MEMORY_ADDRESS: &'static str = "memory";

/// The scheme put in front of a file path.
pub const FILE_SCHEME: &'static str = "file://";

/// The scheme put in front of a TiKV endpoint.
pub const TIKV_SCHEME: &'static str = "tikv://";

/// The address string that the engine is handed for a target.
pub open spec fn address_of(t: ConnectionType) -> Seq<char> {
    match t {
        ConnectionType::Memory => MEMORY_ADDRESS@,
        ConnectionType::File(p) => p@,
        ConnectionType::TiKV(u) => u@,
    }
}

impl ConnectionType {
    /// A file-backed target for `path`.
    pub fn file(path: &str) -> (r: ConnectionType)
        ensures
            r is File,
            address_of(r) == FILE_SCHEME@ + path@,
    {
        let mut s = String::from_str(FILE_SCHEME);
        s.append(path);
        ConnectionType::File(s)
    }

    /// A TiKV-backed target for the endpoint `uri`.
    pub fn tikv(uri: &str) -> (r: ConnectionType)
        ensures
            r is TiKV,
            address_of(r) == TIKV_SCHEME@ + uri@,
    {
        let mut s = String::from_str(TIKV_SCHEME);
        s.append(uri);
        ConnectionType::TiKV(s)
    }

    /// The address that the engine opens for this target.
    pub fn address(&self) -> (r: &str)
        ensures
            r@ == address_of(*self),
    {
        match self {
            ConnectionType::Memory => MEMORY_ADDRESS,
            ConnectionType::File(p) => p.as_str(),
            ConnectionType::TiKV(u) => u.as_str(),
        }
    }
}

} // verus!

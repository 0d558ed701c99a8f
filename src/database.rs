use vstd::prelude::*;
use vstd::string::*;

verus! {

/// Most connections the pool holds at once; one, so that all access is serialised.
pub const MAX_CONNECTIONS: u32 = 1;

/// Seconds an idle connection is kept.
pub const IDLE_TIMEOUT_SECS: u64 = 300;

/// Seconds a caller waits for a connection before failing.
pub const ACQUIRE_TIMEOUT_SECS: u64 = 5;

/// Where the database lives.
pub enum DbAddress {
    /// A file at this path.
    Path(String),
    /// A fresh database in memory, gone when the process ends.
    Memory,
}

/// The SQLite connection string of an address.
pub open spec fn address_text(a: DbAddress) -> Seq<char> {
    match a {
        DbAddress::Path(p) => "sqlite://"@ + p@,
        DbAddress::Memory => "sqlite::memory:"@,
    }
}

impl DbAddress {
    /// The SQLite connection string for this address.
    pub fn to_sqlite_string(&self) -> (r: String)
        ensures
            r@ == address_text(*self),
    {
        match self {
            DbAddress::Path(path) => {
                let mut r = String::from_str("sqlite://");
                r.append(path.as_str());
                r
            },
            DbAddress::Memory => String::from_str("sqlite::memory:"),
        }
    }
}

} // verus!

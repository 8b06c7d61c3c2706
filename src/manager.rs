//! The connection manager: how a pooled connection is made, probed and judged.

use vstd::prelude::*;
use surrealdb::{Datastore, Error, Response, Session};
use crate::target::{address_of, ConnectionType};

verus! {

/// The liveness query run against a connection: it touches no data, so any
/// reply at all shows that the engine still answers. It is run in non-strict
/// mode with no bound variables.
pub const VALIDATION_QUERY: &'static str = "SELECT * FROM 1;";

/// An open datastore, paired with the session its queries run under.
pub struct Connection {
    ds: Datastore,
    ses: Session,
}

impl Connection {
    /// The datastore this connection holds.
    pub closed spec fn spec_datastore(&self) -> Datastore {
        self.ds
    }

    /// The session this connection carries.
    pub closed spec fn spec_session(&self) -> Session {
        self.ses
    }

    /// The datastore, for running queries on it.
    pub fn datastore(&self) -> (r: &Datastore)
        ensures
            *r == self.spec_datastore(),
    {
        &self.ds
    }

    /// The session that queries on this connection run under.
    pub fn session(&self) -> (r: &Session)
        ensures
            *r == self.spec_session(),
    {
        &self.ses
    }
}

/// Makes and checks connections to one datastore target, each under a copy of
/// one session. It never changes after construction.
pub struct SurrealdbConnectionManager {
    connection_type: ConnectionType,
    session: Session,
}

impl SurrealdbConnectionManager {
    /// Where this manager opens its datastores.
    pub closed spec fn spec_target(&self) -> ConnectionType {
        self.connection_type
    }

    /// The session that every connection of this manager carries.
    pub closed spec fn spec_session(&self) -> Session {
        self.session
    }

    /// The address string that the engine is handed to open a datastore.
    pub open spec fn spec_address(&self) -> Seq<char> {
        address_of(self.spec_target())
    }

    /// A manager for in-memory datastores.
    pub fn memory(session: Session) -> (r: Self)
        ensures
            r.spec_target() is Memory,
            r.spec_address() == crate::target::MEMORY_ADDRESS@,
            r.spec_session() == session,
    {
        SurrealdbConnectionManager { session, connection_type: ConnectionType::Memory }
    }

    /// A manager for datastores kept in the file at `path`.
    pub fn file(path: &str, session: Session) -> (r: Self)
        ensures
            r.spec_target() is File,
            r.spec_address() == crate::target::FILE_SCHEME@ + path@,
            r.spec_session() == session,
    {
        SurrealdbConnectionManager { session, connection_type: ConnectionType::file(path) }
    }

    /// A manager for datastores on the TiKV cluster at `uri`.
    pub fn tikv(uri: &str, session: Session) -> (r: Self)
        ensures
            r.spec_target() is TiKV,
            r.spec_address() == crate::target::TIKV_SCHEME@ + uri@,
            r.spec_session() == session,
    {
        SurrealdbConnectionManager { session, connection_type: ConnectionType::tikv(uri) }
    }

    /// The address to hand `Datastore::new` when a connection is made.
    pub fn address(&self) -> (r: &str)
        ensures
            r@ == self.spec_address(),
    {
        self.connection_type.address()
    }

    /// The session that connections of this manager carry.
    pub fn session(&self) -> (r: &Session)
        ensures
            *r == self.spec_session(),
    {
        &self.session
    }

    /// Finishes making a connection from what opening the datastore at
    /// `self.address()` gave: an opened datastore is paired with a copy of
    /// the manager's session; an engine failure is handed back unchanged and
    /// no connection is made.
    pub fn connection_from(&self, opened: Result<Datastore, Error>) -> (r: Result<Connection, Error>)
        ensures
            match opened {
                Ok(ds) => r matches Ok(c) && c.spec_datastore() == ds && c.spec_session()
                    == self.spec_session(),
                Err(e) => r == Err::<Connection, Error>(e),
            },
    {
        match opened {
            Ok(ds) => Ok(Connection { ds, ses: self.session.clone() }),
            Err(e) => Err(e),
        }
    }

    /// Judges a connection from the engine's reply to `VALIDATION_QUERY`: any
    /// reply, even an empty one, means the connection is alive; an engine
    /// failure is handed back unchanged, and the pool discards the connection.
    pub fn validation_result(&self, reply: Result<Vec<Response>, Error>) -> (r: Result<(), Error>)
        ensures
            match reply {
                Ok(_) => r is Ok,
                Err(e) => r == Err::<(), Error>(e),
            },
    {
        match reply {
            Ok(_) => Ok(()),
            Err(e) => Err(e),
        }
    }

    /// Whether a connection is known to be broken without asking the engine:
    /// never, since liveness is left to the validation query alone.
    pub fn has_broken(&self, conn: &mut Connection) -> (r: bool)
        ensures
            !r,
            *final(conn) == *old(conn),
    {
        false
    }
}

} // verus!

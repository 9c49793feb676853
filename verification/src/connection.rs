//! A client's presence in a session, as an independently owned snapshot.

use vstd::prelude::*;
use crate::engine::EngineCall;
use crate::enums::OtcError;
use crate::handle::NativeHandle;

verus! {

/// What the host read through the engine's accessors from its own copy of a
/// connection: the copy's pointer and the values behind it. The pointer is zero
/// when the engine supplied none.
#[derive(Debug)]
pub struct RawConnection {
    pub addr: usize,
    pub id: String,
    pub session_id: String,
    pub creation_time: i64,
}

/// A connection: identifier, owning session and time of creation, together with
/// the owned native copy that they were read from.
#[derive(Debug)]
pub struct Connection {
    handle: NativeHandle,
    id: String,
    session_id: String,
    creation_time: i64,
}

impl Connection {
    pub closed spec fn native(self) -> NativeHandle {
        self.handle
    }

    pub closed spec fn id(self) -> Seq<char> {
        self.id@
    }

    pub closed spec fn session_id(self) -> Seq<char> {
        self.session_id@
    }

    pub closed spec fn creation_time(self) -> i64 {
        self.creation_time
    }

    /// The snapshot holds exactly what was read, and owns the copy.
    pub open spec fn mirrors(self, raw: RawConnection) -> bool {
        &&& self.native().key() == raw.addr
        &&& self.native().owned()
        &&& self.id() == raw.id@
        &&& self.session_id() == raw.session_id@
        &&& self.creation_time() == raw.creation_time
    }

    /// Two snapshots that report the same values.
    pub open spec fn same_values(self, other: Connection) -> bool {
        &&& self.id() == other.id()
        &&& self.session_id() == other.session_id()
        &&& self.creation_time() == other.creation_time()
    }

    /// The snapshot of a copied connection. A null copy is a typed error, never
    /// a snapshot.
    pub fn try_from_raw(raw: RawConnection) -> (r: Result<Connection, OtcError>)
        ensures
            raw.addr == 0 ==> r == Err::<Connection, OtcError>(OtcError::NullError),
            raw.addr != 0 ==> r is Ok && r->Ok_0.mirrors(raw) && r->Ok_0.native().live(),
    {
        if raw.addr == 0 {
            Err(OtcError::NullError)
        } else {
            Ok(Connection::from_raw(raw))
        }
    }

    /// Turns what was read from a copied pointer into a snapshot that owns the copy.
    pub(crate) fn from_raw(raw: RawConnection) -> (c: Connection)
        ensures
            c.mirrors(raw),
    {
        Connection {
            handle: NativeHandle::wrap(raw.addr),
            id: raw.id,
            session_id: raw.session_id,
            creation_time: raw.creation_time,
        }
    }

    /// The identity key of the native copy; zero once it was given back.
    pub fn inner(&self) -> (k: usize)
        ensures
            k == self.native().key(),
    {
        self.handle.inner()
    }

    /// The unique identifier of the connection.
    pub fn get_id(&self) -> (id: String)
        ensures
            id@ == self.id(),
    {
        self.id.clone()
    }

    /// The identifier of the session that the connection belongs to.
    pub fn get_session_id(&self) -> (id: String)
        ensures
            id@ == self.session_id(),
    {
        self.session_id.clone()
    }

    /// The time at which the connection was created.
    pub fn get_creation_time(&self) -> (t: i64)
        ensures
            t == self.creation_time(),
    {
        self.creation_time
    }

    /// The request that copies the native object, which a second owner needs.
    pub fn copy_call(&self) -> (r: Result<EngineCall, OtcError>)
        ensures
            r == (if self.native().live() {
                Ok::<EngineCall, OtcError>(
                    (EngineCall::ConnectionCopy { connection: self.native().key() }),
                )
            } else {
                Err::<EngineCall, OtcError>(OtcError::NullError)
            }),
    {
        match self.handle.checked() {
            Ok(key) => Ok(EngineCall::ConnectionCopy { connection: key }),
            Err(e) => Err(e),
        }
    }

    /// A second snapshot with the same values, which owns the copy that the
    /// engine made for it. A null copy is a typed error.
    pub fn duplicate(&self, copied: usize) -> (r: Result<Connection, OtcError>)
        ensures
            copied == 0 ==> r == Err::<Connection, OtcError>(OtcError::NullError),
            copied != 0 ==> r is Ok && r->Ok_0.same_values(*self) && r->Ok_0.native().key()
                == copied && r->Ok_0.native().owned(),
    {
        match NativeHandle::adopt(copied) {
            Ok(handle) => Ok(
                Connection {
                    handle,
                    id: self.id.clone(),
                    session_id: self.session_id.clone(),
                    creation_time: self.creation_time,
                },
            ),
            Err(e) => Err(e),
        }
    }

    /// Gives the native copy back. The first call on a live snapshot returns the
    /// delete request; every later call returns nothing. The values stay readable.
    pub fn release(&mut self) -> (call: Option<EngineCall>)
        ensures
            call == (if old(self).native().live() {
                Some((EngineCall::ConnectionDelete { connection: old(self).native().key() }))
            } else {
                None::<EngineCall>
            }),
            !final(self).native().live(),
            final(self).same_values(*old(self)),
    {
        proof {
            use_type_invariant(&*self);
        }
        match self.handle.request_delete() {
            Some(addr) => Some(EngineCall::ConnectionDelete { connection: addr }),
            None => None,
        }
    }

    #[verifier::type_invariant]
    spec fn owns_its_copy(self) -> bool {
        self.handle.owned()
    }
}

/// A snapshot reproduces the values that were read: whatever the host read from
/// the copied pointer is what the getters report, for as long as the snapshot
/// lives.
pub proof fn lemma_connection_snapshot_round_trip(raw: RawConnection, c: Connection)
    requires
        c.mirrors(raw),
    ensures
        c.id() == raw.id@,
        c.session_id() == raw.session_id@,
        c.creation_time() == raw.creation_time,
        c.native().live() <==> raw.addr != 0,
{
}

} // verus!

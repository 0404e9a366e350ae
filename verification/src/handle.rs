use vstd::prelude::*;
use core::marker::PhantomData;
use crate::backend::Backend;
use crate::store::Store;

verus! {

/// A short-lived handle wrapping exactly one backend-issued read session.
///
/// Its lifetime parameter is tied, by `Store::read`, to a shared borrow of
/// the store the session came from, so the handle cannot outlive that store,
/// and any number of read handles from one store may be alive at once. The
/// handle owns the session and releases it when it goes out of scope; it
/// carries no mutation capability.
pub struct ReadHandle<'a, B: Backend> {
    session: B::ReadSession,
    store: PhantomData<&'a Store<B>>,
}

impl<'a, B: Backend> ReadHandle<'a, B> {
    /// The session this handle wraps.
    pub closed spec fn wrapped(&self) -> B::ReadSession {
        self.session
    }

    /// Wrap a backend-issued read session.
    pub fn new(session: B::ReadSession) -> (h: ReadHandle<'a, B>)
        ensures
            h.wrapped() == session,
    {
        ReadHandle { session, store: PhantomData }
    }

    /// Borrow the wrapped read session.
    pub fn session(&self) -> (r: &B::ReadSession)
        ensures
            *r == self.wrapped(),
    {
        &self.session
    }

    /// Give the handle up, releasing the wrapped session to the caller.
    pub fn into_session(self) -> (r: B::ReadSession)
        ensures
            r == self.wrapped(),
    {
        self.session
    }
}

/// A short-lived handle wrapping exactly one backend-issued write session.
///
/// Its lifetime parameter is tied, by `Store::write`, to an exclusive borrow
/// of the store the session came from: while a write handle obtained from a
/// store is alive, no further read or write handle can be obtained from that
/// store, and the handle cannot outlive it. Whether dropping the handle
/// commits or discards the underlying session is the backend's contract;
/// this layer does not override it.
pub struct WriteHandle<'a, B: Backend> {
    session: B::WriteSession,
    store: PhantomData<&'a mut Store<B>>,
}

impl<'a, B: Backend> WriteHandle<'a, B> {
    /// The session this handle wraps.
    pub closed spec fn wrapped(&self) -> B::WriteSession {
        self.session
    }

    /// Wrap a backend-issued write session.
    pub fn new(session: B::WriteSession) -> (h: WriteHandle<'a, B>)
        ensures
            h.wrapped() == session,
    {
        WriteHandle { session, store: PhantomData }
    }

    /// Borrow the wrapped write session.
    pub fn session(&self) -> (r: &B::WriteSession)
        ensures
            *r == self.wrapped(),
    {
        &self.session
    }

    /// Give the handle up, releasing the wrapped session to the caller.
    pub fn into_session(self) -> (r: B::WriteSession)
        ensures
            r == self.wrapped(),
    {
        self.session
    }
}

} // verus!

use vstd::prelude::*;
use crate::backend::Backend;
use crate::handle::ReadHandle;
use crate::handle::WriteHandle;

verus! {

/// An access layer in front of a pluggable key-value storage backend.
///
/// A `Store` owns exactly one backend instance for its whole lifetime and
/// brokers short-lived, correctly scoped access to it: `read` hands out a
/// [`ReadHandle`] under a shared borrow, `write` hands out a [`WriteHandle`]
/// under an exclusive borrow. The store itself is stateless beyond owning
/// the backend; it adds no caching, no retries and no error translation.
pub struct Store<B: Backend> {
    backend: B,
}

impl<B: Backend> Store<B> {
    /// The backend this store owns.
    pub closed spec fn backend(&self) -> B {
        self.backend
    }

    /// The store that `new` returns for a given backend, as a spec value.
    pub closed spec fn holding(backend: B) -> Store<B> {
        Store { backend }
    }

    /// Take ownership of an already-initialized backend. No validation is
    /// performed and there is no failure mode.
    pub fn new(backend: B) -> (s: Store<B>)
        ensures
            s == Store::holding(backend),
            s.backend() == backend,
    {
        Store { backend }
    }

    /// Request a read session from the backend and wrap it in a handle that
    /// borrows this store.
    ///
    /// The acquisition succeeds exactly when the backend's own read
    /// acquisition succeeds; on success the handle wraps exactly the session
    /// the backend produced, and on failure the backend's error value is
    /// handed through unchanged. Because only shared access to the store is
    /// needed, any number of read acquisitions may overlap.
    pub fn read<'a>(&'a self) -> (r: Result<ReadHandle<'a, B>, B::Error>)
        ensures
            match (r, self.backend().read_outcome()) {
                (Ok(h), Ok(session)) => h.wrapped() == session,
                (Err(e), Err(be)) => e == be,
                _ => false,
            },
    {
        match self.backend.read() {
            Ok(session) => Ok(ReadHandle::new(session)),
            Err(e) => Err(e),
        }
    }

    /// Request a write session from the backend and wrap it in a handle that
    /// borrows this store exclusively.
    ///
    /// The acquisition succeeds exactly when the backend's own write
    /// acquisition succeeds; on success the handle wraps exactly the session
    /// the backend produced, and on failure the backend's error value is
    /// handed through unchanged. The exclusive borrow serializes writers at
    /// the language level: while the returned handle is alive, no other
    /// handle can be obtained from this store.
    pub fn write<'a>(&'a mut self) -> (r: Result<WriteHandle<'a, B>, B::Error>)
        ensures
            final(self).backend() == old(self).backend().write_post(),
            match (r, old(self).backend().write_outcome()) {
                (Ok(h), Ok(session)) => h.wrapped() == session,
                (Err(e), Err(be)) => e == be,
                _ => false,
            },
    {
        match self.backend.write() {
            Ok(session) => Ok(WriteHandle::new(session)),
            Err(e) => Err(e),
        }
    }
}

/// Law: for every backend `b`, the store that `Store::new(b)` returns reads
/// with exactly `b`'s own outcome. Together with the contract of
/// `Store::read`, acquisition through the store succeeds exactly when
/// `b.read()` succeeds, wraps exactly the session `b.read()` produced, and
/// otherwise carries exactly the error value `b.read()` produced.
pub proof fn lemma_new_read_transparent<B: Backend>(b: B)
    ensures
        Store::holding(b).backend() == b,
        Store::holding(b).backend().read_outcome() == b.read_outcome(),
{
}

/// Law: for every backend `b`, the store that `Store::new(b)` returns writes
/// with exactly `b`'s own outcome. Together with the contract of
/// `Store::write`, acquisition through the store succeeds exactly when
/// `b.write()` succeeds, wraps exactly the session `b.write()` produced, and
/// otherwise carries exactly the error value `b.write()` produced.
pub proof fn lemma_new_write_transparent<B: Backend>(b: B)
    ensures
        Store::holding(b).backend() == b,
        Store::holding(b).backend().write_outcome() == b.write_outcome(),
{
}

} // verus!

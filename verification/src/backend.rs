use vstd::prelude::*;

verus! {

/// The capability interface a key-value storage backend must satisfy to sit
/// behind a [`crate::store::Store`]: acquiring a scoped read session and a
/// scoped write session. Either acquisition may fail with the backend's own
/// error value; the store in front promises to hand every outcome through
/// unchanged.
///
/// The spec functions fix, for a given backend state, which outcome each
/// acquisition has. An implementation must therefore answer deterministically
/// from its own state; what a session means (a snapshot, a transaction) is
/// entirely the backend's affair.
pub trait Backend: Sized {
    /// A backend-defined scoped read context, for example a snapshot handle.
    type ReadSession;

    /// A backend-defined scoped write context, for example a transaction.
    type WriteSession;

    /// The backend's own failure value for a session acquisition that did
    /// not succeed.
    type Error;

    /// The outcome of acquiring a read session in this backend state.
    spec fn read_outcome(&self) -> Result<Self::ReadSession, Self::Error>;

    /// The outcome of acquiring a write session in this backend state.
    spec fn write_outcome(&self) -> Result<Self::WriteSession, Self::Error>;

    /// The backend state left behind by a write-session acquisition.
    spec fn write_post(&self) -> Self;

    /// Acquire a read session. Only shared access is needed, so any number
    /// of read acquisitions may overlap.
    fn read(&self) -> (r: Result<Self::ReadSession, Self::Error>)
        ensures
            r == self.read_outcome(),
    ;

    /// Acquire a write session. Exclusive access to the backend is required
    /// for as long as the acquisition runs.
    fn write(&mut self) -> (r: Result<Self::WriteSession, Self::Error>)
        ensures
            r == old(self).write_outcome(),
            *final(self) == old(self).write_post(),
    ;
}

} // verus!

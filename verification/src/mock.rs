use vstd::prelude::*;
use crate::backend::Backend;

verus! {

/// The failure values of the in-memory test backend. The store never
/// inspects them; it promises only to hand them through unchanged.
#[derive(Clone, Copy, PartialEq, Eq, Structural, Debug)]
pub enum MockError {
    /// The backend cannot be reached at all.
    BackendUnavailable,
    /// A snapshot for a read session could not be set up.
    SnapshotFailed,
}

/// A deterministic in-memory backend for exercising the store. Its sessions
/// are plain identifiers, and each acquisition answers exactly as the
/// backend was configured at construction; acquiring a session leaves the
/// backend unchanged, so it may be asked any number of times.
pub struct MockBackend {
    read_result: Result<u64, MockError>,
    write_result: Result<u64, MockError>,
}

impl MockBackend {
    /// A backend that answers every read acquisition with `read_result` and
    /// every write acquisition with `write_result`.
    pub fn new(
        read_result: Result<u64, MockError>,
        write_result: Result<u64, MockError>,
    ) -> (b: MockBackend)
        ensures
            b.read_outcome() == read_result,
            b.write_outcome() == write_result,
            b.write_post() == b,
    {
        MockBackend { read_result, write_result }
    }
}

impl Backend for MockBackend {
    type ReadSession = u64;

    type WriteSession = u64;

    type Error = MockError;

    closed spec fn read_outcome(&self) -> Result<u64, MockError> {
        self.read_result
    }

    closed spec fn write_outcome(&self) -> Result<u64, MockError> {
        self.write_result
    }

    closed spec fn write_post(&self) -> MockBackend {
        *self
    }

    fn read(&self) -> Result<u64, MockError> {
        self.read_result
    }

    fn write(&mut self) -> Result<u64, MockError> {
        self.write_result
    }
}

} // verus!

//! The one Store handle that the clones of a scheduler context share.

use crate::store;
use crate::store::{copy_error, StoreErrorV1, StoreUnavailableReasonV1};
use vstd::prelude::*;

verus! {

/// The name of a Store slot, which no other slot of this process has.
#[derive(Clone, Copy, Debug, PartialEq, Eq, Structural)]
pub struct WorkspaceStoreSlotTokenV1 {
    pub number: u64,
}

/// Whether the Store of a slot is open, and what closing it came to.
#[derive(Debug, PartialEq, Eq)]
pub enum WorkspaceStoreStateV1<Store> {
    Open(Store),
    Closed(Result<(), StoreErrorV1>),
}

/// A Store that is closed at most once and never opened again.
pub struct WorkspaceStoreSlotV1<Store> {
    pub state: WorkspaceStoreStateV1<Store>,
    pub token: WorkspaceStoreSlotTokenV1,
}

/// Why a slot does not let its Store be used.
#[derive(Debug, PartialEq, Eq)]
pub enum StoreRefusalV1<'a> {
    /// The Store was closed.
    Closed,
    /// The Store could not be closed.
    CloseFailed(&'a StoreErrorV1),
}

/// The token after the given one, as long as there is one.
pub fn next_token(last: u64) -> (token: Option<WorkspaceStoreSlotTokenV1>)
    ensures
        match token {
            Some(token) => token.number == last + 1,
            None => last == u64::MAX,
        },
{
    match last.checked_add(1) {
        Some(number) => Some(WorkspaceStoreSlotTokenV1 { number }),
        None => None,
    }
}

/// What a mutation through a read-only facade fails with.
pub fn read_only_store_mutation_error() -> (error: StoreErrorV1)
    ensures
        error == (StoreErrorV1::StorageUnavailableV1 {
            reason: StoreUnavailableReasonV1::Recovery,
        }),
{
    StoreErrorV1::StorageUnavailableV1 { reason: StoreUnavailableReasonV1::Recovery }
}

/// Whether an error is what the use of a Store fails with that its slot does not let be used: that it
/// cannot be changed where it was closed, and what closing it failed with where it could not be.
pub open spec fn is_refusal_error(refusal: StoreRefusalV1<'_>, error: StoreErrorV1) -> bool {
    match refusal {
        StoreRefusalV1::Closed => error == (StoreErrorV1::StorageUnavailableV1 {
            reason: StoreUnavailableReasonV1::Recovery,
        }),
        StoreRefusalV1::CloseFailed(failure) => store::is_copy_of_error(error, *failure),
    }
}

/// What the use of a Store fails with that its slot does not let be used.
pub fn refusal_error(refusal: StoreRefusalV1<'_>) -> (error: StoreErrorV1)
    ensures
        is_refusal_error(refusal, error),
{
    match refusal {
        StoreRefusalV1::Closed => read_only_store_mutation_error(),
        StoreRefusalV1::CloseFailed(failure) => copy_error(failure),
    }
}

impl<Store> WorkspaceStoreSlotV1<Store> {
    /// A slot with an open Store.
    pub fn new(store: Store, token: WorkspaceStoreSlotTokenV1) -> (slot: Self)
        ensures
            slot.state == WorkspaceStoreStateV1::Open(store),
            slot.token == token,
    {
        WorkspaceStoreSlotV1 { state: WorkspaceStoreStateV1::Open(store), token }
    }

    /// A slot that never had a Store, for the preparation of a reset.
    pub fn unavailable_for_reset_preparation(token: WorkspaceStoreSlotTokenV1) -> (slot: Self)
        ensures
            slot.state == WorkspaceStoreStateV1::<Store>::Closed(
                Err(
                    StoreErrorV1::StorageUnavailableV1 {
                        reason: StoreUnavailableReasonV1::Recovery,
                    },
                ),
            ),
            slot.token == token,
    {
        WorkspaceStoreSlotV1 {
            state: WorkspaceStoreStateV1::Closed(Err(read_only_store_mutation_error())),
            token,
        }
    }

    /// Closes the Store, unless it was closed before. Whoever closes it first decides what closing
    /// it came to; it stays at that, and nothing is closed again. Returns whether it was closed
    /// without an error.
    pub fn close_for_maintenance<Close: FnOnce(Store) -> Result<(), StoreErrorV1>>(
        &mut self,
        close: Close,
    ) -> (succeeded: bool)
        requires
            old(self).state matches WorkspaceStoreStateV1::Open(store) ==> close.requires((store,)),
        ensures
            final(self).token == old(self).token,
            final(self).state matches WorkspaceStoreStateV1::Closed(result) && succeeded
                == result is Ok && match old(self).state {
                WorkspaceStoreStateV1::Open(store) => close.ensures((store,), result),
                WorkspaceStoreStateV1::Closed(cached) => result == cached,
            },
    {
        let mut current = WorkspaceStoreStateV1::Closed(Ok(()));
        std::mem::swap(&mut self.state, &mut current);
        let result = match current {
            WorkspaceStoreStateV1::Open(store) => close(store),
            WorkspaceStoreStateV1::Closed(cached) => cached,
        };
        let succeeded = result.is_ok();
        self.state = WorkspaceStoreStateV1::Closed(result);
        succeeded
    }

    /// What closing the Store came to, once it was closed.
    pub fn close_result(&self) -> (result: Option<&Result<(), StoreErrorV1>>)
        ensures
            match (result, self.state) {
                (Some(result), WorkspaceStoreStateV1::Closed(cached)) => *result == cached,
                (None, WorkspaceStoreStateV1::Open(_)) => true,
                _ => false,
            },
    {
        match &self.state {
            WorkspaceStoreStateV1::Closed(result) => Some(result),
            WorkspaceStoreStateV1::Open(_) => None,
        }
    }

    /// The Store, as long as it is open.
    pub fn open_store(&self) -> (store: Result<&Store, StoreRefusalV1<'_>>)
        ensures
            match (store, self.state) {
                (Ok(store), WorkspaceStoreStateV1::Open(held)) => *store == held,
                (Err(refusal), WorkspaceStoreStateV1::Closed(Ok(()))) => refusal
                    == StoreRefusalV1::Closed,
                (Err(refusal), WorkspaceStoreStateV1::Closed(Err(error))) => refusal
                    == StoreRefusalV1::CloseFailed(&error),
                _ => false,
            },
    {
        match &self.state {
            WorkspaceStoreStateV1::Open(store) => Ok(store),
            WorkspaceStoreStateV1::Closed(Ok(())) => Err(StoreRefusalV1::Closed),
            WorkspaceStoreStateV1::Closed(Err(error)) => Err(StoreRefusalV1::CloseFailed(error)),
        }
    }
}

} // verus!

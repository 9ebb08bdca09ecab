//! Firmware update coordinator: the state machine that applies update events
//! in arrival order and says what must be made durable before each step.
use vstd::prelude::*;

verus! {

/// Why an update ended in the failed state.
#[derive(Clone, Copy, Debug, PartialEq, Eq, Structural)]
pub enum FailReason {
    /// A chunk did not start where the previous one ended.
    OutOfOrder,
    /// A chunk reached past the declared image length.
    Overrun,
    /// An event that the current state does not accept, or a malformed one.
    Protocol,
    /// The durable write that the step needed did not succeed.
    Storage,
    /// The received image did not pass verification.
    Verification,
}

/// State of the update process.
#[derive(Clone, Copy, Debug, PartialEq, Eq, Structural)]
pub enum UpdateState {
    Idle,
    /// `offset` bytes of an image of `len` bytes have been received.
    Receiving { offset: u32, len: u32 },
    /// All `len` bytes are in; waiting for the verification result.
    Verifying { len: u32 },
    ReadyToSwap,
    Failed(FailReason),
}

/// One unit of update work from the peer.
#[derive(Clone, Debug, PartialEq, Eq)]
pub enum UpdateEvent {
    /// Start receiving an image of `len` bytes.
    Begin { len: u32 },
    /// Image bytes starting at `offset`.
    Chunk { offset: u32, data: Vec<u8> },
    /// Outcome of checking the received image.
    VerifyResult { ok: bool },
    /// A read of the current status; changes nothing.
    Status,
    /// Drop the update in progress.
    Abort,
}

/// Progress record kept in non-volatile storage.
#[derive(Clone, Copy, Debug, PartialEq, Eq, Structural)]
pub enum StoredRecord {
    Empty,
    InProgress { offset: u32, len: u32 },
    Ready,
}

/// Durable work that must complete before an event's transition is taken.
#[derive(Clone, Copy, Debug, PartialEq, Eq, Structural)]
pub enum Persist {
    Nothing,
    /// Write the progress record.
    Record(StoredRecord),
    /// Write the event's chunk bytes at `offset`, then the progress record.
    Chunk { offset: u32, record: StoredRecord },
}

/// Error reported by [`Coordinator::handle`].
#[derive(Clone, Copy, Debug, PartialEq, Eq, Structural)]
pub enum UpdateError {
    OutOfOrder { expected: u32, got: u32 },
    Overrun,
    Protocol,
    Storage,
    Verification,
    /// The coordinator is failed or ready to swap and takes nothing but abort.
    Halted,
}

/// A state that the coordinator can be in.
pub open spec fn state_wf(s: UpdateState) -> bool {
    match s {
        UpdateState::Receiving { offset, len } => offset < len,
        UpdateState::Verifying { len } => len > 0,
        _ => true,
    }
}

/// Failure with `reason`, reported as `err`.
pub open spec fn fail(reason: FailReason, err: UpdateError) -> (UpdateState, Result<(), UpdateError>) {
    (UpdateState::Failed(reason), Err(err))
}

/// Next state and result of applying `ev` in state `s`, where `stored` tells
/// whether the durable work of [`persist_plan`] succeeded.
pub open spec fn transition(s: UpdateState, ev: UpdateEvent, stored: bool) -> (
    UpdateState,
    Result<(), UpdateError>,
) {
    match ev {
        UpdateEvent::Abort => (UpdateState::Idle, Ok(())),
        UpdateEvent::Status => (s, Ok(())),
        _ => match s {
            UpdateState::Failed(_) => (s, Err(UpdateError::Halted)),
            UpdateState::ReadyToSwap => (s, Err(UpdateError::Halted)),
            UpdateState::Idle => match ev {
                UpdateEvent::Begin { len } => {
                    if len == 0 {
                        fail(FailReason::Protocol, UpdateError::Protocol)
                    } else if !stored {
                        fail(FailReason::Storage, UpdateError::Storage)
                    } else {
                        (UpdateState::Receiving { offset: 0, len }, Ok(()))
                    }
                },
                _ => fail(FailReason::Protocol, UpdateError::Protocol),
            },
            UpdateState::Receiving { offset, len } => match ev {
                UpdateEvent::Chunk { offset: at, data } => {
                    if at != offset {
                        fail(
                            FailReason::OutOfOrder,
                            UpdateError::OutOfOrder { expected: offset, got: at },
                        )
                    } else if offset + data@.len() > len {
                        fail(FailReason::Overrun, UpdateError::Overrun)
                    } else if !stored {
                        fail(FailReason::Storage, UpdateError::Storage)
                    } else if offset + data@.len() == len {
                        (UpdateState::Verifying { len }, Ok(()))
                    } else {
                        (
                            UpdateState::Receiving { offset: (offset + data@.len()) as u32, len },
                            Ok(()),
                        )
                    }
                },
                _ => fail(FailReason::Protocol, UpdateError::Protocol),
            },
            UpdateState::Verifying { len } => match ev {
                UpdateEvent::VerifyResult { ok } => {
                    if !ok {
                        fail(FailReason::Verification, UpdateError::Verification)
                    } else if !stored {
                        fail(FailReason::Storage, UpdateError::Storage)
                    } else {
                        (UpdateState::ReadyToSwap, Ok(()))
                    }
                },
                _ => fail(FailReason::Protocol, UpdateError::Protocol),
            },
        },
    }
}

/// Durable work owed before `ev` is applied in state `s`.
pub open spec fn persist_plan(s: UpdateState, ev: UpdateEvent) -> Persist {
    match ev {
        UpdateEvent::Abort => Persist::Record(StoredRecord::Empty),
        UpdateEvent::Begin { len } => {
            if s == UpdateState::Idle && len > 0 {
                Persist::Record(StoredRecord::InProgress { offset: 0, len })
            } else {
                Persist::Nothing
            }
        },
        UpdateEvent::Chunk { offset: at, data } => match s {
            UpdateState::Receiving { offset, len } => {
                if at == offset && offset + data@.len() <= len {
                    Persist::Chunk {
                        offset,
                        record: StoredRecord::InProgress {
                            offset: (offset + data@.len()) as u32,
                            len,
                        },
                    }
                } else {
                    Persist::Nothing
                }
            },
            _ => Persist::Nothing,
        },
        UpdateEvent::VerifyResult { ok } => {
            if ok && s is Verifying {
                Persist::Record(StoredRecord::Ready)
            } else {
                Persist::Nothing
            }
        },
        UpdateEvent::Status => Persist::Nothing,
    }
}

/// The progress record that describes state `s`; none for a failed state.
pub open spec fn record_of(s: UpdateState) -> Option<StoredRecord> {
    match s {
        UpdateState::Idle => Some(StoredRecord::Empty),
        UpdateState::Receiving { offset, len } => Some(StoredRecord::InProgress { offset, len }),
        UpdateState::Verifying { len } => Some(StoredRecord::InProgress { offset: len, len }),
        UpdateState::ReadyToSwap => Some(StoredRecord::Ready),
        UpdateState::Failed(_) => None,
    }
}

/// State resumed at boot from the stored record; an inconsistent record is
/// discarded.
pub open spec fn restored(r: StoredRecord) -> UpdateState {
    match r {
        StoredRecord::Empty => UpdateState::Idle,
        StoredRecord::InProgress { offset, len } => {
            if offset < len {
                UpdateState::Receiving { offset, len }
            } else if offset == len && len > 0 {
                UpdateState::Verifying { len }
            } else {
                UpdateState::Idle
            }
        },
        StoredRecord::Ready => UpdateState::ReadyToSwap,
    }
}

/// The record that a plan writes, if any.
pub open spec fn planned_record(p: Persist) -> Option<StoredRecord> {
    match p {
        Persist::Nothing => None,
        Persist::Record(r) => Some(r),
        Persist::Chunk { record, .. } => Some(record),
    }
}

/// State reached from `s` by applying `evs` in order, every durable write
/// succeeding.
pub open spec fn run(s: UpdateState, evs: Seq<UpdateEvent>) -> UpdateState
    decreases evs.len(),
{
    if evs.len() == 0 {
        s
    } else {
        transition(run(s, evs.drop_last()), evs.last(), true).0
    }
}

/// Number of image bytes carried by the chunk events of `evs`.
pub open spec fn chunk_bytes(evs: Seq<UpdateEvent>) -> nat
    decreases evs.len(),
{
    if evs.len() == 0 {
        0
    } else {
        chunk_bytes(evs.drop_last()) + match evs.last() {
            UpdateEvent::Chunk { data, .. } => data@.len(),
            _ => 0,
        }
    }
}

/// `ev` is a chunk of at least one byte that starts at `offset`.
pub open spec fn nonempty_chunk_at(ev: UpdateEvent, offset: nat) -> bool {
    ev matches UpdateEvent::Chunk { offset: at, data } && data@.len() > 0 && at == offset
}

/// A complete update: a begin, non-empty chunks whose offsets are contiguous
/// from zero and whose sizes add up to the declared length, then a successful
/// verification.
pub open spec fn well_formed_update(evs: Seq<UpdateEvent>) -> bool {
    &&& evs.len() >= 3
    &&& evs[0] matches UpdateEvent::Begin { len } && chunk_bytes(evs.subrange(1, evs.len() - 1))
        == len
    &&& evs.last() == (UpdateEvent::VerifyResult { ok: true })
    &&& forall|k: int|
        1 <= k < evs.len() - 1 ==> nonempty_chunk_at(#[trigger] evs[k], chunk_bytes(evs.subrange(1, k)))
}

proof fn lemma_chunk_bytes_grow(evs: Seq<UpdateEvent>, i: int, j: int)
    requires
        well_formed_update(evs),
        1 <= i <= j <= evs.len() - 1,
    ensures
        chunk_bytes(evs.subrange(1, i)) + (j - i) <= chunk_bytes(evs.subrange(1, j)),
    decreases j - i,
{
    if i < j {
        lemma_chunk_bytes_grow(evs, i, j - 1);
        assert(evs.subrange(1, j).drop_last() == evs.subrange(1, j - 1));
        assert(evs[j - 1] is Chunk);
    }
}

proof fn lemma_update_prefix(evs: Seq<UpdateEvent>, k: int)
    requires
        well_formed_update(evs),
        1 <= k <= evs.len() - 1,
    ensures
        ({
            let len = evs[0]->len;
            let got = chunk_bytes(evs.subrange(1, k));
            &&& got <= len
            &&& k < evs.len() - 1 ==> got < len
            &&& run(UpdateState::Idle, evs.take(k)) == if got < len {
                UpdateState::Receiving { offset: got as u32, len }
            } else {
                UpdateState::Verifying { len }
            }
        }),
    decreases k,
{
    let n = evs.len() - 1;
    lemma_chunk_bytes_grow(evs, k, n);
    if k < n {
        lemma_chunk_bytes_grow(evs, k + 1, n);
    }
    assert(evs.take(k).drop_last() == evs.take(k - 1));
    if k == 1 {
        assert(evs.take(0).len() == 0);
        assert(evs.subrange(1, 1).len() == 0);
    } else {
        lemma_update_prefix(evs, k - 1);
        assert(evs.subrange(1, k).drop_last() == evs.subrange(1, k - 1));
        assert(evs[k - 1] is Chunk);
    }
}

/// A complete update with contiguous offsets takes the coordinator from idle
/// to ready-to-swap, and it is ready only after the last event.
pub proof fn lemma_well_formed_update_ready_once(evs: Seq<UpdateEvent>)
    requires
        well_formed_update(evs),
    ensures
        run(UpdateState::Idle, evs) == UpdateState::ReadyToSwap,
        forall|k: int| 0 <= k < evs.len() ==> run(UpdateState::Idle, #[trigger] evs.take(k))
            != UpdateState::ReadyToSwap,
{
    let n = evs.len() - 1;
    lemma_update_prefix(evs, n);
    assert(evs.take(n + 1).drop_last() == evs.take(n));
    assert(evs.take(n + 1) == evs);
    assert forall|k: int| 0 <= k < evs.len() implies run(UpdateState::Idle, #[trigger] evs.take(k))
        != UpdateState::ReadyToSwap by {
        if k == 0 {
            assert(evs.take(0).len() == 0);
        } else {
            lemma_update_prefix(evs, k);
        }
    }
}

/// A chunk whose offset is not where the received bytes end fails the update.
pub proof fn lemma_out_of_order_fails(offset: u32, len: u32, ev: UpdateEvent, stored: bool)
    requires
        ev matches UpdateEvent::Chunk { offset: at, .. } && at != offset,
    ensures
        transition(UpdateState::Receiving { offset, len }, ev, stored).0 == UpdateState::Failed(
            FailReason::OutOfOrder,
        ),
{
}

/// Once failed, no event but abort leaves the failed state.
pub proof fn lemma_failed_until_abort(reason: FailReason, evs: Seq<UpdateEvent>)
    requires
        forall|k: int| 0 <= k < evs.len() ==> !(#[trigger] evs[k] is Abort),
    ensures
        run(UpdateState::Failed(reason), evs) == UpdateState::Failed(reason),
    decreases evs.len(),
{
    if evs.len() > 0 {
        lemma_failed_until_abort(reason, evs.drop_last());
    }
}

/// Abort returns to idle from every state, discards the stored progress, and
/// a second abort changes nothing.
pub proof fn lemma_abort_idempotent(s: UpdateState, stored: bool, again: bool)
    ensures
        transition(s, UpdateEvent::Abort, stored) == (UpdateState::Idle, Ok::<(), UpdateError>(())),
        persist_plan(s, UpdateEvent::Abort) == Persist::Record(StoredRecord::Empty),
        transition(transition(s, UpdateEvent::Abort, stored).0, UpdateEvent::Abort, again)
            == transition(s, UpdateEvent::Abort, stored),
{
}

/// After a step whose durable work succeeded, restarting from the record that
/// the step wrote resumes exactly the state that the step reached.
pub proof fn lemma_restart_resumes_committed(s: UpdateState, ev: UpdateEvent)
    requires
        state_wf(s),
        planned_record(persist_plan(s, ev)) is Some,
    ensures
        record_of(transition(s, ev, true).0) == planned_record(persist_plan(s, ev)),
        restored(planned_record(persist_plan(s, ev))->0) == transition(s, ev, true).0,
{
}

/// Every state the coordinator can be in, but a failed one, is resumed as
/// itself from its own record.
pub proof fn lemma_restore_inverts_record(s: UpdateState)
    requires
        state_wf(s),
        record_of(s) is Some,
    ensures
        restored(record_of(s)->0) == s,
{
}


/// The single owner of the update state; events reach it in arrival order.
#[derive(Clone, Copy, Debug, PartialEq, Eq, Structural)]
pub struct Coordinator {
    pub state: UpdateState,
}

impl Coordinator {
    /// A coordinator with no update in progress.
    pub fn new() -> (r: Coordinator)
        ensures
            r.state == UpdateState::Idle,
    {
        Coordinator { state: UpdateState::Idle }
    }

    /// The coordinator resumed at boot from the stored progress record.
    pub fn restore(record: StoredRecord) -> (r: Coordinator)
        ensures
            r.state == restored(record),
            state_wf(r.state),
    {
        let state = match record {
            StoredRecord::Empty => UpdateState::Idle,
            StoredRecord::InProgress { offset, len } => {
                if offset < len {
                    UpdateState::Receiving { offset, len }
                } else if offset == len && len > 0 {
                    UpdateState::Verifying { len }
                } else {
                    UpdateState::Idle
                }
            },
            StoredRecord::Ready => UpdateState::ReadyToSwap,
        };
        Coordinator { state }
    }

    /// Durable work that must succeed before `ev` is applied.
    pub fn persist_for(&self, ev: &UpdateEvent) -> (p: Persist)
        ensures
            p == persist_plan(self.state, *ev),
    {
        match ev {
            UpdateEvent::Abort => Persist::Record(StoredRecord::Empty),
            UpdateEvent::Begin { len } => {
                if self.state == UpdateState::Idle && *len > 0 {
                    Persist::Record(StoredRecord::InProgress { offset: 0, len: *len })
                } else {
                    Persist::Nothing
                }
            },
            UpdateEvent::Chunk { offset: at, data } => match self.state {
                UpdateState::Receiving { offset, len } => {
                    if *at == offset && offset <= len && data.len() as u64 <= (len - offset) as u64 {
                        let next = offset + data.len() as u32;
                        Persist::Chunk {
                            offset,
                            record: StoredRecord::InProgress { offset: next, len },
                        }
                    } else {
                        Persist::Nothing
                    }
                },
                _ => Persist::Nothing,
            },
            UpdateEvent::VerifyResult { ok } => {
                if *ok && matches!(self.state, UpdateState::Verifying { .. }) {
                    Persist::Record(StoredRecord::Ready)
                } else {
                    Persist::Nothing
                }
            },
            UpdateEvent::Status => Persist::Nothing,
        }
    }

    /// Applies one event; `stored` is whether the work of
    /// [`Coordinator::persist_for`] on the same event completed durably.
    pub fn handle(&mut self, ev: &UpdateEvent, stored: bool) -> (r: Result<(), UpdateError>)
        ensures
            (final(self).state, r) == transition(old(self).state, *ev, stored),
            state_wf(old(self).state) ==> state_wf(final(self).state),
    {
        let (next, r) = match ev {
            UpdateEvent::Abort => (UpdateState::Idle, Ok(())),
            UpdateEvent::Status => (self.state, Ok(())),
            _ => match self.state {
                UpdateState::Failed(_) | UpdateState::ReadyToSwap => (
                    self.state,
                    Err(UpdateError::Halted),
                ),
                UpdateState::Idle => match ev {
                    UpdateEvent::Begin { len } => {
                        if *len == 0 {
                            (UpdateState::Failed(FailReason::Protocol), Err(UpdateError::Protocol))
                        } else if !stored {
                            (UpdateState::Failed(FailReason::Storage), Err(UpdateError::Storage))
                        } else {
                            (UpdateState::Receiving { offset: 0, len: *len }, Ok(()))
                        }
                    },
                    _ => (UpdateState::Failed(FailReason::Protocol), Err(UpdateError::Protocol)),
                },
                UpdateState::Receiving { offset, len } => match ev {
                    UpdateEvent::Chunk { offset: at, data } => {
                        if *at != offset {
                            (
                                UpdateState::Failed(FailReason::OutOfOrder),
                                Err(UpdateError::OutOfOrder { expected: offset, got: *at }),
                            )
                        } else if !(offset <= len && data.len() as u64 <= (len - offset) as u64) {
                            (UpdateState::Failed(FailReason::Overrun), Err(UpdateError::Overrun))
                        } else if !stored {
                            (UpdateState::Failed(FailReason::Storage), Err(UpdateError::Storage))
                        } else if data.len() as u64 == (len - offset) as u64 {
                            (UpdateState::Verifying { len }, Ok(()))
                        } else {
                            (
                                UpdateState::Receiving { offset: offset + data.len() as u32, len },
                                Ok(()),
                            )
                        }
                    },
                    _ => (UpdateState::Failed(FailReason::Protocol), Err(UpdateError::Protocol)),
                },
                UpdateState::Verifying { len } => match ev {
                    UpdateEvent::VerifyResult { ok } => {
                        if !*ok {
                            (
                                UpdateState::Failed(FailReason::Verification),
                                Err(UpdateError::Verification),
                            )
                        } else if !stored {
                            (UpdateState::Failed(FailReason::Storage), Err(UpdateError::Storage))
                        } else {
                            (UpdateState::ReadyToSwap, Ok(()))
                        }
                    },
                    _ => (UpdateState::Failed(FailReason::Protocol), Err(UpdateError::Protocol)),
                },
            },
        };
        self.state = next;
        r
    }
}

} // verus!

use presenter::update::{
    Coordinator, FailReason, Persist, StoredRecord, UpdateError, UpdateEvent, UpdateState,
};

fn apply(c: &mut Coordinator, ev: &UpdateEvent) -> (Persist, Result<(), UpdateError>) {
    let p = c.persist_for(ev);
    (p, c.handle(ev, true))
}

fn chunk(offset: u32, data: &[u8]) -> UpdateEvent {
    UpdateEvent::Chunk { offset, data: data.to_vec() }
}

#[test]
fn contiguous_update_reaches_ready_once() {
    let mut c = Coordinator::new();
    let events = vec![
        UpdateEvent::Begin { len: 6 },
        chunk(0, &[1, 2]),
        chunk(2, &[3, 4, 5]),
        chunk(5, &[6]),
        UpdateEvent::VerifyResult { ok: true },
    ];
    let mut ready = 0;
    for ev in &events {
        assert_eq!(apply(&mut c, ev).1, Ok(()));
        if c.state == UpdateState::ReadyToSwap {
            ready += 1;
        }
    }
    assert_eq!(ready, 1);
    assert_eq!(c.state, UpdateState::ReadyToSwap);
}

#[test]
fn chunks_advance_offset_then_verify() {
    let mut c = Coordinator::new();
    apply(&mut c, &UpdateEvent::Begin { len: 4 });
    assert_eq!(c.state, UpdateState::Receiving { offset: 0, len: 4 });
    apply(&mut c, &chunk(0, &[9, 9, 9]));
    assert_eq!(c.state, UpdateState::Receiving { offset: 3, len: 4 });
    apply(&mut c, &chunk(3, &[9]));
    assert_eq!(c.state, UpdateState::Verifying { len: 4 });
}

#[test]
fn out_of_order_chunk_fails() {
    let mut c = Coordinator::new();
    apply(&mut c, &UpdateEvent::Begin { len: 8 });
    apply(&mut c, &chunk(0, &[1, 2]));
    let ev = chunk(4, &[3, 4]);
    assert_eq!(c.persist_for(&ev), Persist::Nothing);
    assert_eq!(c.handle(&ev, true), Err(UpdateError::OutOfOrder { expected: 2, got: 4 }));
    assert_eq!(c.state, UpdateState::Failed(FailReason::OutOfOrder));
}

#[test]
fn failed_state_needs_abort() {
    let mut c = Coordinator { state: UpdateState::Failed(FailReason::OutOfOrder) };
    for ev in [
        UpdateEvent::Begin { len: 4 },
        chunk(0, &[1]),
        UpdateEvent::VerifyResult { ok: true },
        UpdateEvent::Status,
    ] {
        let r = apply(&mut c, &ev).1;
        assert!(r == Err(UpdateError::Halted) || r == Ok(()));
        assert_eq!(c.state, UpdateState::Failed(FailReason::OutOfOrder));
    }
    assert_eq!(apply(&mut c, &UpdateEvent::Abort), (Persist::Record(StoredRecord::Empty), Ok(())));
    assert_eq!(c.state, UpdateState::Idle);
}

#[test]
fn abort_returns_idle_from_every_state() {
    let states = [
        UpdateState::Idle,
        UpdateState::Receiving { offset: 3, len: 10 },
        UpdateState::Verifying { len: 10 },
        UpdateState::ReadyToSwap,
        UpdateState::Failed(FailReason::Storage),
    ];
    for s in states {
        let mut c = Coordinator { state: s };
        assert_eq!(c.persist_for(&UpdateEvent::Abort), Persist::Record(StoredRecord::Empty));
        assert_eq!(c.handle(&UpdateEvent::Abort, false), Ok(()));
        assert_eq!(c.state, UpdateState::Idle);
        assert_eq!(c.handle(&UpdateEvent::Abort, true), Ok(()));
        assert_eq!(c.state, UpdateState::Idle);
    }
}

#[test]
fn update_then_restart_resumes_committed_state() {
    let mut c = Coordinator::new();
    let mut last = StoredRecord::Empty;
    let events = vec![
        UpdateEvent::Begin { len: 5 },
        chunk(0, &[1, 2, 3]),
        chunk(3, &[4, 5]),
        UpdateEvent::VerifyResult { ok: true },
    ];
    let mut partial = None;
    for (i, ev) in events.iter().enumerate() {
        let (p, r) = apply(&mut c, ev);
        assert_eq!(r, Ok(()));
        match p {
            Persist::Record(rec) => last = rec,
            Persist::Chunk { record, .. } => last = record,
            Persist::Nothing => {}
        }
        if i == 1 {
            partial = Some(last);
        }
    }
    assert_eq!(c.state, UpdateState::ReadyToSwap);
    assert_eq!(last, StoredRecord::Ready);
    assert_eq!(Coordinator::restore(last).state, UpdateState::ReadyToSwap);
    let mid = partial.unwrap();
    assert_eq!(mid, StoredRecord::InProgress { offset: 3, len: 5 });
    assert_eq!(Coordinator::restore(mid).state, UpdateState::Receiving { offset: 3, len: 5 });
}

#[test]
fn restore_discards_inconsistent_record() {
    let r = StoredRecord::InProgress { offset: 9, len: 4 };
    assert_eq!(Coordinator::restore(r).state, UpdateState::Idle);
    let full = StoredRecord::InProgress { offset: 4, len: 4 };
    assert_eq!(Coordinator::restore(full).state, UpdateState::Verifying { len: 4 });
}

#[test]
fn chunk_plan_names_offset_and_next_record() {
    let c = Coordinator { state: UpdateState::Receiving { offset: 2, len: 10 } };
    assert_eq!(
        c.persist_for(&chunk(2, &[0; 5])),
        Persist::Chunk { offset: 2, record: StoredRecord::InProgress { offset: 7, len: 10 } }
    );
}

#[test]
fn overrun_chunk_fails() {
    let mut c = Coordinator { state: UpdateState::Receiving { offset: 2, len: 4 } };
    assert_eq!(c.persist_for(&chunk(2, &[1, 2, 3])), Persist::Nothing);
    assert_eq!(c.handle(&chunk(2, &[1, 2, 3]), true), Err(UpdateError::Overrun));
    assert_eq!(c.state, UpdateState::Failed(FailReason::Overrun));
}

#[test]
fn unexpected_event_is_protocol_violation() {
    let mut c = Coordinator::new();
    assert_eq!(c.handle(&chunk(0, &[1]), true), Err(UpdateError::Protocol));
    assert_eq!(c.state, UpdateState::Failed(FailReason::Protocol));
    let mut c = Coordinator::new();
    assert_eq!(c.handle(&UpdateEvent::Begin { len: 0 }, true), Err(UpdateError::Protocol));
    let mut c = Coordinator { state: UpdateState::Verifying { len: 3 } };
    assert_eq!(c.handle(&chunk(3, &[1]), true), Err(UpdateError::Protocol));
}

#[test]
fn failed_durable_write_fails_update() {
    let mut c = Coordinator::new();
    assert_eq!(c.handle(&UpdateEvent::Begin { len: 4 }, false), Err(UpdateError::Storage));
    assert_eq!(c.state, UpdateState::Failed(FailReason::Storage));
    let mut c = Coordinator { state: UpdateState::Receiving { offset: 0, len: 4 } };
    assert_eq!(c.handle(&chunk(0, &[1]), false), Err(UpdateError::Storage));
    let mut c = Coordinator { state: UpdateState::Verifying { len: 4 } };
    assert_eq!(c.handle(&UpdateEvent::VerifyResult { ok: true }, false), Err(UpdateError::Storage));
}

#[test]
fn failed_verification_fails_update() {
    let mut c = Coordinator { state: UpdateState::Verifying { len: 4 } };
    assert_eq!(c.persist_for(&UpdateEvent::VerifyResult { ok: false }), Persist::Nothing);
    assert_eq!(c.handle(&UpdateEvent::VerifyResult { ok: false }, true), Err(UpdateError::Verification));
    assert_eq!(c.state, UpdateState::Failed(FailReason::Verification));
}

#[test]
fn ready_state_halts_until_abort() {
    let mut c = Coordinator { state: UpdateState::ReadyToSwap };
    assert_eq!(c.handle(&UpdateEvent::Begin { len: 4 }, true), Err(UpdateError::Halted));
    assert_eq!(c.state, UpdateState::ReadyToSwap);
    assert_eq!(c.handle(&UpdateEvent::Status, true), Ok(()));
    assert_eq!(c.state, UpdateState::ReadyToSwap);
}

use oneshot_broadcast::state::{ChannelCore, ChannelState};
use oneshot_broadcast::Closed;
use std::sync::{Arc, OnceLock};
use std::task::Waker;

#[test]
fn core_send_is_one_shot() {
    let mut core = ChannelCore::new();
    assert_eq!(core.state(), ChannelState::Open);
    assert!(core.begin_send());
    assert_eq!(core.state(), ChannelState::Sending);
    assert!(!core.begin_send());
    assert!(!core.close());
    assert_eq!(core.status(), None);
    assert!(core.finish_send());
    assert_eq!(core.state(), ChannelState::Initialized);
    assert_eq!(core.status(), Some(Ok(())));
    assert!(core.is_initialized());
    assert!(!core.begin_send());
    assert!(!core.finish_send());
    assert!(!core.close());
    assert_eq!(core.state(), ChannelState::Initialized);
}

#[test]
fn core_close_excludes_send() {
    let mut core = ChannelCore::new();
    assert!(core.close());
    assert_eq!(core.status(), Some(Err(Closed)));
    assert!(!core.close());
    assert!(!core.begin_send());
    assert!(!core.reset());
    assert_eq!(core.state(), ChannelState::Closed);
}

#[test]
fn core_abort_and_reset_reopen() {
    let mut core = ChannelCore::new();
    assert!(!core.abort_send());
    assert!(core.begin_send());
    assert!(core.abort_send());
    assert_eq!(core.state(), ChannelState::Open);
    assert!(core.begin_send());
    assert!(core.finish_send());
    assert!(core.reset());
    assert_eq!(core.state(), ChannelState::Open);
    assert_eq!(core.status(), None);
}

#[test]
fn core_registered_wakers_are_collected() {
    let mut core = ChannelCore::new();
    let mut first = None;
    let mut second = None;
    assert_eq!(core.register(&mut first, Waker::noop()), None);
    assert_eq!(core.register(&mut second, Waker::noop()), None);
    assert_eq!(first, Some(0));
    assert_eq!(second, Some(1));
    assert_eq!(core.register(&mut first, Waker::noop()), None);
    assert_eq!(first, Some(0));
    assert_eq!(core.wakers().slots().len(), 2);
    assert!(core.begin_send());
    assert!(core.finish_send());
    let wakers = core.take_wakers();
    assert_eq!(wakers.len(), 2);
    assert!(core.wakers().slots().iter().all(|slot| slot.is_none()));
}

#[test]
fn core_settled_channel_registers_nobody() {
    let mut core = ChannelCore::new();
    assert!(core.close());
    let mut pos = None;
    assert_eq!(core.register(&mut pos, Waker::noop()), Some(Err(Closed)));
    assert_eq!(pos, None);
    assert_eq!(core.wakers().slots().len(), 0);
    assert_eq!(core.take_wakers().len(), 0);
}

#[test]
fn core_unregister_frees_the_slot() {
    let mut core = ChannelCore::new();
    let mut first = None;
    let mut second = None;
    core.register(&mut first, Waker::noop());
    core.register(&mut second, Waker::noop());
    core.unregister(0);
    assert!(core.wakers().slots()[0].is_none());
    assert_eq!(core.wakers().first_free(), Some(0));
    let mut third = None;
    core.register(&mut third, Waker::noop());
    assert_eq!(third, Some(0));
    assert_eq!(core.take_wakers().len(), 2);
}

#[test]
fn core_unregister_after_send_keeps_slots() {
    let mut core = ChannelCore::new();
    let mut pos = None;
    core.register(&mut pos, Waker::noop());
    assert!(core.begin_send());
    assert!(core.finish_send());
    core.unregister(0);
    assert!(core.wakers().slots()[0].is_some());
    assert_eq!(core.wakers().first_free(), None);
}

#[test]
fn core_stale_position_is_registered_again() {
    let mut core = ChannelCore::new();
    let mut pos = Some(5);
    assert_eq!(core.register(&mut pos, Waker::noop()), None);
    assert_eq!(pos, Some(0));
    let mut pos = None;
    core.register(&mut pos, Waker::noop());
    assert!(core.begin_send());
    assert!(core.finish_send());
    assert_eq!(core.take_wakers().len(), 2);
    assert!(core.reset());
    let mut again = Some(1);
    assert_eq!(core.register(&mut again, Waker::noop()), None);
    assert_eq!(again, Some(1));
    assert!(core.wakers().slots()[1].is_some());
    assert!(core.wakers().slots()[0].is_none());
}

#[test]
fn core_send_into_fills_the_cell_once() {
    let mut core = ChannelCore::new();
    let cell: OnceLock<Arc<u8>> = OnceLock::new();
    assert_eq!(core.send_into(&cell, 1), Ok(()));
    assert_eq!(core.state(), ChannelState::Initialized);
    assert_eq!(cell.get().map(|v| **v), Some(1));
    assert_eq!(core.send_into(&cell, 2), Err(2));
    assert_eq!(cell.get().map(|v| **v), Some(1));

    let mut cell = cell;
    assert_eq!(core.take_from(&mut cell).map(|v| *v), Some(1));
    assert_eq!(core.state(), ChannelState::Open);
    assert!(cell.get().is_none());
    assert_eq!(core.take_from(&mut cell), None);
}

#[test]
fn core_send_into_refused_after_close() {
    let mut core = ChannelCore::new();
    let cell: OnceLock<Arc<u8>> = OnceLock::new();
    assert!(core.close());
    assert_eq!(core.send_into(&cell, 5), Err(5));
    assert!(cell.get().is_none());
    assert_eq!(core.state(), ChannelState::Closed);
}

#[test]
fn core_enlist_registers_whatever_the_phase() {
    let mut core = ChannelCore::new();
    assert!(core.close());
    let mut pos = None;
    core.enlist(&mut pos, Waker::noop());
    assert_eq!(pos, Some(0));
    assert!(core.wakers().slots()[0].is_some());
    assert_eq!(core.state(), ChannelState::Closed);
}

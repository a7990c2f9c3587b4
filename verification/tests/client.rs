use vigem::{NativeTarget, SharedClientHandle, Target, TargetType};

fn record(handle: usize, target_type: u32) -> NativeTarget {
    NativeTarget {
        handle,
        size: 64,
        serial_no: 1,
        state: 1,
        vendor_id: 0x045E,
        product_id: 0x028E,
        target_type,
        closing_notification_threads: false,
        notification_user_data: 0,
    }
}

#[test]
fn wrap_keeps_the_raw_handle() {
    let shared = SharedClientHandle::wrap(0xC0FFEE);
    assert_eq!(shared.handle(), 0xC0FFEE);
    assert_eq!(shared.reference_count(), 1);
}

#[test]
fn clone_reference_counts_up_and_drop_counts_down() {
    let first = SharedClientHandle::wrap(0x1000);
    let second = first.clone_reference();
    assert_eq!(second.handle(), 0x1000);
    assert_eq!(first.reference_count(), 2);
    assert_eq!(second.reference_count(), 2);
    let third = second.clone_reference();
    assert_eq!(first.reference_count(), 3);
    drop(second);
    assert_eq!(first.reference_count(), 2);
    assert_eq!(third.handle(), 0x1000);
    drop(first);
    assert_eq!(third.reference_count(), 1);
    assert_eq!(third.handle(), 0x1000);
}

#[test]
fn separate_wraps_count_separately() {
    let a = SharedClientHandle::wrap(0x2000);
    let b = SharedClientHandle::wrap(0x2000);
    let c = a.clone_reference();
    assert_eq!(a.reference_count(), 2);
    assert_eq!(b.reference_count(), 1);
    assert_eq!(c.handle(), b.handle());
}

#[test]
fn client_stays_valid_while_any_observed_target_holds_it() {
    let raw_client: usize = 0xABCD_0000;
    let n = 8;
    // Several orders in which the targets go away.
    let orders: [[usize; 8]; 4] = [
        [0, 1, 2, 3, 4, 5, 6, 7],
        [7, 6, 5, 4, 3, 2, 1, 0],
        [3, 0, 7, 1, 6, 2, 5, 4],
        [4, 2, 6, 0, 5, 7, 1, 3],
    ];
    for order in orders {
        let mut targets: Vec<Option<Target>> = Vec::new();
        for i in 0..n {
            targets.push(Some(Target::from_raw(record(0x100 + i, 0), raw_client)));
        }
        for gone in order {
            targets[gone] = None;
            for slot in targets.iter() {
                if let Some(t) = slot {
                    assert_eq!(t.client(), Some(raw_client));
                    let count = t.client_reference_count().unwrap();
                    assert!(count >= 1);
                }
            }
        }
        assert!(targets.iter().all(|slot| slot.is_none()));
    }
}

#[test]
fn client_count_follows_the_targets_that_share_it() {
    let shared = SharedClientHandle::wrap(0x5000);
    let mut targets: Vec<Target> = Vec::new();
    for i in 0..5usize {
        let mut t = Target::new(TargetType::DualShock4, record(0x200 + i, 2)).unwrap();
        assert_eq!(t.client_reference_count(), None);
        t.set_client(shared.clone_reference());
        targets.push(t);
    }
    assert_eq!(shared.reference_count(), 6);
    drop(shared);
    // The application let go; the targets still keep the handle alive.
    let mut expected = 5;
    while let Some(t) = targets.pop() {
        assert_eq!(t.client(), Some(0x5000));
        assert_eq!(t.client_reference_count(), Some(expected));
        drop(t);
        expected -= 1;
        for rest in targets.iter() {
            assert_eq!(rest.client_reference_count(), Some(expected));
            assert!(expected >= 1);
        }
    }
}

use ffi_gen::handle::{Handle, HandleError};

#[test]
fn live_handle_can_be_borrowed_any_number_of_times() {
    let handle = Handle::new(0x1000);
    assert_eq!(handle.borrow(), Ok(0x1000));
    assert_eq!(handle.borrow(), Ok(0x1000));
    assert_eq!(handle.finalize(), Some(0x1000));
}

#[test]
fn moved_handle_refuses_every_operation() {
    let mut handle = Handle::new(7);
    assert_eq!(handle.borrow(), Ok(7));
    assert_eq!(handle.move_out(), Ok(7));
    assert_eq!(handle.borrow(), Err(HandleError::UseAfterMove));
    assert_eq!(handle.move_out(), Err(HandleError::MoveTwice));
    assert_eq!(handle.drop(), Err(HandleError::DropMoved));
    assert_eq!(handle.borrow(), Err(HandleError::UseAfterMove));
    assert_eq!(handle.finalize(), None);
}

#[test]
fn dropped_handle_refuses_every_operation() {
    let mut handle = Handle::new(9);
    assert_eq!(handle.drop(), Ok(9));
    assert_eq!(handle.borrow(), Err(HandleError::UseAfterFree));
    assert_eq!(handle.move_out(), Err(HandleError::UseAfterFree));
    assert_eq!(handle.drop(), Err(HandleError::DoubleFree));
    assert_eq!(handle.finalize(), None);
}

#[test]
fn destructor_runs_once_whatever_is_tried() {
    let ops: [u8; 3] = [0, 1, 2];
    for a in ops {
        for b in ops {
            for c in ops {
                let mut handle = Handle::new(1);
                let mut destroyed = 0;
                let mut moved = false;
                for op in [a, b, c] {
                    match op {
                        0 => {
                            let _ = handle.borrow();
                        }
                        1 => moved |= handle.move_out().is_ok(),
                        _ => destroyed += handle.drop().is_ok() as u32,
                    }
                }
                destroyed += handle.finalize().is_some() as u32;
                assert_eq!(destroyed, if moved { 0 } else { 1 });
            }
        }
    }
}

#[test]
fn handle_error_messages() {
    assert_eq!(HandleError::UseAfterFree.message(), "use after free");
    assert_eq!(HandleError::UseAfterMove.message(), "use after move");
    assert_eq!(HandleError::MoveTwice.message(), "can't move value twice");
    assert_eq!(HandleError::DoubleFree.message(), "double free");
    assert_eq!(HandleError::DropMoved.message(), "can't drop moved value");
}

use hostbuf::buffer::drop_external;
use hostbuf::buffer::new;
use hostbuf::buffer::new_external;
use hostbuf::buffer::size;
use hostbuf::buffer::as_mut_slice;
use hostbuf::buffer::uninitialized;
use hostbuf::buffer::BufferError;
use hostbuf::host::hint_is_released;
use hostbuf::host::read_range;
use hostbuf::host::registered_hint;
use hostbuf::host::write_bytes;
use hostbuf::host::write_range;
use hostbuf::host::Env;

#[test]
fn zeroed_buffer_is_all_zero() {
    let mut env = Env::new();
    let h = new(&mut env, 10).unwrap();
    assert_eq!(size(&env, h), 10);
    assert_eq!(as_mut_slice(&env, h), vec![0u8; 10]);
}

#[test]
fn zeroed_empty_buffer() {
    let mut env = Env::new();
    let h = new(&mut env, 0).unwrap();
    assert_eq!(size(&env, h), 0);
    assert_eq!(as_mut_slice(&env, h), Vec::<u8>::new());
}

#[test]
fn uninitialized_then_written_reads_back() {
    let mut env = Env::new();
    let (h, p) = uninitialized(&mut env, 4).unwrap();
    write_range(&mut env, p, vec![1u8, 2, 3, 4]);
    assert_eq!(size(&env, h), 4);
    assert_eq!(as_mut_slice(&env, h), vec![1u8, 2, 3, 4]);
}

#[test]
fn uninitialized_empty_buffer() {
    let mut env = Env::new();
    let (h, _p) = uninitialized(&mut env, 0).unwrap();
    assert_eq!(size(&env, h), 0);
    assert_eq!(as_mut_slice(&env, h), Vec::<u8>::new());
}

#[test]
fn fill_through_raw_range() {
    let mut env = Env::new();
    let (h, p) = uninitialized(&mut env, 3).unwrap();
    write_bytes(&mut env, p, 7u8);
    assert_eq!(as_mut_slice(&env, h), vec![7u8, 7, 7]);
    assert_eq!(read_range(&env, p), vec![7u8, 7, 7]);
}

#[test]
fn adopted_container_reads_back() {
    let mut env = Env::new();
    let h = new_external(&mut env, vec![9u8, 9, 9]);
    assert_eq!(size(&env, h), 3);
    assert_eq!(as_mut_slice(&env, h), vec![9u8, 9, 9]);
}

#[test]
fn adopted_empty_container() {
    let mut env = Env::new();
    let h = new_external(&mut env, Vec::new());
    assert_eq!(size(&env, h), 0);
    assert_eq!(as_mut_slice(&env, h), Vec::<u8>::new());
}

#[test]
fn finalizer_releases_at_most_once() {
    let mut env = Env::new();
    let h = new_external(&mut env, vec![9u8, 9, 9]);
    let hint = registered_hint(&env, h);
    assert!(!hint_is_released(&env, hint));

    // The host reclaims the buffer: the registered finalizer runs once.
    drop_external(&mut env, hint);
    assert!(hint_is_released(&env, hint));

    // A hypothetical re-entry finds the storage already gone and must be a
    // harmless no-op, with nothing left to release twice.
    drop_external(&mut env, hint);
    assert!(hint_is_released(&env, hint));
}

#[test]
fn pending_exception_is_propagated_not_asserted() {
    let mut env = Env::new();
    env.raise_exception();
    assert_eq!(new(&mut env, 5), Err(BufferError::PendingHostException));
    assert_eq!(
        uninitialized(&mut env, 5),
        Err(BufferError::PendingHostException)
    );
    env.clear_exception();
    assert!(new(&mut env, 5).is_ok());
}

#[test]
fn size_and_view_length_agree() {
    let mut env = Env::new();
    let zeroed = new(&mut env, 5).unwrap();
    let (written, p) = uninitialized(&mut env, 4).unwrap();
    write_range(&mut env, p, vec![4u8, 3, 2, 1]);
    let adopted = new_external(&mut env, vec![9u8, 9, 9]);
    for h in [zeroed, written, adopted] {
        assert_eq!(size(&env, h), as_mut_slice(&env, h).len());
    }
}

#[test]
fn buffers_do_not_interfere() {
    let mut env = Env::new();
    let first = new(&mut env, 2).unwrap();
    let (second, p) = uninitialized(&mut env, 2).unwrap();
    write_range(&mut env, p, vec![5u8, 6]);
    assert_eq!(as_mut_slice(&env, first), vec![0u8, 0]);
    assert_eq!(as_mut_slice(&env, second), vec![5u8, 6]);
}

#[test]
fn full_scenario() {
    let mut env = Env::new();

    let zeroed = new(&mut env, 10).unwrap();
    assert_eq!(as_mut_slice(&env, zeroed), vec![0u8; 10]);

    let (written, p) = uninitialized(&mut env, 4).unwrap();
    write_range(&mut env, p, vec![1u8, 2, 3, 4]);
    assert_eq!(as_mut_slice(&env, written), vec![1u8, 2, 3, 4]);

    let adopted = new_external(&mut env, vec![9u8, 9, 9]);
    assert_eq!(size(&env, adopted), 3);
    assert_eq!(as_mut_slice(&env, adopted), vec![9u8, 9, 9]);

    let hint = registered_hint(&env, adopted);
    drop_external(&mut env, hint);
    assert!(hint_is_released(&env, hint));
    drop_external(&mut env, hint);
    assert!(hint_is_released(&env, hint));
}

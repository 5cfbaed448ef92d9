//! The envelope: class-tag identity and the guarded reclaim path.

use enclave_rt::exception::{
    cleanup, rust_exception_class, CleanupVerdict, ExceptionObject, RUST_EXCEPTION_CLASS,
};

#[test]
fn class_tag_spells_this_runtime() {
    assert_eq!(rust_exception_class(), 0x4d4f_5a00_5255_5354);
    assert_eq!(rust_exception_class(), RUST_EXCEPTION_CLASS);
}

#[test]
fn own_envelope_is_claimed_with_its_payload() {
    let obj = ExceptionObject::new(rust_exception_class(), String::from("carried across"));
    match cleanup(obj) {
        CleanupVerdict::Claimed(payload) => assert_eq!(payload, "carried across"),
        CleanupVerdict::ForeignDisposed => panic!("own envelope taken for foreign"),
    }
}

#[test]
fn foreign_envelope_is_disposed_not_read() {
    // A class tag of a different runtime: exactly one foreign-exception
    // fault, and the payload is never handed out.
    let obj = ExceptionObject::new(0x474e_5543_432b_2b00, vec![1u8, 2, 3]);
    assert_eq!(obj.class(), 0x474e_5543_432b_2b00);
    match cleanup(obj) {
        CleanupVerdict::Claimed(_) => panic!("foreign payload must not be read"),
        CleanupVerdict::ForeignDisposed => {},
    }
}

#[test]
fn class_is_readable_without_touching_payload() {
    let obj = ExceptionObject::new(rust_exception_class(), 7u64);
    assert_eq!(obj.class(), RUST_EXCEPTION_CLASS);
}

use llama::{wrap_inner, Error, LLVMInner, ModulePassManager, PassManagerRef};

#[test]
fn wrap_inner_rejects_null() {
    assert!(matches!(wrap_inner(0), Err(Error::NullPointer)));
}

#[test]
fn wrap_inner_keeps_address() {
    let h = wrap_inner(0x1000).unwrap();
    assert_eq!(h.as_raw(), 0x1000);
}

#[test]
fn llvm_inner_gives_native_address() {
    let pm = ModulePassManager::new(0x2a0).unwrap();
    assert_eq!(LLVMInner::<PassManagerRef>::llvm_inner(&pm), 0x2a0);
}

use llama::{Arena, ContextRef, Error, Id, Kind, LLVMInner, Slot};

fn addr(s: Option<Slot>) -> Option<usize> {
    s.map(|s| s.addr)
}

fn addrs(slots: &[Slot]) -> Vec<usize> {
    slots.iter().map(|s| s.addr).collect()
}

fn root(a: &mut Arena, at: usize, kind: Kind) -> Id {
    a.register(at, kind, None).unwrap()
}

#[test]
fn null_context_is_rejected() {
    assert!(matches!(Arena::new(0), Err(Error::NullPointer)));
}

#[test]
fn null_object_is_not_recorded() {
    let mut a = Arena::new(0x10).unwrap();
    assert!(matches!(a.register(0, Kind::Module, None), Err(Error::NullPointer)));
    assert_eq!(a.len(), 0);
}

#[test]
fn dispose_twice_releases_once() {
    let mut a = Arena::new(0x10).unwrap();
    let m = root(&mut a, 0x20, Kind::Module);
    assert_eq!(a.get(m), Some(0x20));
    let first = a.dispose(m).unwrap();
    assert_eq!(first.addr, 0x20);
    assert_eq!(first.kind, Kind::Module);
    assert_eq!(addr(a.dispose(m)), None);
    assert_eq!(a.get(m), None);
}

#[test]
fn transferred_module_is_disposed_by_engine() {
    let mut a = Arena::new(0x10).unwrap();
    let module = root(&mut a, 0x20, Kind::Module);
    let engine = root(&mut a, 0x30, Kind::ExecutionEngine);
    assert!(a.transfer(module, engine));
    assert_eq!(addr(a.dispose(module)), None);
    assert_eq!(a.get(module), Some(0x20));
    let released = a.dispose(engine).unwrap();
    assert_eq!(released.addr, 0x30);
    assert_eq!(released.kind, Kind::ExecutionEngine);
    assert_eq!(a.get(module), None);
    assert_eq!(addr(a.dispose(module)), None);
    let (rest, context) = a.close();
    assert!(rest.is_empty());
    assert_eq!(context, 0x10);
}

#[test]
fn dependent_object_registered_with_owner() {
    let mut a = Arena::new(0x10).unwrap();
    let engine = root(&mut a, 0x30, Kind::ExecutionEngine);
    let dep = a.register(0x40, Kind::Module, Some(engine)).unwrap();
    assert_eq!(addr(a.dispose(dep)), None);
    assert_eq!(addr(a.dispose(engine)), Some(0x30));
    assert_eq!(a.get(dep), None);
}

#[test]
fn close_releases_latest_first_then_context() {
    let mut a = Arena::new(0x10).unwrap();
    let m1 = root(&mut a, 0x20, Kind::Module);
    let b = root(&mut a, 0x30, Kind::Builder);
    let _pm = root(&mut a, 0x40, Kind::PassManager);
    assert_eq!(m1.index(), 0);
    assert_eq!(b.index(), 1);
    assert_eq!(addr(a.dispose(b)), Some(0x30));
    let (rest, context) = a.close();
    assert_eq!(addrs(&rest), vec![0x40, 0x20]);
    assert_eq!(rest[0].kind, Kind::PassManager);
    assert_eq!(rest[1].kind, Kind::Module);
    assert_eq!(context, 0x10);
}

#[test]
fn close_of_empty_context_releases_context_only() {
    let a = Arena::new(0x10).unwrap();
    assert_eq!(a.context(), 0x10);
    assert_eq!(LLVMInner::<ContextRef>::llvm_inner(&a), 0x10);
    let (rest, context) = a.close();
    assert!(rest.is_empty());
    assert_eq!(context, 0x10);
}

#[test]
fn transfer_refused_when_not_allowed() {
    let mut a = Arena::new(0x10).unwrap();
    let module = root(&mut a, 0x20, Kind::Module);
    let engine = root(&mut a, 0x30, Kind::ExecutionEngine);
    let other = root(&mut a, 0x40, Kind::ExecutionEngine);
    assert!(!a.transfer(module, module));
    assert!(a.transfer(module, engine));
    assert!(!a.transfer(module, other));
    assert!(!a.transfer(engine, module));
    assert_eq!(addr(a.dispose(other)), Some(0x40));
    let spare = root(&mut a, 0x50, Kind::Module);
    assert!(!a.transfer(spare, other));
    assert!(a.is_live_root(spare));
    assert!(!a.is_live_root(module));
    assert!(!a.is_live_root(other));
}

#[test]
fn every_object_released_exactly_once() {
    let mut a = Arena::new(0x10).unwrap();
    let m1 = root(&mut a, 0x20, Kind::Module);
    let m2 = root(&mut a, 0x30, Kind::Module);
    let engine = root(&mut a, 0x40, Kind::ExecutionEngine);
    let builder = root(&mut a, 0x50, Kind::Builder);
    let buffer = root(&mut a, 0x60, Kind::MemoryBuffer);
    assert!(a.transfer(m2, engine));
    let mut released: Vec<usize> = Vec::new();
    for id in [builder, m2, builder, engine, engine, m2] {
        if let Some(s) = a.dispose(id) {
            released.push(s.addr);
        }
    }
    let _ = (m1, buffer);
    let (rest, context) = a.close();
    released.extend(addrs(&rest));
    released.push(context);
    assert_eq!(released, vec![0x50, 0x40, 0x60, 0x20, 0x10]);
}

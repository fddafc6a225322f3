use llama::{Error, FuncPassManager, ModulePassManager, PassManager, Transform};

#[test]
fn null_pass_manager_is_rejected() {
    assert!(matches!(ModulePassManager::new(0), Err(Error::NullPointer)));
    assert!(matches!(FuncPassManager::new(0), Err(Error::NullPointer)));
}

#[test]
fn empty_module_pass_manager_reports_no_change() {
    let pm = ModulePassManager::new(0x50).unwrap();
    assert!(!pm.needs_native_run());
    assert!(!pm.run_result(1));
    assert!(!pm.run_result(0));
}

#[test]
fn add_keeps_enqueued_order() {
    let mut pm = FuncPassManager::new(0x60).unwrap();
    pm.add(&[Transform { id: 3 }, Transform { id: 1 }]);
    pm.add(&[Transform { id: 2 }]);
    let ids: Vec<u32> = pm.transforms().iter().map(|t| t.id).collect();
    assert_eq!(ids, vec![3, 1, 2]);
    assert!(pm.needs_native_run());
}

#[test]
fn run_result_follows_status() {
    let mut pm = ModulePassManager::new(0x70).unwrap();
    pm.add(&[Transform { id: 9 }]);
    assert!(pm.run_result(1));
    assert!(!pm.run_result(0));
}

#[test]
fn add_nothing_leaves_queue_empty() {
    let mut pm = ModulePassManager::new(0x80).unwrap();
    pm.add(&[]);
    assert!(pm.transforms().is_empty());
    assert!(!pm.run_result(1));
}

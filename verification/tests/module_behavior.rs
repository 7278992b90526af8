use py3_hessian2_rsimpl::greeting::helloworld;
use py3_hessian2_rsimpl::registry::register_module;
use py3_hessian2_rsimpl::registry::Registry;
use py3_hessian2_rsimpl::registry::RegistrationError;

#[test]
fn helloworld_returns_the_fixed_literal_bytes() {
    assert_eq!(helloworld(), b"Hello, World from Rust!".to_vec());
}

#[test]
fn helloworld_length_is_twenty_three() {
    assert_eq!(helloworld().len(), 23);
}

#[test]
fn helloworld_decodes_to_the_literal_text() {
    let decoded = String::from_utf8(helloworld()).unwrap();
    assert_eq!(decoded, "Hello, World from Rust!");
}

#[test]
fn repeated_invocations_return_identical_bytes() {
    let first = helloworld();
    let mut n: usize = 0;
    while n < 10 {
        let again = helloworld();
        assert_eq!(again.len(), first.len());
        assert_eq!(again, first);
        n += 1;
    }
}

#[test]
fn fresh_registry_is_empty() {
    let reg = Registry::new();
    assert_eq!(reg.symbol_count(), 0);
    assert!(!reg.is_bound(&String::from("helloworld")));
}

#[test]
fn register_binds_a_new_name() {
    let mut reg = Registry::new();
    let res = reg.register(String::from("helloworld"));
    assert!(res.is_ok());
    assert_eq!(reg.symbol_count(), 1);
    assert!(reg.is_bound(&String::from("helloworld")));
}

#[test]
fn register_rejects_a_duplicate_name() {
    let mut reg = Registry::new();
    assert!(reg.register(String::from("helloworld")).is_ok());
    let res = reg.register(String::from("helloworld"));
    assert_eq!(res, Err(RegistrationError::DuplicateName));
    assert_eq!(reg.symbol_count(), 1);
}

#[test]
fn module_load_exposes_exactly_one_symbol() {
    let mut reg = Registry::new();
    let res = register_module(&mut reg);
    assert!(res.is_ok());
    assert_eq!(reg.symbol_count(), 1);
    assert!(reg.is_bound(&String::from("helloworld")));
    assert!(!reg.is_bound(&String::from("py3_hessian2_rsimpl")));
}

#[test]
fn second_module_load_fails_and_changes_nothing() {
    let mut reg = Registry::new();
    assert!(register_module(&mut reg).is_ok());
    let res = register_module(&mut reg);
    assert_eq!(res, Err(RegistrationError::DuplicateName));
    assert_eq!(reg.symbol_count(), 1);
    assert!(reg.is_bound(&String::from("helloworld")));
}

#[test]
fn registering_distinct_names_keeps_both() {
    let mut reg = Registry::new();
    assert!(reg.register(String::from("helloworld")).is_ok());
    assert!(reg.register(String::from("goodbye")).is_ok());
    assert_eq!(reg.symbol_count(), 2);
    assert!(reg.is_bound(&String::from("helloworld")));
    assert!(reg.is_bound(&String::from("goodbye")));
}

use tumu::error::ErrorKind;
use tumu::ops::{OpRegistry, RegisterError};
use tumu::permission::Category;
use tumu::text::chars_of;

#[test]
fn ops_get_identifiers_in_the_order_of_registration() {
    let mut registry = OpRegistry::new();
    assert_eq!(registry.len(), 0);
    assert!(!registry.is_sealed());
    assert_eq!(registry.register("op_open", Some(Category::Read)), Ok(0));
    assert_eq!(registry.register("op_connect", Some(Category::Net)), Ok(1));
    assert_eq!(registry.register("op_close", None), Ok(2));
    assert_eq!(registry.len(), 3);
    assert_eq!(registry.lookup("op_open"), Some(0));
    assert_eq!(registry.lookup("op_connect"), Some(1));
    assert_eq!(registry.lookup("op_close"), Some(2));
    assert_eq!(registry.lookup("op_missing"), None);
    assert_eq!(registry.lookup_text(&chars_of("op_close")), Some(2));
    let decl = registry.resolve(1).ok().unwrap();
    assert_eq!(decl.name(), &chars_of("op_connect"));
    assert_eq!(decl.needs(), Some(Category::Net));
    assert_eq!(registry.resolve(2).ok().unwrap().needs(), None);
}

#[test]
fn unknown_identifier_is_an_invalid_op() {
    let mut registry = OpRegistry::new();
    assert!(matches!(registry.resolve(0), Err(ErrorKind::InvalidOp)));
    registry.register("op_now", Some(Category::HighResTime)).unwrap();
    assert!(registry.resolve(0).is_ok());
    assert!(matches!(registry.resolve(1), Err(ErrorKind::InvalidOp)));
    assert!(matches!(registry.resolve(usize::MAX), Err(ErrorKind::InvalidOp)));
}

#[test]
fn a_name_cannot_be_registered_twice() {
    let mut registry = OpRegistry::new();
    assert_eq!(registry.register("op_open", Some(Category::Read)), Ok(0));
    assert_eq!(registry.register("op_open", None), Err(RegisterError::Shadowed));
    assert_eq!(registry.len(), 1);
    assert_eq!(registry.resolve(0).ok().unwrap().needs(), Some(Category::Read));
    assert_eq!(registry.register("op_openx", None), Ok(1));
}

#[test]
fn a_sealed_registry_takes_no_op() {
    let mut registry = OpRegistry::new();
    assert_eq!(registry.register("op_open", Some(Category::Read)), Ok(0));
    registry.seal();
    assert!(registry.is_sealed());
    assert_eq!(registry.register("op_evil", None), Err(RegisterError::Sealed));
    assert_eq!(registry.register("op_open", None), Err(RegisterError::Sealed));
    assert_eq!(registry.len(), 1);
    assert_eq!(registry.lookup("op_evil"), None);
    assert_eq!(registry.resolve(0).ok().unwrap().needs(), Some(Category::Read));
    registry.seal();
    assert!(registry.is_sealed());
    assert_eq!(registry.lookup("op_open"), Some(0));
}

use wasmer_engine_universal::registry::{
    FuncDataRegistry, SignatureRegistry, VMCallerCheckedAnyfunc, VMFuncRef,
    VMSharedSignatureIndex,
};
use wasmer_engine_universal::types::{FunctionType, Type};

fn binary() -> FunctionType {
    FunctionType::new(vec![Type::I32, Type::I32], vec![Type::I32])
}

fn unary() -> FunctionType {
    FunctionType::new(vec![Type::I32], vec![Type::I32])
}

#[test]
fn function_types_compare_by_structure() {
    assert!(binary().same_as(&binary()));
    assert!(!binary().same_as(&unary()));
    let swapped = FunctionType::new(vec![Type::I32], vec![Type::I32, Type::I32]);
    assert!(!swapped.same_as(&binary()));
    let other = FunctionType::new(vec![Type::I32, Type::I64], vec![Type::I32]);
    assert!(!other.same_as(&binary()));
    assert_eq!(binary().duplicate(), binary());
}

#[test]
fn registering_twice_gives_the_same_handle() {
    let mut registry = SignatureRegistry::new();
    let first = registry.register(&binary());
    let again = registry.register(&binary());
    assert_eq!(first, again);
    assert_eq!(first, VMSharedSignatureIndex(0));
    assert_eq!(registry.len(), 1);
}

#[test]
fn different_types_get_different_handles() {
    let mut registry = SignatureRegistry::new();
    let first = registry.register(&binary());
    let second = registry.register(&unary());
    assert_ne!(first, second);
    assert_eq!(second, VMSharedSignatureIndex(1));
    assert_eq!(registry.register(&binary()), first);
    assert_eq!(registry.register(&unary()), second);
    assert_eq!(registry.len(), 2);
}

#[test]
fn lookup_gives_the_registered_type() {
    let mut registry = SignatureRegistry::new();
    let handle = registry.register(&unary());
    assert_eq!(registry.lookup(handle), Some(&unary()));
    assert_eq!(registry.lookup(VMSharedSignatureIndex(1)), None);
    assert_eq!(registry.find(&unary()), Some(handle));
    assert_eq!(registry.find(&binary()), None);
}

#[test]
fn function_metadata_is_interned() {
    let mut registry = FuncDataRegistry::new();
    let first = VMCallerCheckedAnyfunc {
        func_ptr: 0x1000,
        type_index: VMSharedSignatureIndex(0),
        vmctx: 0x2000,
    };
    let second = VMCallerCheckedAnyfunc { vmctx: 0x3000, ..first };
    let a = registry.register(first);
    let b = registry.register(second);
    assert_eq!(a, VMFuncRef(0));
    assert_eq!(b, VMFuncRef(1));
    assert_eq!(registry.register(first), a);
    assert_eq!(registry.register(second), b);
    assert_eq!(registry.lookup(a), Some(first));
    assert_eq!(registry.lookup(b), Some(second));
    assert_eq!(registry.lookup(VMFuncRef(2)), None);
}

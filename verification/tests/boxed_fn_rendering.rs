use swift_bridge_ir::boxed_fn::BridgeableBoxedFnOnce;
use swift_bridge_ir::bridged_type::{HostLang, TypeDeclarations, TypePosition};
use swift_bridge_ir::callback_sig::{BridgeableFnTrait, BridgeableFnTraitBound};

fn callback(src: &str) -> BridgeableBoxedFnOnce {
    BridgeableBoxedFnOnce::from_str_tokens_checked(src, &TypeDeclarations::default()).unwrap()
}

#[test]
fn renders_a_boxed_callback_with_primitives() {
    let types = TypeDeclarations::default();
    let cb = callback("Box < dyn FnOnce (u8 , bool) -> u8 >");

    assert_eq!(cb.params_to_c_types(&types), "uint8_t arg0, bool arg1");
    assert_eq!(cb.to_swift_call_args(), "arg0, arg1");
    assert_eq!(cb.swift_callback_call_args(), "arg0, arg1");
    assert_eq!(cb.to_rust_type_path(&types), "Box < dyn FnOnce (u8 , bool) -> u8 >");
    assert_eq!(cb.to_ffi_compatible_rust_type(&types), "*mut Box < dyn FnOnce (u8 , bool) -> u8 >");
    assert_eq!(cb.to_swift_to_rust_ffi_compatible_rust_type(), "*mut std::ffi::c_void");
    assert_eq!(cb.to_swift_closure_type(true, &types, "swift_bridge"), "@escaping (UInt8, Bool) -> UInt8");
    assert_eq!(
        cb.to_swift_type(TypePosition::FnArg(HostLang::Rust, 0), &types, "swift_bridge"),
        "@escaping (UInt8, Bool) -> UInt8"
    );
    assert_eq!(
        cb.to_swift_type(TypePosition::FnReturn(HostLang::Rust), &types, "swift_bridge"),
        "(UInt8, Bool) -> UInt8"
    );
    assert_eq!(
        cb.to_swift_type(TypePosition::FnArg(HostLang::Swift, 0), &types, "swift_bridge"),
        "UnsafeMutableRawPointer"
    );
    assert_eq!(
        cb.convert_ffi_value_to_swift_value(TypePosition::FnArg(HostLang::Rust, 2)),
        "{ arg0, arg1 in cb2.call(arg0, arg1) }"
    );
    assert!(cb.is_fn_once());
    assert!(!cb.does_not_have_params_or_return());
    assert!(!cb.uses_core_no_args_no_return_support());
    assert_eq!(cb.maybe_swift_generics(&types), "");
}

#[test]
fn renders_a_callback_without_arguments() {
    let types = TypeDeclarations::default();
    let cb = callback("Box < dyn FnOnce () >");

    assert!(cb.does_not_have_params_or_return());
    assert!(cb.uses_core_no_args_no_return_support());
    assert_eq!(cb.params_to_c_types(&types), "");
    assert_eq!(
        cb.convert_ffi_value_to_swift_value(TypePosition::FnArg(HostLang::Rust, 0)),
        "{ cb0.call() }"
    );
    assert_eq!(cb.to_rust_type_path(&types), "Box < dyn FnOnce () -> () >");
}

#[test]
fn renders_callback_class_names_and_bounds() {
    let types = TypeDeclarations::default();
    let cb = callback("std :: sync :: Arc < dyn Fn (i32) -> i64 + Send + Sync + 'static >");

    assert_eq!(cb.trait_kind, BridgeableFnTrait::Fn);
    assert_eq!(
        cb.trait_bounds,
        vec![BridgeableFnTraitBound::Send, BridgeableFnTraitBound::Sync, BridgeableFnTraitBound::Static]
    );
    assert_eq!(
        cb.rust_to_swift_callback_class_name("$Foo", "run", 1),
        "__private__RustFnCallback$Foo$run$param1"
    );
    assert_eq!(
        cb.swift_to_rust_callback_class_name("", "run", 0),
        "__private__SwiftFnCallback$run$param0"
    );
    assert_eq!(
        cb.to_rust_type_path(&types),
        "std :: sync :: Arc < dyn Fn (i32) -> i64 + Send + Sync + 'static >"
    );
}

#[test]
fn turns_a_swift_callback_pointer_into_a_rust_closure() {
    let types = TypeDeclarations::default();
    let cb = callback("Box < dyn FnOnce (u8) -> bool + Send >");
    let expected = "{
extern \"C\" {
#[link_name = \"call_link\"]
fn call_fn(callback: *mut std::ffi::c_void, arg0: u8) -> bool;
#[link_name = \"free_link\"]
fn free_fn(callback: *mut std::ffi::c_void);
}
struct __SwiftBridgeCallbackGuard3 {
ptr: *mut std::ffi::c_void,
}
unsafe impl Send for __SwiftBridgeCallbackGuard3 {}
impl __SwiftBridgeCallbackGuard3 {
fn ptr(&self) -> *mut std::ffi::c_void {
self.ptr
}
}
impl Drop for __SwiftBridgeCallbackGuard3 {
fn drop(&mut self) {
unsafe { free_fn(self.ptr) }
}
}
let __swift_bridge_callback3 = __SwiftBridgeCallbackGuard3 { ptr: value };
Box::new(move |arg0| {
let __swift_bridge_ret = unsafe { call_fn(__swift_bridge_callback3.ptr(), arg0) };
__swift_bridge_ret
}) as Box < dyn FnOnce (u8) -> bool + Send >
}";
    assert_eq!(
        cb.to_rust_closure_expression_from_swift_ffi_value(
            "value",
            "call_link",
            "free_link",
            "call_fn",
            "free_fn",
            3,
            "swift_bridge",
            &types
        ),
        expected
    );
}

#[test]
fn renders_swift_callback_bodies_and_ffi_arguments() {
    let types = TypeDeclarations::default();
    let cb = callback("Box < dyn Fn (i32 , u64) -> i8 >");

    assert_eq!(cb.to_from_swift_to_rust_ffi_call_args(&types), ", arg0, arg1");
    assert_eq!(cb.params_to_swift_types(&types, "swift_bridge"), "_ arg0: Int32, _ arg1: UInt64");
    assert_eq!(cb.params_to_swift_ffi_types(&types, "swift_bridge"), "_ arg0: Int32, _ arg1: UInt64");
    assert_eq!(
        cb.swift_callback_params_from_ffi_conversions(&types, "swift_bridge"),
        "let arg0 = arg0\n    let arg1 = arg1"
    );
    assert_eq!(cb.swift_callback_return("value", &types), "value");
    assert_eq!(cb.to_rust_call_args("swift_bridge", &types), vec!["arg0", "arg1"]);
    assert_eq!(
        cb.params_to_ffi_compatible_rust_types("swift_bridge", &types),
        vec!["arg0: i32", "arg1: u64"]
    );
    assert_eq!(
        cb.convert_rust_value_to_ffi_compatible_value("f", &types),
        "Box::into_raw(Box::new(f)) as *mut Box < dyn Fn (i32 , u64) -> i8 >"
    );
}

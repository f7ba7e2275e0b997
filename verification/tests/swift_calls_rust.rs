use swift_bridge_ir::bridged_type::{ExprTemplate, HostLang, TemplatePiece};
use swift_bridge_ir::swift_calls_rust::{
    gen_func_swift_calls_rust, gen_func_swift_calls_rust_with_struct_refs,
    has_immutable_opaque_rust_ref_arg, push_receiver_as_arg, to_swift_call_args,
    to_swift_param_names_and_types, to_swift_return_type, ArgKind, BuiltInReturn, CallArg,
    FailableInitializerType, OpaqueRef, OpaqueRustRefSwiftRepr, ReturnType, ReturnValue, StrArg,
    SwiftCallsRust,
};

fn arg(name: &str, swift_type: &str) -> CallArg {
    CallArg {
        kind: ArgKind::Typed,
        is_reference: false,
        name: name.to_string(),
        label: None,
        swift_type: swift_type.to_string(),
        to_ffi: ExprTemplate::identity(),
        opaque: None,
        str_arg: StrArg::Other,
    }
}

fn receiver(is_reference: bool) -> CallArg {
    CallArg {
        kind: ArgKind::Receiver,
        is_reference,
        name: "self".to_string(),
        label: None,
        swift_type: String::new(),
        to_ffi: ExprTemplate::identity(),
        opaque: None,
        str_arg: StrArg::Other,
    }
}

fn suffix_template(suffix: &str) -> ExprTemplate {
    ExprTemplate { pieces: vec![TemplatePiece::Expr, TemplatePiece::Text(suffix.to_string())] }
}

fn built_in(is_null: bool, swift_type: &str) -> BuiltInReturn {
    BuiltInReturn {
        is_null,
        to_swift: ExprTemplate::identity(),
        to_swift_throwing_init: ExprTemplate::identity(),
        async_swift_type: swift_type.to_string(),
        result_ffi_swift_type: swift_type.to_string(),
        to_swift_result_ffi: ExprTemplate::identity(),
        async_result_callback: None,
    }
}

fn written_return(swift_type: &str) -> Option<ReturnType> {
    Some(ReturnType {
        swift_type: swift_type.to_string(),
        is_result: false,
        zero_bytes: false,
        opaque: None,
    })
}

fn function(name: &str, args: Vec<CallArg>) -> SwiftCallsRust {
    SwiftCallsRust {
        fn_name: name.to_string(),
        is_async: false,
        host_lang: HostLang::Rust,
        associated_type: None,
        is_method: false,
        is_swift_initializer: false,
        is_copy_method_on_opaque_type: false,
        failable: None,
        swift_name_override: None,
        args,
        output: None,
        ret: ReturnValue::BuiltIn(built_in(true, "()")),
        swift_generics: String::new(),
    }
}

fn opaque_ref(name: &str) -> OpaqueRef {
    OpaqueRef {
        rust_host: true,
        reference: true,
        mutable: false,
        has_copy_annotation: false,
        swift_struct_ref_name: name.to_string(),
    }
}

#[test]
fn free_function_with_a_str_argument() {
    let mut s = arg("b", "GenericToRustStr");
    s.str_arg = StrArg::Str;
    s.to_ffi = suffix_template("AsRustStr");
    let mut f = function("add", vec![arg("a", "UInt8"), s]);
    f.output = written_return("UInt8");
    f.ret = ReturnValue::BuiltIn(built_in(false, "UInt8"));
    f.swift_generics = "<GenericToRustStr: ToRustStr>".to_string();

    assert_eq!(
        gen_func_swift_calls_rust(&f, "swift_bridge"),
        "public func add<GenericToRustStr: ToRustStr>(_ a: UInt8, _ b: GenericToRustStr) -> UInt8 {\n    return b.toRustStr({ bAsRustStr in\n        __swift_bridge__$add(a, bAsRustStr)\n    })\n}"
    );
}

#[test]
fn method_with_a_labelled_argument() {
    let mut x = arg("x", "UInt32");
    x.label = Some("forKey".to_string());
    let mut f = function("bar", vec![receiver(true), x]);
    f.associated_type = Some("Foo".to_string());
    f.is_method = true;

    assert_eq!(
        gen_func_swift_calls_rust(&f, "swift_bridge"),
        "    public func bar(forKey x: UInt32) {\n        __swift_bridge__$Foo$bar(ptr, x)\n    }"
    );
}

#[test]
fn optional_initializer() {
    let mut f = function("new", vec![]);
    f.associated_type = Some("Foo".to_string());
    f.is_swift_initializer = true;
    f.failable = Some(FailableInitializerType::Optional);
    f.output = written_return("Foo");
    f.ret = ReturnValue::Shared;

    assert_eq!(
        gen_func_swift_calls_rust(&f, "swift_bridge"),
        "    public convenience init?() {\n        guard let val = __swift_bridge__$Foo$new() else { return nil }; self.init(ptr: val)\n    }"
    );
}

#[test]
fn plain_initializer_and_copy_initializer() {
    let mut f = function("new", vec![arg("v", "Int32")]);
    f.associated_type = Some("Foo".to_string());
    f.is_swift_initializer = true;
    f.ret = ReturnValue::Shared;
    assert_eq!(
        gen_func_swift_calls_rust(&f, "swift_bridge"),
        "    public convenience init(_ v: Int32) {\n        self.init(ptr: __swift_bridge__$Foo$new(v))\n    }"
    );

    f.is_copy_method_on_opaque_type = true;
    assert_eq!(
        gen_func_swift_calls_rust(&f, "swift_bridge"),
        "    public init(_ v: Int32) {\n        self.bytes = __swift_bridge__$Foo$new(v)\n    }"
    );
}

#[test]
fn static_function_returning_an_owned_opaque_type() {
    let mut f = function("make", vec![]);
    f.associated_type = Some("Foo".to_string());
    f.output = written_return("Foo");
    f.ret = ReturnValue::Opaque {
        ty: "Foo".to_string(),
        full_ty: "Foo".to_string(),
        reference: false,
        rust_host: true,
    };

    assert_eq!(
        gen_func_swift_calls_rust(&f, "swift_bridge"),
        "    class public func make() -> Foo {\n        Foo(ptr: __swift_bridge__$Foo$make(), isOwned: true)\n    }"
    );
}

#[test]
fn swift_opaque_type_is_taken_back_from_unmanaged() {
    let mut f = function("make", vec![]);
    f.output = written_return("SwiftType");
    f.ret = ReturnValue::Opaque {
        ty: "SwiftType".to_string(),
        full_ty: "SwiftType".to_string(),
        reference: false,
        rust_host: false,
    };

    assert_eq!(
        gen_func_swift_calls_rust(&f, "swift_bridge"),
        "public func make() -> SwiftType {\n    Unmanaged<SwiftType>.fromOpaque(__swift_bridge__$make()).takeRetainedValue()\n}"
    );
}

#[test]
fn async_function_returning_a_number() {
    let mut f = function("fetch", vec![]);
    f.is_async = true;
    f.output = written_return("UInt8");
    f.ret = ReturnValue::BuiltIn(built_in(false, "UInt8"));

    let expected = "public func fetch() async -> UInt8 {
    func onComplete(cbWrapperPtr: UnsafeMutableRawPointer?, rustFnRetVal: UInt8) {
        let wrapper = Unmanaged<CbWrapper$fetch>.fromOpaque(cbWrapperPtr!).takeRetainedValue()
        wrapper.cb(.success(rustFnRetVal))
    }

    return await withCheckedContinuation({ (continuation: CheckedContinuation<UInt8, Never>) in
        let callback = { rustFnRetVal in
            continuation.resume(with: rustFnRetVal)
        }

        let wrapper = CbWrapper$fetch(cb: callback)
        let wrapperPtr = Unmanaged.passRetained(wrapper).toOpaque()

        __swift_bridge__$fetch(wrapperPtr, onComplete)
    })
}
class CbWrapper$fetch {
    var cb: (Result<UInt8, Never>) -> ()

    public init(cb: @escaping (Result<UInt8, Never>) -> ()) {
        self.cb = cb
    }
}";
    assert_eq!(gen_func_swift_calls_rust(&f, "swift_bridge"), expected);
}

#[test]
fn async_method_returning_a_result() {
    let mut f = function("load", vec![receiver(true), arg("n", "Int32")]);
    f.is_async = true;
    f.associated_type = Some("Foo".to_string());
    f.is_method = true;
    f.output = Some(ReturnType {
        swift_type: "UInt8".to_string(),
        is_result: true,
        zero_bytes: false,
        opaque: None,
    });
    let mut b = built_in(false, "UInt8");
    b.result_ffi_swift_type = "ResultUInt8".to_string();
    b.async_result_callback = Some("wrapper.cb(rustFnRetVal.intoSwift())".to_string());
    f.ret = ReturnValue::BuiltIn(b);

    let expected = "    public func load(_ n: Int32) async throws -> UInt8 {
        func onComplete(cbWrapperPtr: UnsafeMutableRawPointer?, rustFnRetVal: ResultUInt8) {
            let wrapper = Unmanaged<CbWrapper$Foo$load>.fromOpaque(cbWrapperPtr!).takeRetainedValue()
            wrapper.cb(rustFnRetVal.intoSwift())
        }

        return try await withCheckedThrowingContinuation({ (continuation: CheckedContinuation<UInt8, Error>) in
            let callback = { rustFnRetVal in
                continuation.resume(with: rustFnRetVal)
            }

            let wrapper = CbWrapper$Foo$load(cb: callback)
            let wrapperPtr = Unmanaged.passRetained(wrapper).toOpaque()

            __swift_bridge__$Foo$load(wrapperPtr, onComplete, ptr, n)
        })
    }
    class CbWrapper$Foo$load {
        var cb: (Result<UInt8, Error>) -> ()
    
        public init(cb: @escaping (Result<UInt8, Error>) -> ()) {
            self.cb = cb
        }
    }";
    assert_eq!(gen_func_swift_calls_rust(&f, "swift_bridge"), expected);
}

#[test]
fn struct_refs_replace_immutable_opaque_references() {
    let mut o = arg("other", "FooRef");
    o.opaque = Some(opaque_ref("FooRefStruct"));
    let mut f = function("compare", vec![o]);
    f.output = Some(ReturnType {
        swift_type: "FooRef".to_string(),
        is_result: false,
        zero_bytes: false,
        opaque: Some(opaque_ref("FooRefStruct")),
    });
    f.ret = ReturnValue::BuiltIn(built_in(false, "FooRef"));

    assert!(has_immutable_opaque_rust_ref_arg(&f));
    assert_eq!(
        gen_func_swift_calls_rust_with_struct_refs(&f, "swift_bridge"),
        "public func compare(_ other: FooRefStruct) -> FooRefStruct {\n    FooRefStruct(ptr: __swift_bridge__$compare(other.ptr))\n}"
    );
    assert_eq!(
        gen_func_swift_calls_rust(&f, "swift_bridge"),
        "public func compare(_ other: FooRef) -> FooRef {\n    __swift_bridge__$compare(other)\n}"
    );
}

#[test]
fn mutable_or_copy_references_are_not_struct_refs() {
    let mut o = arg("other", "FooRefMut");
    let mut r = opaque_ref("FooRefStruct");
    r.mutable = true;
    o.opaque = Some(r);
    let f = function("touch", vec![o]);
    assert!(!has_immutable_opaque_rust_ref_arg(&f));
}

#[test]
fn call_args_with_names_and_labels() {
    let mut a = arg("a", "Int32");
    a.label = Some("_".to_string());
    let mut b = arg("b", "Int32");
    b.label = Some("with".to_string());
    b.to_ffi = suffix_template(".intoFfi()");
    let c = arg("c", "Bool");
    let f = function("f", vec![receiver(false), a, b, c]);

    assert_eq!(
        to_swift_call_args(&f, true, true, "swift_bridge", OpaqueRustRefSwiftRepr::Class),
        "{isOwned = false; return ptr;}(), a, with: b.intoFfi(), c: c"
    );
    assert_eq!(
        to_swift_param_names_and_types(&f, true, OpaqueRustRefSwiftRepr::Class),
        "_ this: UnsafeMutableRawPointer, _ a: Int32, with b: Int32, _ c: Bool"
    );
}

#[test]
fn receiver_arguments() {
    let mut f = function("f", vec![]);
    let mut args = Vec::new();
    push_receiver_as_arg(&f, &mut args, true);
    push_receiver_as_arg(&f, &mut args, false);
    f.is_copy_method_on_opaque_type = true;
    push_receiver_as_arg(&f, &mut args, true);
    assert_eq!(args, vec!["ptr", "{isOwned = false; return ptr;}()", "self.bytes"]);
}

#[test]
fn return_types_of_results_and_swift_zero_byte_types() {
    let mut f = function("f", vec![]);
    f.output = Some(ReturnType {
        swift_type: "RustResult<UInt8, RustString>".to_string(),
        is_result: true,
        zero_bytes: false,
        opaque: None,
    });
    assert_eq!(
        to_swift_return_type(&f, OpaqueRustRefSwiftRepr::Class),
        " throws -> RustResult<UInt8, RustString>"
    );

    f.host_lang = HostLang::Swift;
    f.output = Some(ReturnType {
        swift_type: "()".to_string(),
        is_result: false,
        zero_bytes: true,
        opaque: None,
    });
    assert_eq!(to_swift_return_type(&f, OpaqueRustRefSwiftRepr::Class), "");
}

#[test]
fn struct_refs_change_nothing_without_opaque_references() {
    let mut f = function("add", vec![arg("a", "UInt8"), arg("b", "UInt8")]);
    f.output = written_return("UInt8");
    f.ret = ReturnValue::BuiltIn(built_in(false, "UInt8"));
    assert_eq!(
        gen_func_swift_calls_rust(&f, "swift_bridge"),
        gen_func_swift_calls_rust_with_struct_refs(&f, "swift_bridge")
    );
}

#[test]
fn argument_label() {
    let mut a = arg("parameter_name1", "Int32");
    a.label = Some("argumentLabel1".to_string());
    let mut b = arg("parameter_name2", "UInt32");
    b.label = Some("argumentLabel2".to_string());
    let f = function("some_function", vec![a, b]);

    let swift = gen_func_swift_calls_rust(&f, "swift_bridge");
    assert!(swift.contains(
        "public func some_function(argumentLabel1 parameter_name1: Int32, argumentLabel2 parameter_name2: UInt32) {\n    __swift_bridge__$some_function(parameter_name1, parameter_name2)\n}"
    ));
}

#[test]
fn argument_label_argument_label() {
    let mut a = arg("parameter_name1", "Int32");
    a.label = Some("argumentLabel1".to_string());
    let b = arg("parameter_name2", "UInt32");
    let f = function("some_function", vec![a, b]);

    let swift = gen_func_swift_calls_rust(&f, "swift_bridge");
    assert!(swift.contains(
        "public func some_function(argumentLabel1 parameter_name1: Int32, _ parameter_name2: UInt32) {\n    __swift_bridge__$some_function(parameter_name1, parameter_name2)\n}"
    ));
}

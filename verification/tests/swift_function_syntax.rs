use proc_macro2::{Delimiter as PDelimiter, Group, Ident, Literal, Punct, Spacing, Span, TokenStream, TokenTree};
use swift_bridge_ir::snake_case::to_snake_case;
use swift_bridge_ir::swift_func::{
    normalize_swift_function_syntax, track_generated_rust_name, try_normalize_swift_function_syntax,
};
use swift_bridge_ir::swift_types::{normalize_swift_type, SwiftSyntaxError};
use swift_bridge_ir::tokens::{Delimiter, Tok};

fn to_toks(ts: TokenStream) -> Vec<Tok> {
    ts.into_iter()
        .map(|tt| match tt {
            TokenTree::Ident(i) => Tok::Ident(i.to_string()),
            TokenTree::Punct(p) => Tok::Punct(p.as_char(), p.spacing() == Spacing::Joint),
            TokenTree::Literal(l) => Tok::Literal(l.to_string()),
            TokenTree::Group(g) => {
                let d = match g.delimiter() {
                    PDelimiter::Parenthesis => Delimiter::Parenthesis,
                    PDelimiter::Brace => Delimiter::Brace,
                    PDelimiter::Bracket => Delimiter::Bracket,
                    PDelimiter::None => Delimiter::Invisible,
                };
                Tok::Group(d, to_toks(g.stream()))
            }
        })
        .collect()
}

fn from_toks(v: &[Tok]) -> TokenStream {
    v.iter()
        .map(|t| -> TokenTree {
            match t {
                Tok::Ident(s) => match s.strip_prefix("r#") {
                    Some(raw) => Ident::new_raw(raw, Span::call_site()).into(),
                    None => Ident::new(s, Span::call_site()).into(),
                },
                Tok::Punct(c, joint) => {
                    let spacing = if *joint { Spacing::Joint } else { Spacing::Alone };
                    Punct::new(*c, spacing).into()
                }
                Tok::Literal(s) => s.parse::<Literal>().unwrap().into(),
                Tok::Group(d, g) => {
                    let d = match d {
                        Delimiter::Parenthesis => PDelimiter::Parenthesis,
                        Delimiter::Brace => PDelimiter::Brace,
                        Delimiter::Bracket => PDelimiter::Bracket,
                        Delimiter::Invisible => PDelimiter::None,
                    };
                    Group::new(d, from_toks(g)).into()
                }
            }
        })
        .collect()
}

/// Spaces punctuation as `quote!` does: joined only inside `::`, `->`, `=>`
/// and before a lifetime's name.
fn quote_spacing(v: &[Tok]) -> Vec<Tok> {
    let mut out = Vec::new();
    for (i, t) in v.iter().enumerate() {
        let next = match v.get(i + 1) {
            Some(Tok::Punct(c, _)) => Some(*c),
            _ => None,
        };
        out.push(match t {
            Tok::Punct(c, joint) => {
                let op = matches!((*c, next), (':', Some(':')) | ('-', Some('>')) | ('=', Some('>')));
                Tok::Punct(*c, *joint && (*c == '\'' || op))
            }
            Tok::Group(d, g) => Tok::Group(*d, quote_spacing(g)),
            other => other.copy(),
        });
    }
    out
}

fn lex(s: &str) -> Vec<Tok> {
    quote_spacing(&to_toks(s.parse::<TokenStream>().unwrap()))
}

fn normalize(src: &str) -> Result<String, SwiftSyntaxError> {
    normalize_swift_function_syntax(&lex(src)).map(|v| from_toks(&v).to_string())
}

fn assert_normalizes_to(src: &str, expected: &str) {
    let normalized = normalize(src).unwrap_or_else(|e| panic!("{}", e.message()));
    let expected = from_toks(&lex(expected)).to_string();
    assert_eq!(normalized, expected);
}

#[test]
fn normalizes_swift_func_to_rust_foreign_fn() {
    assert_normalizes_to(
        r#"extern "Swift" {
            func fetchUser(_ id: UserId, includePosts include_posts: bool, limit: u32) -> User;
        }"#,
        r#"extern "Swift" {
            #[swift_bridge(swift_name = "fetchUser")]
            fn fetch_user(
                #[swift_bridge(label = "_")] id: UserId,
                #[swift_bridge(label = "includePosts")] include_posts: bool,
                limit: u32
            ) -> User;
        }"#,
    );
}

#[test]
fn leaves_rust_foreign_fn_unchanged() {
    let src = r#"extern "Swift" {
        fn some_function(arg: u32);
    }"#;
    assert_normalizes_to(src, src);
}

#[test]
fn converts_lower_camel_and_acronyms_to_snake_case() {
    assert_eq!(to_snake_case("fetchUser"), "fetch_user");
    assert_eq!(to_snake_case("URLRequest"), "url_request");
    assert_eq!(to_snake_case("userID"), "user_id");
}

#[test]
fn normalizes_swift_func_with_rust_name_override() {
    assert_normalizes_to(
        r#"extern "Swift" {
            #[swift_bridge(rust_name = "call_custom")]
            func callCustom(_ value: i32);
        }"#,
        r#"extern "Swift" {
            #[swift_bridge(swift_name = "callCustom")]
            #[swift_bridge(rust_name = "call_custom")]
            fn call_custom(#[swift_bridge(label = "_")] value: i32);
        }"#,
    );
}

#[test]
fn normalizes_swift_func_macro_to_rust_foreign_fn() {
    assert_normalizes_to(
        r#"extern "Swift" {
            #[swift_bridge(rust_name = "call_custom")]
            func!(callCustom(_ value: Int32, forKey key: UInt32) -> UInt32);
        }"#,
        r#"extern "Swift" {
            #[swift_bridge(swift_name = "callCustom")]
            #[swift_bridge(rust_name = "call_custom")]
            fn call_custom(
                #[swift_bridge(label = "_")] value: i32,
                #[swift_bridge(label = "forKey")] key: u32
            ) -> u32;
        }"#,
    );
}

#[test]
fn normalizes_func_macro_to_instance_method_when_extern_swift_has_one_type() {
    assert_normalizes_to(
        r#"extern "Swift" {
            type Foo;

            func!(bar(_ value: Int64));
        }"#,
        r#"extern "Swift" {
            type Foo;

            #[swift_bridge(swift_name = "bar")]
            fn bar(&self, #[swift_bridge(label = "_")] value: i64);
        }"#,
    );
}

#[test]
fn normalizes_static_func_macro_to_associated_function() {
    assert_normalizes_to(
        r#"extern "Swift" {
            type Foo;

            static_func!(bar(_ value: Int64));
        }"#,
        r#"extern "Swift" {
            type Foo;

            #[swift_bridge(swift_name = "bar")]
            #[swift_bridge(associated_to = Foo)]
            fn bar(#[swift_bridge(label = "_")] value: i64);
        }"#,
    );
}

#[test]
fn normalizes_init_attribute_func_macro_as_associated_initializer() {
    assert_normalizes_to(
        r#"extern "Swift" {
            type Foo;

            #[swift_bridge(init)]
            func!(bar(_ value: Int64));
        }"#,
        r#"extern "Swift" {
            type Foo;

            #[swift_bridge(swift_name = "bar")]
            #[swift_bridge(associated_to = Foo)]
            #[swift_bridge(init)]
            fn bar(#[swift_bridge(label = "_")] value: i64) -> Foo;
        }"#,
    );
}

#[test]
fn normalizes_init_func_macro_as_initializer() {
    assert_normalizes_to(
        r#"extern "Swift" {
            type Foo;

            func!(init(_ value: Int64));
        }"#,
        r#"extern "Swift" {
            type Foo;

            #[swift_bridge(swift_name = "init")]
            #[swift_bridge(associated_to = Foo)]
            #[swift_bridge(init)]
            fn new(#[swift_bridge(label = "_")] value: i64) -> Foo;
        }"#,
    );
}

#[test]
fn normalizes_swift_builtin_types_to_rust_types() {
    assert_normalizes_to(
        r#"extern "Swift" {
            func!(
                setValues(
                    _ u8Value: UInt8,
                    i8Value: Int8,
                    u16Value: UInt16,
                    i16Value: Int16,
                    u32Value: UInt32,
                    i32Value: Int32,
                    u64Value: UInt64,
                    i64Value: Int64,
                    uintValue: UInt,
                    intValue: Int,
                    floatValue: Float,
                    doubleValue: Double,
                    boolValue: Bool
                ) -> Void
            );
        }"#,
        r#"extern "Swift" {
            #[swift_bridge(swift_name = "setValues")]
            fn set_values(
                #[swift_bridge(label = "_")] u8_value: u8,
                i8_value: i8,
                u16_value: u16,
                i16_value: i16,
                u32_value: u32,
                i32_value: i32,
                u64_value: u64,
                i64_value: i64,
                uint_value: usize,
                int_value: isize,
                float_value: f32,
                double_value: f64,
                bool_value: bool
            ) -> ();
        }"#,
    );
}

#[test]
fn normalizes_swift_bridge_generic_types_to_rust_types() {
    assert_normalizes_to(
        r#"extern "Swift" {
            func!(
                loadValues(
                    _ values: RustVec<UInt32>,
                    maybeEnabled: Optional<Bool>,
                    result: RustResult<String, SomeError>
                ) -> Optional<RustVec<Int32>>
            );
        }"#,
        r#"extern "Swift" {
            #[swift_bridge(swift_name = "loadValues")]
            fn load_values(
                #[swift_bridge(label = "_")] values: Vec<u32>,
                maybe_enabled: Option<bool>,
                result: Result<String, SomeError>
            ) -> Option<Vec<i32> >;
        }"#,
    );
}

#[test]
fn normalizes_swift_pointer_types_to_rust_types() {
    assert_normalizes_to(
        r#"extern "Swift" {
            func!(
                readPointers(
                    _ bytes: UnsafePointer<UInt8>,
                    output: UnsafeMutablePointer<Int32>,
                    raw: UnsafeRawPointer,
                    mutableRaw: UnsafeMutableRawPointer
                )
            );
        }"#,
        r#"extern "Swift" {
            #[swift_bridge(swift_name = "readPointers")]
            fn read_pointers(
                #[swift_bridge(label = "_")] bytes: *const u8,
                output: *mut i32,
                raw: *const std::ffi::c_void,
                mutable_raw: *mut std::ffi::c_void
            );
        }"#,
    );
}

#[test]
fn normalizes_async_swift_func_macro_to_rust_foreign_fn() {
    assert_normalizes_to(
        r#"extern "Swift" {
            func!(async fetchUser(_ id: UserId) -> User);
        }"#,
        r#"extern "Swift" {
            #[swift_bridge(swift_name = "fetchUser")]
            async fn fetch_user(#[swift_bridge(label = "_")] id: UserId) -> User;
        }"#,
    );
}

#[test]
fn errors_when_swift_funcs_generate_duplicate_rust_name() {
    let err = normalize(
        r#"extern "Swift" {
            func loadURL();
            func loadUrl();
        }"#,
    )
    .unwrap_err();
    let err = err.message();

    assert!(err.contains(
        "multiple Swift `func` or `static_func` declarations generate the Rust function name `load_url`"
    ));
}

#[test]
fn rust_name_override_resolves_auto_name_conflict() {
    assert_normalizes_to(
        r#"extern "Swift" {
            func loadURL();
            #[swift_bridge(rust_name = "load_url_2")]
            func loadUrl();
        }"#,
        r#"extern "Swift" {
            #[swift_bridge(swift_name = "loadURL")]
            fn load_url();
            #[swift_bridge(swift_name = "loadUrl")]
            #[swift_bridge(rust_name = "load_url_2")]
            fn load_url_2();
        }"#,
    );
}

#[test]
fn async_written_twice_is_an_error() {
    let err = normalize(r#"extern "Swift" { func!(async fetch() async); }"#).unwrap_err();
    assert!(matches!(err, SwiftSyntaxError::AsyncTwice));
}

#[test]
fn static_func_without_a_type_is_an_error() {
    let err = normalize(r#"extern "Swift" { static_func!(make()); }"#).unwrap_err();
    assert!(matches!(err, SwiftSyntaxError::StaticFuncWithoutType));
}

#[test]
fn static_func_with_associated_to_needs_no_type() {
    assert_normalizes_to(
        r#"extern "Swift" { #[swift_bridge(associated_to = Foo)] static_func!(make() -> Int); }"#,
        r#"extern "Swift" {
            #[swift_bridge(swift_name = "make")]
            #[swift_bridge(associated_to = Foo)]
            fn make() -> isize;
        }"#,
    );
}

#[test]
fn invalid_rust_name_is_an_error() {
    let err = normalize(r#"extern "Swift" { #[swift_bridge(rust_name = "not an ident")] func f(); }"#)
        .unwrap_err();
    assert!(matches!(err, SwiftSyntaxError::InvalidRustName));
}

#[test]
fn malformed_bridge_attribute_is_an_error() {
    let err = normalize(r#"extern "Swift" { #[swift_bridge = 1] func f(); }"#).unwrap_err();
    assert!(matches!(err, SwiftSyntaxError::AttributeArgs));
}

#[test]
fn pointer_with_two_arguments_is_an_error() {
    let err = normalize(r#"extern "Swift" { func f(p: UnsafePointer<UInt8, UInt8>); }"#).unwrap_err();
    assert!(matches!(&err, SwiftSyntaxError::PointerArity(name) if name == "UnsafePointer"));
    assert_eq!(err.message(), "`UnsafePointer` must have exactly one generic type argument");
}

#[test]
fn mutable_pointer_error_names_the_type_written() {
    let err = normalize(r#"extern "Swift" { func f(p: UnsafeMutablePointer<UInt8, UInt8>); }"#).unwrap_err();
    assert_eq!(err.message(), "`UnsafeMutablePointer` must have exactly one generic type argument");
}

#[test]
fn broken_swift_func_is_a_syntax_error() {
    let err = normalize(r#"extern "Swift" { func f(x); }"#).unwrap_err();
    assert!(matches!(err, SwiftSyntaxError::Syntax));
}

#[test]
fn other_abi_blocks_are_untouched() {
    let src = r#"extern "C" { func f(x: UInt8); } mod m { extern "Rust" { func g(); } }"#;
    assert_normalizes_to(src, src);
}

#[test]
fn nested_swift_blocks_are_rewritten() {
    assert_normalizes_to(
        r#"mod ffi { extern "Swift" { func ping(); } }"#,
        r#"mod ffi { extern "Swift" { #[swift_bridge(swift_name = "ping")] fn ping(); } }"#,
    );
}

#[test]
fn raw_identifier_names_are_refused() {
    let toks = lex(r#"extern "Swift" { func r#fooBar(); }"#);
    assert!(try_normalize_swift_function_syntax(&toks).is_none());
}

#[test]
fn types_are_printed_with_separate_closing_brackets() {
    assert_normalizes_to(
        r#"extern "Swift" { func f(x: Vec<Vec<UInt8>>, y: &'a str, z: [RustVec<Int>; 2]); }"#,
        r#"extern "Swift" {
            #[swift_bridge(swift_name = "f")]
            fn f(x: Vec<Vec<u8> >, y: & 'a str, z: [RustVec<Int> ; 2]);
        }"#,
    );
}

#[test]
fn normalizes_nested_swift_types() {
    let ty = lex("Optional<(UnsafeMutablePointer<Bool>, RustStr)>");
    let out = normalize_swift_type(&ty).unwrap_or_else(|e| panic!("{}", e.message()));
    assert_eq!(
        from_toks(&out).to_string(),
        from_toks(&lex("Option < (* mut bool , & str) >")).to_string()
    );
}

#[test]
fn normalizes_generic_arguments_of_paths_and_fn_traits() {
    let ty = lex("std::option::Option<UInt8>");
    let out = normalize_swift_type(&ty).unwrap_or_else(|e| panic!("{}", e.message()));
    assert_eq!(
        from_toks(&out).to_string(),
        from_toks(&lex("std::option::Option<u8>")).to_string()
    );

    let ty = lex("Box<dyn Fn(UInt8, RustStr) -> Bool>");
    let out = normalize_swift_type(&ty).unwrap_or_else(|e| panic!("{}", e.message()));
    assert_eq!(
        from_toks(&out).to_string(),
        from_toks(&lex("Box<dyn Fn(UInt8, RustStr) -> Bool>")).to_string()
    );

    let ty = lex("Arc<Fn(UInt8) -> Bool>");
    let out = normalize_swift_type(&ty).unwrap_or_else(|e| panic!("{}", e.message()));
    assert_eq!(
        from_toks(&out).to_string(),
        from_toks(&lex("Arc<Fn(u8) -> bool>")).to_string()
    );

    let ty = lex("Optional::<Bool>");
    let out = normalize_swift_type(&ty).unwrap_or_else(|e| panic!("{}", e.message()));
    assert_eq!(from_toks(&out).to_string(), from_toks(&lex("Option::<bool>")).to_string());

    let ty = lex("fn(UInt8) -> Bool");
    let out = normalize_swift_type(&ty).unwrap_or_else(|e| panic!("{}", e.message()));
    assert_eq!(from_toks(&out).to_string(), from_toks(&lex("fn(UInt8) -> Bool")).to_string());
}

#[test]
fn pointer_to_a_lifetime_is_an_error() {
    let err = normalize(r#"extern "Swift" { func f(p: UnsafePointer<'a>); }"#).unwrap_err();
    assert!(matches!(&err, SwiftSyntaxError::PointerArgument(name) if name == "UnsafePointer"));
    assert_eq!(err.message(), "`UnsafePointer` must have a type argument");
}

#[test]
fn a_parameter_type_that_is_not_a_type_is_an_error() {
    let err = normalize(r#"extern "Swift" { func f(x: u32 u32); }"#).unwrap_err();
    assert!(matches!(err, SwiftSyntaxError::Syntax));
}

#[test]
fn rust_name_is_the_identifier_the_literal_holds() {
    assert_normalizes_to(
        r#"extern "Swift" { #[swift_bridge(rust_name = " spaced ")] func f(); }"#,
        r#"extern "Swift" {
            #[swift_bridge(swift_name = "f")]
            #[swift_bridge(rust_name = " spaced ")]
            fn spaced();
        }"#,
    );
}

#[test]
fn snake_case_is_idempotent_and_keeps_snake_names() {
    for name in ["fetchUser", "URLRequest", "userID", "already_snake", "HTTPServer2Go"] {
        let once = to_snake_case(name);
        assert_eq!(to_snake_case(&once), once);
        assert!(!once.chars().any(|c| c.is_ascii_uppercase()));
    }
    assert_eq!(to_snake_case("already_snake"), "already_snake");
    assert_eq!(to_snake_case("HTTPServer2Go"), "http_server2_go");
}

#[test]
fn method_with_visibility_and_attributes_on_parameters() {
    assert_normalizes_to(
        r#"extern "Swift" {
            type Counter;
            pub(crate) func increment(#[doc = "n"] by amount: UInt32) -> Bool;
        }"#,
        r#"extern "Swift" {
            type Counter;
            #[swift_bridge(swift_name = "increment")]
            pub(crate) fn increment(&self, #[doc = "n"] #[swift_bridge(label = "by")] amount: u32) -> bool;
        }"#,
    );
}

#[test]
fn qualified_paths_have_their_path_arguments_normalized() {
    let ty = lex("<T as Tr>::A<UInt8>");
    let out = normalize_swift_type(&ty).unwrap_or_else(|e| panic!("{}", e.message()));
    assert_eq!(from_toks(&out).to_string(), from_toks(&lex("<T as Tr>::A<u8>")).to_string());

    let ty = lex("<T as Tr<UInt8>>::A");
    let out = normalize_swift_type(&ty).unwrap_or_else(|e| panic!("{}", e.message()));
    assert_eq!(from_toks(&out).to_string(), from_toks(&lex("<T as Tr<u8>>::A")).to_string());

    let ty = lex("<RustVec<UInt8> as Tr>::A");
    let out = normalize_swift_type(&ty).unwrap_or_else(|e| panic!("{}", e.message()));
    assert_eq!(from_toks(&out).to_string(), from_toks(&lex("<RustVec<UInt8> as Tr>::A")).to_string());

    let ty = lex("<T>::Item<Optional<Bool>>");
    let out = normalize_swift_type(&ty).unwrap_or_else(|e| panic!("{}", e.message()));
    assert_eq!(from_toks(&out).to_string(), from_toks(&lex("<T>::Item<Option<bool>>")).to_string());
}

#[test]
fn leading_and_trailing_async_rewrite_alike() {
    let lead = normalize(r#"extern "Swift" { func!(async fetchIsEnabled() -> Bool); }"#).unwrap_or_else(|e| panic!("{}", e.message()));
    let trail = normalize(r#"extern "Swift" { func!(fetchIsEnabled() async -> Bool); }"#).unwrap_or_else(|e| panic!("{}", e.message()));
    assert_eq!(lead, trail);
    assert_normalizes_to(
        r#"extern "Swift" { func fetchIsEnabled() async -> Bool; }"#,
        r#"extern "Swift" {
            #[swift_bridge(swift_name = "fetchIsEnabled")]
            async fn fetch_is_enabled() -> bool;
        }"#,
    );
    let lead = normalize(r#"extern "Swift" { async func fetchIsEnabled() -> Bool; }"#).unwrap_or_else(|e| panic!("{}", e.message()));
    let trail = normalize(r#"extern "Swift" { func fetchIsEnabled() async -> Bool; }"#).unwrap_or_else(|e| panic!("{}", e.message()));
    assert_eq!(lead, trail);
}

#[test]
fn blocks_without_swift_style_declarations_are_unchanged() {
    let src = r#"mod ffi { extern "Swift" { type Foo; fn bar(&self) -> u8; } extern "Rust" { fn baz(); } }"#;
    assert_eq!(normalize(src).unwrap_or_else(|e| panic!("{}", e.message())), from_toks(&lex(src)).to_string());
}

#[test]
fn other_type_names_are_kept() {
    for name in ["String", "UserId", "Foo"] {
        let ty = lex(name);
        let out = normalize_swift_type(&ty).unwrap_or_else(|e| panic!("{}", e.message()));
        assert_eq!(from_toks(&out).to_string(), name);
    }
}

#[test]
fn a_repeated_rust_name_is_an_error_naming_it() {
    let err = normalize(
        r#"extern "Swift" { func!(loadURL(_ id: UInt32) -> Bool); func!(loadUrl(_ id: UInt32) -> Bool); }"#,
    )
    .unwrap_err();
    assert!(matches!(&err, SwiftSyntaxError::DuplicateRustName(name) if name == "load_url"));
    assert!(err.message().contains("generate the Rust function name `load_url`"));
}

#[test]
fn c_string_literals_never_reach_syn() {
    let src = r#"extern c"Swift" { func f(); }"#;
    let normalized = normalize(src).unwrap_or_else(|e| panic!("{}", e.message()));
    assert_eq!(normalized, from_toks(&lex(src)).to_string());

    let err = normalize(r#"extern "Swift" { func f(x: [UInt8; c"a"]); }"#).unwrap_err();
    assert!(matches!(err, SwiftSyntaxError::Syntax));

    let err = normalize(r#"extern "Swift" { #[swift_bridge(rust_name = c"g")] func f(); }"#).unwrap_err();
    assert!(matches!(err, SwiftSyntaxError::AttributeArgs));
}

#[test]
fn generated_rust_names_are_tracked() {
    let mut names = Vec::new();
    assert!(track_generated_rust_name(&mut names, "load_url".to_string()).is_ok());
    assert!(track_generated_rust_name(&mut names, "fetch".to_string()).is_ok());
    assert_eq!(names, vec!["load_url".to_string(), "fetch".to_string()]);
    let err = track_generated_rust_name(&mut names, "load_url".to_string()).unwrap_err();
    assert!(matches!(&err, SwiftSyntaxError::DuplicateRustName(name) if name == "load_url"));
    assert_eq!(
        err.note().unwrap(),
        "previous Swift `func` declaration generated this Rust function name"
    );
    assert_eq!(names.len(), 2);
    assert!(SwiftSyntaxError::Syntax.note().is_none());
}

use proc_macro2::{Spacing, TokenStream, TokenTree};
use swift_bridge_ir::bridged_type::TypeDeclarations;
use swift_bridge_ir::boxed_fn::BridgeableBoxedFnOnce;
use swift_bridge_ir::callback_sig::{
    parse_callback_trait_bounds, parse_return_and_bounds, BridgeableFnOwner, BridgeableFnTrait,
    BridgeableFnTraitBound,
};

/// The printed tokens of `src`, spaced as `quote!` spaces punctuation.
fn tokens(src: &str) -> String {
    fn respace(ts: TokenStream) -> TokenStream {
        let trees: Vec<TokenTree> = ts.into_iter().collect();
        let mut out = Vec::new();
        for (i, t) in trees.iter().enumerate() {
            let next = match trees.get(i + 1) {
                Some(TokenTree::Punct(p)) => Some(p.as_char()),
                _ => None,
            };
            out.push(match t {
                TokenTree::Punct(p) => {
                    let op = matches!((p.as_char(), next), (':', Some(':')) | ('-', Some('>')));
                    let joint = p.spacing() == Spacing::Joint && (p.as_char() == '\'' || op);
                    let spacing = if joint { Spacing::Joint } else { Spacing::Alone };
                    TokenTree::Punct(proc_macro2::Punct::new(p.as_char(), spacing))
                }
                TokenTree::Group(g) => {
                    TokenTree::Group(proc_macro2::Group::new(g.delimiter(), respace(g.stream())))
                }
                other => other.clone(),
            });
        }
        out.into_iter().collect()
    }
    respace(src.parse::<TokenStream>().unwrap()).to_string()
}

fn parse(src: &str) -> Option<BridgeableBoxedFnOnce> {
    BridgeableBoxedFnOnce::from_str_tokens(&tokens(src), &TypeDeclarations::default())
}

#[test]
fn boxed_fn_once_from_string_no_arrow() {
    assert!(parse("Box<dyn FnOnce()>").unwrap().ret.is_null());
}

#[test]
fn boxed_fn_once_from_string_with_arrow() {
    assert_eq!(parse("Box<dyn FnOnce() -> u8>").unwrap().ret.rust_type, "u8");
}

#[test]
fn boxed_fn_from_string_with_arrow() {
    let parsed = parse("Box<dyn Fn(u8) -> u8>").unwrap();

    assert_eq!(parsed.owner, BridgeableFnOwner::Box);
    assert_eq!(parsed.trait_kind, BridgeableFnTrait::Fn);
    assert_eq!(parsed.params.len(), 1);
}

#[test]
fn boxed_fnonce_from_string_with_send_sync_static_bounds() {
    let parsed = parse("Box<dyn FnOnce(u8) -> u8 + Send + Sync + 'static>").unwrap();

    assert_eq!(parsed.owner, BridgeableFnOwner::Box);
    assert_eq!(parsed.trait_kind, BridgeableFnTrait::FnOnce);
    assert_eq!(
        parsed.trait_bounds,
        vec![
            BridgeableFnTraitBound::Send,
            BridgeableFnTraitBound::Sync,
            BridgeableFnTraitBound::Static,
        ]
    );
}

#[test]
fn arc_fn_from_string_with_arrow() {
    let parsed = parse("Arc<dyn Fn(u8) -> u8>").unwrap();

    assert_eq!(parsed.owner, BridgeableFnOwner::Arc);
    assert_eq!(parsed.trait_kind, BridgeableFnTrait::Fn);
    assert_eq!(parsed.params.len(), 1);
}

#[test]
fn arc_fn_from_string_with_send_sync_static_bounds() {
    let parsed = parse("Arc<dyn Fn(u8) -> u8 + Send + Sync + 'static>").unwrap();

    assert_eq!(parsed.owner, BridgeableFnOwner::Arc);
    assert_eq!(parsed.trait_kind, BridgeableFnTrait::Fn);
    assert_eq!(
        parsed.trait_bounds,
        vec![
            BridgeableFnTraitBound::Send,
            BridgeableFnTraitBound::Sync,
            BridgeableFnTraitBound::Static,
        ]
    );
}

#[test]
fn arc_fnonce_from_string_is_not_supported() {
    assert!(parse("Arc<dyn FnOnce(u8) -> u8>").is_none());
}

#[test]
fn boxed_fn_once_from_string_returns_null() {
    assert!(parse("Box<dyn FnOnce() -> ()>").unwrap().ret.is_null());
}

#[test]
fn no_space_before_arg_parens() {
    let tokens = "Box < dyn FnOnce() -> () >";

    assert!(BridgeableBoxedFnOnce::from_str_tokens(tokens, &TypeDeclarations::default())
        .unwrap()
        .ret
        .is_null());
}

#[test]
fn comma_after_fn_once() {
    let tests = vec![
        "Box<dyn FnOnce(),>",
        "Box<dyn FnOnce() -> (),>",
        "Box<
            dyn FnOnce(Result<String, String>),
        >",
    ];

    for test in tests {
        assert!(parse(test).unwrap().ret.is_null());
    }
}

#[test]
fn checked_parse_refuses_what_is_not_a_callback() {
    let types = TypeDeclarations::default();
    assert!(BridgeableBoxedFnOnce::from_str_tokens_checked("Vec < u8 >", &types).is_none());
    assert!(BridgeableBoxedFnOnce::from_str_tokens_checked("Box < dyn FnOnce) ( >", &types).is_none());
    let parsed = BridgeableBoxedFnOnce::from_str_tokens_checked(&tokens("Box<dyn Fn(u8, i32)>"), &types)
        .unwrap();
    assert_eq!(parsed.params.len(), 2);
    assert_eq!(parsed.params[1].rust_type, "i32");
}

#[test]
fn generic_return_type_keeps_its_closing_bracket() {
    let parsed = parse("Box<dyn FnOnce() -> Option<u8>>").unwrap();
    assert_eq!(parsed.ret.rust_type, "Option < u8 >");

    let parsed = parse("Box<dyn Fn(u8) -> Result<Vec<u8>, String> + Send>").unwrap();
    assert_eq!(parsed.ret.rust_type, "Result < Vec < u8 > , String >");
    assert_eq!(parsed.trait_bounds, vec![BridgeableFnTraitBound::Send]);
}

#[test]
fn source_text_spellings_are_not_read() {
    let types = TypeDeclarations::default();
    assert!(BridgeableBoxedFnOnce::from_str_tokens("Box<dyn FnOnce(u8) -> u8>", &types).is_none());
    assert!(BridgeableBoxedFnOnce::from_str_tokens("Box<dyn Fn(u8)>", &types).is_none());
    assert!(BridgeableBoxedFnOnce::from_str_tokens("std::sync::Arc<dyn Fn(u8)>", &types).is_none());
}

#[test]
fn c_string_literals_are_refused_before_syn_sees_them() {
    let types = TypeDeclarations::default();
    assert!(BridgeableBoxedFnOnce::from_str_tokens_checked("Box < dyn Fn ([u8 ; c\"a\"]) >", &types)
        .is_none());
    assert!(BridgeableBoxedFnOnce::from_str_tokens_checked("Box < dyn Fn () -> [u8 ; cr#\"a\"#] >", &types)
        .is_none());
}

#[test]
fn rendered_callback_type_parses_back() {
    let types = TypeDeclarations::default();
    for src in [
        "Box<dyn FnOnce(u8) -> u8>",
        "Box<dyn Fn(u8, bool) -> i64 + Send + Sync + 'static>",
        "Arc<dyn Fn(u32) -> u16 + Send>",
        "Box<dyn FnOnce()>",
    ] {
        let f = parse(src).unwrap();
        let rendered = f.to_rust_type_path(&types);
        let g = BridgeableBoxedFnOnce::from_str_tokens_checked(&rendered, &types).unwrap();
        assert_eq!(g.owner, f.owner);
        assert_eq!(g.trait_kind, f.trait_kind);
        assert_eq!(g.trait_bounds, f.trait_bounds);
        let fp: Vec<&str> = f.params.iter().map(|p| p.rust_type.as_str()).collect();
        let gp: Vec<&str> = g.params.iter().map(|p| p.rust_type.as_str()).collect();
        assert_eq!(gp, fp);
        assert_eq!(g.ret.rust_type, f.ret.rust_type);
    }
}

#[test]
fn bound_lists_are_read_in_order_and_unknown_bounds_refused() {
    let parsed = parse("Box<dyn Fn(u8) + 'static + Send>").unwrap();
    assert_eq!(parsed.trait_bounds, vec![BridgeableFnTraitBound::Static, BridgeableFnTraitBound::Send]);
    assert!(parsed.ret.is_null());
    assert!(parse("Box<dyn FnOnce() + Send + Unpin>").is_none());
    assert!(parse("Box<dyn FnOnce()>").unwrap().trait_bounds.is_empty());
}

#[test]
fn fn_mut_callbacks_are_not_supported() {
    let types = TypeDeclarations::default();
    assert!(BridgeableBoxedFnOnce::from_str_tokens("Box < dyn FnMut (u8) >", &types).is_none());
}

#[test]
fn bound_list_and_signature_end_parsers() {
    let chars = |s: &str| s.chars().collect::<Vec<char>>();
    assert_eq!(
        parse_callback_trait_bounds(&chars(" Send + Sync + 'static")),
        Some(vec![BridgeableFnTraitBound::Send, BridgeableFnTraitBound::Sync, BridgeableFnTraitBound::Static])
    );
    assert_eq!(parse_callback_trait_bounds(&chars("Send + Unpin")), None);
    assert_eq!(parse_callback_trait_bounds(&chars("")), Some(vec![]));
    assert_eq!(parse_callback_trait_bounds(&chars("Send + + Sync")),
        Some(vec![BridgeableFnTraitBound::Send, BridgeableFnTraitBound::Sync]));

    assert_eq!(parse_return_and_bounds(&chars("  ")), Some((None, vec![])));
    assert_eq!(parse_return_and_bounds(&chars(" + Send")), Some((None, chars(" Send"))));
    assert_eq!(
        parse_return_and_bounds(&chars("-> u8 + Send")),
        Some((Some(chars("u8")), chars(" Send")))
    );
    assert_eq!(parse_return_and_bounds(&chars("-> u8")), Some((Some(chars("u8")), vec![])));
    assert_eq!(parse_return_and_bounds(&chars("u8")), None);
}

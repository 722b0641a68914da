use rustfuscator::ast::{Attr, AttrMeta, Expr, Pat, Stmt};
use rustfuscator::transform::ObfuscationTransformer;

fn obf_transformer(
    min_str_len: Option<usize>,
    ignore_strings: Option<Vec<String>>,
    rename_identifiers: bool,
    obfuscate_strings: bool,
    obfuscate_flow: bool,
    skip_attributes: bool,
) -> ObfuscationTransformer {
    ObfuscationTransformer {
        min_string_length: min_str_len,
        ignore_strings: ignore_strings,
        rename_identifiers: rename_identifiers,
        preserve_idents: vec![],
        obfuscate_strings: obfuscate_strings,
        obfuscate_flow: obfuscate_flow,
        skip_attributes: skip_attributes,
        obfuscated_vars: Vec::new(),
    }
}

fn get_str_lit_expression(s: &'static str) -> Expr {
    Expr::StrLit { value: s.to_string() }
}

#[test]
fn obf_transformer_test_visit_expr() {
    let lit_too_short = "foo";
    let lit_long_enough = "foo test";
    let lit_to_ignore = "ignore me";

    let cfg_min_len = lit_too_short.len() + 1;
    let cfg_ignore = vec![String::from(lit_to_ignore)];

    let mut expr_1 = get_str_lit_expression(lit_too_short);
    let mut expr_2 = get_str_lit_expression(lit_long_enough);
    let mut expr_3 = get_str_lit_expression(lit_to_ignore);

    let mut transformer = obf_transformer(
        Some(cfg_min_len),
        Some(cfg_ignore),
        false,
        true,
        false,
        false,
    );

    transformer.visit_expr_mut(&mut expr_1);
    transformer.visit_expr_mut(&mut expr_2);
    transformer.visit_expr_mut(&mut expr_3);

    match &expr_1 {
        Expr::StrLit { value } => {
            assert_eq!(value, lit_too_short);
        }
        _ => panic!("expr_1 must be a string literal"),
    }

    match &expr_2 {
        Expr::MacroExpr { name, str_arg } => {
            assert_eq!(str_arg.as_deref(), Some(lit_long_enough));
            assert_eq!(name, "obfuscate_string");
        }
        _ => panic!("expr_2 must be a macro"),
    }

    match &expr_3 {
        Expr::StrLit { value } => {
            assert_eq!(value, lit_to_ignore);
        }
        _ => panic!("expr_3 must be a string literal"),
    }
}

#[test]
fn obf_transformer_test_visit_stmt() {
    let ident_name = "foo";
    let number_of_idents = 1;
    let mut stmt: Stmt = Stmt::Local {
        pat: Pat::Typed {
            pat: Box::new(Pat::Ident { name: "foo".to_string() }),
            ty: "&str".to_string(),
        },
        init: Some(Expr::MacroExpr {
            name: "obfuscate_string".to_string(),
            str_arg: Some("test".to_string()),
        }),
    };

    let mut transformer = obf_transformer(None, None, false, true, false, false);

    transformer.visit_stmt_mut(&mut stmt);
    let mut idents = transformer.obfuscated_vars.iter();

    assert_eq!(transformer.obfuscated_vars.len(), number_of_idents);
    assert_eq!(idents.next().unwrap(), ident_name);
}

#[test]
fn obf_transformer_test_skip_attribute_mut() {
    let mut attr_1: Attr = Attr {
        inner: true,
        meta: AttrMeta::Path { path: "my_path".to_string() },
    };

    let mut attr_2: Attr = Attr {
        inner: true,
        meta: AttrMeta::List {
            path: "my_list_path".to_string(),
            tokens: vec!["foo_1".to_string(), "foo_2".to_string(), "foo_3".to_string()],
        },
    };

    let name_value_3 = "my secret doc";
    let mut attr_3: Attr = Attr {
        inner: true,
        meta: AttrMeta::NameValue {
            path: "doc".to_string(),
            value: Box::new(Expr::StrLit { value: name_value_3.to_string() }),
        },
    };

    let mut transformer = obf_transformer(None, None, false, true, false, true);

    transformer.visit_attribute_mut(&mut attr_1);
    transformer.visit_attribute_mut(&mut attr_2);
    transformer.visit_attribute_mut(&mut attr_3);

    match attr_3.meta {
        AttrMeta::NameValue { path: _, value } => match *value {
            Expr::StrLit { value } => {
                assert_eq!(value, name_value_3);
            }
            _ => panic!("attr_3.meta value must be a string literal"),
        },
        _ => panic!("attr_3.meta must remain of type Meta::NameValue"),
    }
}

#[test]
fn obf_my_test_test() {
    let stmt: Stmt = Stmt::Local {
        pat: Pat::Typed {
            pat: Box::new(Pat::Ident { name: "foo".to_string() }),
            ty: "&str".to_string(),
        },
        init: Some(Expr::StrLit { value: "test".to_string() }),
    };

    if let Stmt::Local { pat, init: _ } = &stmt {
        match pat {
            Pat::Ident { name } => {
                println!("Variable name 1: {}", name);
            }
            Pat::Typed { pat, ty: _ } => {
                if let Pat::Ident { name } = &**pat {
                    println!("Variable name 2: {}", name);
                } else {
                    println!("Type pattern, but not an identifier");
                }
            }
            _ => {
                println!("Other pattern:");
            }
        }
    } else {
        println!("Not a local statement");
    }
}

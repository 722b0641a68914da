use rustfuscator::ast::{Arm, Attr, AttrMeta, Block, ElseBranch, Expr, Item, Pat, SourceFile, Stmt};
use rustfuscator::transform::ObfuscationTransformer;

fn engine(strings: bool, min: Option<usize>, ignore: Option<Vec<String>>, flow: bool, skip_attrs: bool) -> ObfuscationTransformer {
    ObfuscationTransformer {
        min_string_length: min,
        ignore_strings: ignore,
        rename_identifiers: false,
        preserve_idents: vec![],
        obfuscate_strings: strings,
        obfuscate_flow: flow,
        skip_attributes: skip_attrs,
        obfuscated_vars: Vec::new(),
    }
}

fn lit(s: &str) -> Expr {
    Expr::StrLit { value: s.to_string() }
}

fn const_item(name: &str, value: Expr) -> Item {
    Item::ConstItem {
        attrs: vec![],
        name: name.to_string(),
        ty: "&str".to_string(),
        value,
    }
}

fn is_marker(s: &Stmt) -> bool {
    matches!(s, Stmt::MacroStmt { name, str_arg: None } if name == "obfuscate_flow")
}

/// A function with one `if`/`else`, one `while`, and a two-arm `match`.
fn flow_sample_fn() -> Item {
    let if_expr = Expr::If {
        cond: Box::new(Expr::PathExpr { name: "c".to_string() }),
        then_branch: Block { stmts: vec![Stmt::ExprStmt { expr: lit("a"), semi: true }] },
        else_branch: Some(Box::new(ElseBranch::ElseBlock {
            block: Block { stmts: vec![Stmt::ExprStmt { expr: lit("b"), semi: true }] },
        })),
    };
    let while_expr = Expr::While {
        cond: Box::new(Expr::PathExpr { name: "w".to_string() }),
        body: Block { stmts: vec![Stmt::ExprStmt { expr: lit("c"), semi: true }] },
    };
    let match_expr = Expr::Match {
        scrutinee: Box::new(Expr::PathExpr { name: "x".to_string() }),
        arms: vec![
            Arm { pat: Pat::Ident { name: "p".to_string() }, body: lit("d") },
            Arm { pat: Pat::Wild, body: lit("e") },
        ],
    };
    Item::FnItem {
        attrs: vec![],
        name: "sample".to_string(),
        sig: "fn sample(c: bool, w: bool, x: u8)".to_string(),
        block: Block {
            stmts: vec![
                Stmt::ExprStmt { expr: if_expr, semi: true },
                Stmt::ExprStmt { expr: while_expr, semi: true },
                Stmt::ExprStmt { expr: match_expr, semi: true },
            ],
        },
    }
}

fn count_markers_expr(e: &Expr) -> usize {
    match e {
        Expr::StrLit { .. }
        | Expr::OtherLit { .. }
        | Expr::PathExpr { .. }
        | Expr::MacroExpr { .. }
        | Expr::Verbatim { .. } => 0,
        Expr::Call { callee, args } => {
            count_markers_expr(callee) + args.iter().map(count_markers_expr).sum::<usize>()
        }
        Expr::MethodCall { recv, args, .. } => {
            count_markers_expr(recv) + args.iter().map(count_markers_expr).sum::<usize>()
        }
        Expr::Reference { expr, .. } | Expr::Deref { expr } | Expr::Paren { expr } => {
            count_markers_expr(expr)
        }
        Expr::BlockExpr { block } => count_markers_block(block),
        Expr::If { cond, then_branch, else_branch } => {
            count_markers_expr(cond)
                + count_markers_block(then_branch)
                + match else_branch {
                    Some(eb) => match &**eb {
                        ElseBranch::ElseBlock { block } => count_markers_block(block),
                        ElseBranch::ElseIf { expr } => count_markers_expr(expr),
                    },
                    None => 0,
                }
        }
        Expr::While { cond, body } => count_markers_expr(cond) + count_markers_block(body),
        Expr::Loop { body } => count_markers_block(body),
        Expr::ForLoop { iter, body, .. } => count_markers_expr(iter) + count_markers_block(body),
        Expr::Match { scrutinee, arms } => {
            count_markers_expr(scrutinee)
                + arms.iter().map(|a| count_markers_expr(&a.body)).sum::<usize>()
        }
    }
}

fn count_markers_block(b: &Block) -> usize {
    b.stmts
        .iter()
        .map(|s| match s {
            Stmt::Local { init: Some(e), .. } => count_markers_expr(e),
            Stmt::Local { init: None, .. } => 0,
            Stmt::ExprStmt { expr, .. } => count_markers_expr(expr),
            Stmt::MacroStmt { .. } => {
                if is_marker(s) {
                    1
                } else {
                    0
                }
            }
            Stmt::ItemStmt { item } => match &**item {
                Item::FnItem { block, .. } => count_markers_block(block),
                Item::ConstItem { value, .. } => count_markers_expr(value),
                _ => 0,
            },
        })
        .sum()
}

#[test]
fn all_passes_disabled_leaves_the_tree_unchanged() {
    let file = SourceFile {
        attrs: vec![Attr {
            inner: true,
            meta: AttrMeta::NameValue {
                path: "doc".to_string(),
                value: Box::new(lit("Crate docs")),
            },
        }],
        items: vec![const_item("TEST", lit("test")), flow_sample_fn()],
    };
    let expected = SourceFile {
        attrs: vec![Attr {
            inner: true,
            meta: AttrMeta::NameValue {
                path: "doc".to_string(),
                value: Box::new(lit("Crate docs")),
            },
        }],
        items: vec![const_item("TEST", lit("test")), flow_sample_fn()],
    };
    let mut t = engine(false, None, None, false, false);
    let out = t.transform_source_file(file);
    assert_eq!(out, expected);
}

#[test]
fn min_length_gates_and_ignore_list_always_wins() {
    // Minimum length 5, literals of length 4 and 8: only the longer one is
    // wrapped; an ignore-listed literal stays put whatever its length.
    let file = SourceFile {
        attrs: vec![],
        items: vec![
            const_item("SHORT", lit("test")),
            const_item("LONG", lit("12345678")),
            const_item("IGNORED", lit("ignore me please")),
        ],
    };
    let mut t = engine(
        true,
        Some(5),
        Some(vec!["ignore me please".to_string()]),
        false,
        false,
    );
    let out = t.transform_source_file(file);
    // The companion import is inserted in front of the items.
    assert_eq!(out.items.len(), 4);
    assert_eq!(
        out.items[0],
        Item::UseItem { text: "rust_code_obfuscator::obfuscate_string".to_string() }
    );
    match &out.items[1] {
        Item::ConstItem { value: Expr::StrLit { value }, .. } => assert_eq!(value, "test"),
        other => panic!("short literal must stay a literal: {:?}", other),
    }
    match &out.items[2] {
        Item::ConstItem { value: Expr::MacroExpr { name, str_arg }, .. } => {
            assert_eq!(name, "obfuscate_string");
            assert_eq!(str_arg.as_deref(), Some("12345678"));
        }
        other => panic!("long literal must be wrapped: {:?}", other),
    }
    match &out.items[3] {
        Item::ConstItem { value: Expr::StrLit { value }, .. } => {
            assert_eq!(value, "ignore me please")
        }
        other => panic!("ignore-listed literal must stay a literal: {:?}", other),
    }
}

#[test]
fn min_length_counts_utf8_bytes_not_characters() {
    // "café" is four characters but five UTF-8 bytes, so a minimum of five
    // still wraps it; a four-byte literal stays put.
    let file = SourceFile {
        attrs: vec![],
        items: vec![const_item("ACCENTED", lit("café")), const_item("PLAIN", lit("cafe"))],
    };
    let mut t = engine(true, Some(5), None, false, false);
    let out = t.transform_source_file(file);
    assert_eq!(out.items.len(), 3);
    match &out.items[1] {
        Item::ConstItem { value: Expr::MacroExpr { name, str_arg }, .. } => {
            assert_eq!(name, "obfuscate_string");
            assert_eq!(str_arg.as_deref(), Some("café"));
        }
        other => panic!("five-byte literal must be wrapped: {:?}", other),
    }
    match &out.items[2] {
        Item::ConstItem { value: Expr::StrLit { value }, .. } => assert_eq!(value, "cafe"),
        other => panic!("four-byte literal must stay a literal: {:?}", other),
    }
}

#[test]
fn flow_marking_inserts_one_marker_per_reachable_block() {
    let file = SourceFile { attrs: vec![], items: vec![flow_sample_fn()] };
    let mut t = engine(false, None, None, true, false);
    let out = t.transform_source_file(file);
    // One marker per reachable block: the then branch, the else branch,
    // the while body, and each of the two match arm bodies.
    let markers: usize = out
        .items
        .iter()
        .map(|it| match it {
            Item::FnItem { block, .. } => count_markers_block(block),
            _ => 0,
        })
        .sum();
    assert_eq!(markers, 5);
}

#[test]
fn skip_attributes_leaves_annotations_and_still_wraps_declarations() {
    // Leading documentation annotation + literal-bearing declaration, with
    // skip-attributes on: the annotation is untouched, the declaration's
    // literal is still wrapped.
    let file = SourceFile {
        attrs: vec![Attr {
            inner: true,
            meta: AttrMeta::NameValue {
                path: "doc".to_string(),
                value: Box::new(lit("Crate docs")),
            },
        }],
        items: vec![const_item("TEST", lit("test"))],
    };
    let mut t = engine(true, None, None, false, true);
    let out = t.transform_source_file(file);
    assert_eq!(
        out.attrs[0],
        Attr {
            inner: true,
            meta: AttrMeta::NameValue {
                path: "doc".to_string(),
                value: Box::new(lit("Crate docs")),
            },
        }
    );
    match &out.items[1] {
        Item::ConstItem { value: Expr::MacroExpr { name, str_arg }, .. } => {
            assert_eq!(name, "obfuscate_string");
            assert_eq!(str_arg.as_deref(), Some("test"));
        }
        other => panic!("declaration literal must be wrapped: {:?}", other),
    }
}

#[test]
fn companion_import_is_not_duplicated() {
    let file = SourceFile {
        attrs: vec![],
        items: vec![
            Item::UseItem { text: "rust_code_obfuscator::obfuscate_string".to_string() },
            const_item("TEST", lit("test")),
        ],
    };
    let mut t = engine(true, None, None, true, false);
    let out = t.transform_source_file(file);
    assert_eq!(out.items.len(), 2);
    assert!(matches!(&out.items[0], Item::UseItem { .. }));
}

fn protected_binding_sample() -> SourceFile {
    SourceFile {
        attrs: vec![],
        items: vec![Item::FnItem {
            attrs: vec![],
            name: "f".to_string(),
            sig: "fn f()".to_string(),
            block: Block {
                stmts: vec![
                    Stmt::Local {
                        pat: Pat::Ident { name: "foo".to_string() },
                        init: Some(Expr::MacroExpr {
                            name: "obfuscate_string".to_string(),
                            str_arg: Some("test".to_string()),
                        }),
                    },
                    Stmt::ExprStmt {
                        expr: Expr::Match {
                            scrutinee: Box::new(Expr::PathExpr { name: "foo".to_string() }),
                            arms: vec![Arm { pat: Pat::Wild, body: Expr::PathExpr { name: "y".to_string() } }],
                        },
                        semi: true,
                    },
                ],
            },
        }],
    }
}

#[test]
fn protected_binding_scrutinee_is_rewritten() {
    // The scrutinee rewrite belongs to the literal pass, so it needs it on.
    let mut t = engine(true, None, None, false, false);
    let out = t.transform_source_file(protected_binding_sample());
    let block = match &out.items[0] {
        Item::FnItem { block, .. } => block,
        other => panic!("expected the function item: {:?}", other),
    };
    match &block.stmts[1] {
        Stmt::ExprStmt { expr: Expr::Match { scrutinee, .. }, .. } => match &**scrutinee {
            Expr::Reference { mutable: false, expr } => match &**expr {
                Expr::Deref { expr } => {
                    assert_eq!(**expr, Expr::PathExpr { name: "foo".to_string() });
                }
                other => panic!("expected a dereference: {:?}", other),
            },
            other => panic!("expected a reference: {:?}", other),
        },
        other => panic!("expected the match statement: {:?}", other),
    }
}

#[test]
fn scrutinee_is_left_alone_with_the_literal_pass_off() {
    let mut t = engine(false, None, None, false, false);
    let out = t.transform_source_file(protected_binding_sample());
    assert_eq!(out, protected_binding_sample());
}

#[test]
fn no_import_is_inserted_when_a_pass_has_nothing_to_do() {
    // Both passes on, but the file holds no string literal and no block to
    // mark: neither pass fires, so no companion import is owed.
    let file = SourceFile {
        attrs: vec![],
        items: vec![const_item("N", Expr::OtherLit { text: "7".to_string() })],
    };
    let expected = SourceFile {
        attrs: vec![],
        items: vec![const_item("N", Expr::OtherLit { text: "7".to_string() })],
    };
    let mut t = engine(true, None, None, true, false);
    let out = t.transform_source_file(file);
    assert_eq!(out, expected);
}

#[test]
fn each_owed_import_is_checked_on_its_own() {
    // The flow import is already there; the literal import is owed and
    // absent, so it alone is added, in front.
    let file = SourceFile {
        attrs: vec![],
        items: vec![
            Item::UseItem { text: "use rust_code_obfuscator::obfuscate_flow;".to_string() },
            const_item("TEST", lit("test")),
            flow_sample_fn(),
        ],
    };
    let mut t = engine(true, None, None, true, false);
    let out = t.transform_source_file(file);
    assert_eq!(out.items.len(), 4);
    assert_eq!(
        out.items[0],
        Item::UseItem { text: "rust_code_obfuscator::obfuscate_string".to_string() }
    );
    assert_eq!(
        out.items[1],
        Item::UseItem { text: "use rust_code_obfuscator::obfuscate_flow;".to_string() }
    );
}

#[test]
fn renaming_appends_suffixes_and_preserves_listed_names() {
    let file = SourceFile {
        attrs: vec![],
        items: vec![
            Item::FnItem {
                attrs: vec![],
                name: "main".to_string(),
                sig: "fn main()".to_string(),
                block: Block {
                    stmts: vec![Stmt::Local {
                        pat: Pat::Ident { name: "value".to_string() },
                        init: Some(lit("v")),
                    }],
                },
            },
            Item::FnItem {
                attrs: vec![],
                name: "helper".to_string(),
                sig: "fn helper()".to_string(),
                block: Block { stmts: vec![] },
            },
        ],
    };
    let mut t = ObfuscationTransformer {
        min_string_length: None,
        ignore_strings: None,
        rename_identifiers: true,
        preserve_idents: vec!["main".to_string()],
        obfuscate_strings: false,
        obfuscate_flow: false,
        skip_attributes: false,
        obfuscated_vars: Vec::new(),
    };
    let out = t.transform_source_file(file);
    match &out.items[0] {
        Item::FnItem { name, block, .. } => {
            assert_eq!(name, "main");
            match &block.stmts[0] {
                Stmt::Local { pat: Pat::Ident { name }, .. } => {
                    assert!(name.starts_with("value_x"), "got {name}");
                    let suffix: u32 = name["value_x".len()..].parse().unwrap();
                    assert!((1000..=9999).contains(&suffix));
                }
                other => panic!("expected the binding: {:?}", other),
            }
        }
        other => panic!("expected the main function: {:?}", other),
    }
    match &out.items[1] {
        Item::FnItem { name, .. } => {
            assert!(name.starts_with("helper_obf_"), "got {name}");
            let suffix: u32 = name["helper_obf_".len()..].parse().unwrap();
            assert!((1000..=9999).contains(&suffix));
        }
        other => panic!("expected the helper function: {:?}", other),
    }
}

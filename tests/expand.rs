use macros::expand::{expand, generate_set, parse_self, process_const};
use macros::model::{
    Attribute, ClassDecl, ConstItem, ErrorKind, Expansion, Fallback, GenError, GenericArg, Item,
    PathArgs, Segment, SelfType, SetPlan, Site,
};
use macros::names::{arg_name, display_name, is_text, module_name};

fn attr(path: &str) -> Attribute {
    Attribute { path: path.to_string(), args_parse: true }
}

fn constant(ident: &str, attrs: Vec<Attribute>) -> Item {
    Item::Const(ConstItem { ident: ident.to_string(), attrs })
}

fn method(name: &str) -> Item {
    Item::Method(name.to_string())
}

fn named(name: &str) -> SelfType {
    SelfType::Path(vec![Segment { ident: name.to_string(), args: PathArgs::Plain }])
}

fn decl(name: &str, items: Vec<Item>) -> ClassDecl {
    ClassDecl { self_ty: named(name), items }
}

fn ok(d: &ClassDecl) -> Expansion {
    match expand(d) {
        Ok(e) => e,
        Err(e) => panic!("unexpected error {:?}", e),
    }
}

fn err(d: &ClassDecl) -> GenError {
    match expand(d) {
        Ok(e) => panic!("unexpected expansion {:?}", e),
        Err(e) => e,
    }
}

#[test]
fn para_width_generated_setter() {
    let d = decl("Para", vec![constant("WIDTH", vec![]), method("construct")]);
    let e = ok(&d);
    assert_eq!(e.module, "Para_types");
    assert_eq!(e.self_name, "Para");
    assert_eq!(e.construct, 1);
    assert_eq!(e.properties.len(), 1);
    let p = &e.properties[0];
    assert_eq!(p.name, "WIDTH");
    assert_eq!(p.display_name, "Para::WIDTH");
    assert_eq!(p.item, 0);
    assert_eq!(p.fold, None);
    match &e.set {
        SetPlan::Generated(stmts) => {
            assert_eq!(stmts.len(), 1);
            assert_eq!(stmts[0].property, "WIDTH");
            assert_eq!(stmts[0].arg_name, "width");
            assert_eq!(stmts[0].fallback, Fallback::Nothing);
        }
        SetPlan::Given(_) => panic!("setter should be generated"),
    }
}

#[test]
fn fold_marks_property_foldable() {
    let d = decl(
        "TextNode",
        vec![constant("STRONG", vec![attr("fold")]), constant("EMPH", vec![]), method("construct")],
    );
    let e = ok(&d);
    assert_eq!(e.properties[0].fold, Some(0));
    assert_eq!(e.properties[0].display_name, "TextNode::STRONG");
    assert_eq!(e.properties[1].fold, None);
    assert!(e.properties[0].kept_attrs.is_empty());
}

#[test]
fn later_fold_replaces_earlier() {
    let d = decl(
        "TextNode",
        vec![constant("SIZE", vec![attr("fold"), attr("doc"), attr("fold")]), method("construct")],
    );
    let e = ok(&d);
    assert_eq!(e.properties[0].fold, Some(2));
    assert_eq!(e.properties[0].kept_attrs, vec![1]);
}

#[test]
fn variadic_falls_back_to_remaining() {
    let d = decl("Grid", vec![method("construct"), constant("GAP", vec![attr("variadic")])]);
    let e = ok(&d);
    assert_eq!(e.construct, 0);
    match &e.set {
        SetPlan::Generated(stmts) => {
            assert_eq!(stmts[0].arg_name, "gap");
            assert_eq!(stmts[0].fallback, Fallback::AllRemaining);
        }
        SetPlan::Given(_) => panic!("setter should be generated"),
    }
}

#[test]
fn shorthand_falls_back_to_first_of_type() {
    let d = decl("Shape", vec![constant("FILL", vec![attr("shorthand")]), method("construct")]);
    let e = ok(&d);
    match &e.set {
        SetPlan::Generated(stmts) => {
            assert_eq!(stmts[0].arg_name, "fill");
            assert_eq!(stmts[0].fallback, Fallback::FirstOfType);
        }
        SetPlan::Given(_) => panic!("setter should be generated"),
    }
}

#[test]
fn skipped_property_gets_no_statement() {
    let d = decl(
        "Par",
        vec![
            constant("LINE_SPACING", vec![]),
            constant("LANG", vec![attr("skip")]),
            constant("TOP_EDGE", vec![attr("shorthand")]),
            method("construct"),
        ],
    );
    let e = ok(&d);
    assert_eq!(e.properties.len(), 3);
    assert!(e.properties[1].skip);
    match &e.set {
        SetPlan::Generated(stmts) => {
            assert_eq!(stmts.len(), 2);
            assert_eq!(stmts[0].arg_name, "line-spacing");
            assert_eq!(stmts[1].property, "TOP_EDGE");
            assert_eq!(stmts[1].arg_name, "top-edge");
        }
        SetPlan::Given(_) => panic!("setter should be generated"),
    }
}

#[test]
fn declared_setter_is_kept() {
    let d = decl("Par", vec![method("set"), constant("A", vec![]), method("construct")]);
    let e = ok(&d);
    match e.set {
        SetPlan::Given(k) => assert_eq!(k, 0),
        SetPlan::Generated(_) => panic!("setter was declared"),
    }
    assert_eq!(e.construct, 2);
}

#[test]
fn shorthand_and_variadic_conflict() {
    let d = decl(
        "Stack",
        vec![
            constant("SPACING", vec![]),
            constant("CHILDREN", vec![attr("shorthand"), attr("doc"), attr("variadic")]),
            method("construct"),
        ],
    );
    let e = err(&d);
    assert_eq!(e, GenError { kind: ErrorKind::ConflictingAttributes, site: Site::Item(1) });
    let with_fold = decl(
        "Stack",
        vec![constant("X", vec![attr("variadic"), attr("fold"), attr("shorthand")]), method("construct")],
    );
    assert_eq!(err(&with_fold).kind, ErrorKind::ConflictingAttributes);
}

#[test]
fn set_without_construct_is_missing_constructor() {
    let d = decl("Para", vec![constant("WIDTH", vec![]), method("set")]);
    assert_eq!(err(&d), GenError { kind: ErrorKind::MissingConstructor, site: Site::Whole });
    let empty = decl("Para", vec![]);
    assert_eq!(err(&empty).kind, ErrorKind::MissingConstructor);
}

#[test]
fn other_method_is_unexpected() {
    let d = decl("Para", vec![method("construct"), method("layout")]);
    assert_eq!(err(&d), GenError { kind: ErrorKind::UnexpectedMethod, site: Site::Item(1) });
}

#[test]
fn other_item_is_unexpected() {
    let d = decl("Para", vec![method("construct"), Item::Other]);
    assert_eq!(err(&d), GenError { kind: ErrorKind::UnexpectedItem, site: Site::Item(1) });
}

#[test]
fn first_failing_item_is_reported() {
    let d = decl("Para", vec![method("draw"), Item::Other]);
    assert_eq!(err(&d).kind, ErrorKind::UnexpectedMethod);
}

#[test]
fn malformed_self_type() {
    let d = ClassDecl { self_ty: SelfType::Other, items: vec![method("construct")] };
    assert_eq!(err(&d), GenError { kind: ErrorKind::MalformedSelfType, site: Site::SelfType });
    let empty = ClassDecl { self_ty: SelfType::Path(vec![]), items: vec![method("construct")] };
    assert_eq!(err(&empty).kind, ErrorKind::MalformedSelfType);
}

#[test]
fn invalid_fold_argument() {
    let bad = Attribute { path: "fold".to_string(), args_parse: false };
    let d = decl(
        "Text",
        vec![constant("A", vec![]), constant("B", vec![attr("doc"), bad, attr("shorthand"), attr("variadic")]), method("construct")],
    );
    assert_eq!(err(&d), GenError { kind: ErrorKind::InvalidFold, site: Site::Attr(1, 1) });
}

#[test]
fn qualified_attribute_is_kept() {
    let d = decl("Text", vec![constant("A", vec![attr("crate::fold"), attr("skip")]), method("construct")]);
    let e = ok(&d);
    assert_eq!(e.properties[0].kept_attrs, vec![0]);
    assert_eq!(e.properties[0].fold, None);
    assert!(e.properties[0].skip);
}

#[test]
fn expansion_is_deterministic() {
    let d = decl(
        "Text",
        vec![constant("A", vec![attr("fold")]), constant("B_C", vec![attr("variadic")]), method("construct")],
    );
    assert_eq!(format!("{:?}", expand(&d)), format!("{:?}", expand(&d)));
    assert_eq!(format!("{:?}", expand(&d)), format!("{:?}", expand(&d.clone())));
}

#[test]
fn distinct_properties_get_distinct_keys() {
    let d = decl("Text", vec![constant("TOP", vec![]), constant("BOTTOM", vec![]), method("construct")]);
    let e = ok(&d);
    assert_ne!(e.properties[0].display_name, e.properties[1].display_name);
    assert_ne!(e.properties[0].name, e.properties[1].name);
    assert_eq!(e.properties[1].display_name, "Text::BOTTOM");
}

#[test]
fn header_type_arguments() {
    let t = SelfType::Path(vec![
        Segment { ident: "crate".to_string(), args: PathArgs::Plain },
        Segment {
            ident: "Node".to_string(),
            args: PathArgs::AngleBracketed(vec![GenericArg::Other, GenericArg::Type, GenericArg::Type]),
        },
    ]);
    let (name, args) = parse_self(&t).unwrap();
    assert_eq!(name, "Node");
    assert_eq!(args, vec![1, 2]);
    let d = ClassDecl { self_ty: t, items: vec![method("construct")] };
    let e = ok(&d);
    assert_eq!(e.module, "Node_types");
    assert_eq!(e.self_args, vec![1, 2]);
    let p = SelfType::Path(vec![Segment { ident: "F".to_string(), args: PathArgs::Parenthesized }]);
    assert_eq!(parse_self(&p).unwrap().1, Vec::<usize>::new());
}

#[test]
fn process_const_reads_attributes() {
    let c = ConstItem { ident: "BASELINE".to_string(), attrs: vec![attr("shorthand"), attr("note")] };
    let p = process_const(&c, 4, &"Text".to_string()).unwrap();
    assert_eq!(p.item, 4);
    assert_eq!(p.display_name, "Text::BASELINE");
    assert!(p.shorthand && !p.variadic && !p.skip);
    assert_eq!(p.kept_attrs, vec![1]);
    let stmts = generate_set(&vec![p]);
    assert_eq!(stmts[0].arg_name, "baseline");
}

#[test]
fn names_are_derived() {
    assert_eq!(arg_name(&"LINE_HEIGHT".to_string()), "line-height");
    assert_eq!(arg_name(&"A__B".to_string()), "a--b");
    assert_eq!(module_name(&"Image".to_string()), "Image_types");
    assert_eq!(display_name(&"Image".to_string(), &"FIT".to_string()), "Image::FIT");
    assert!(is_text(&"set".to_string(), "set"));
    assert!(!is_text(&"sets".to_string(), "set"));
}

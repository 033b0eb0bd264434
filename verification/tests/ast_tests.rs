use nuvc::ast::{
    BinOpType, Expression, ExpressionIndex, Path, ProgramArena, TypeName,
};

#[test]
fn path_of_renders_single_segment() {
    assert_eq!(Path::of("test").to_string(), "test");
    assert_eq!(Path::new().to_string(), "");
}

#[test]
fn path_append_joins_with_separator() {
    let p = Path::of("root").append("sub".to_string()).append("leaf".to_string());
    assert_eq!(p.to_string(), "root::sub::leaf");
}

#[test]
fn path_pop_takes_last_segment() {
    let mut p = Path::of("root").append("sub".to_string());
    assert_eq!(p.pop(), "sub");
    assert_eq!(p.to_string(), "root");
}

#[test]
fn type_name_renders_path_and_name() {
    let t = TypeName::from((Path::of("std"), "Int32".to_string()));
    assert_eq!(t.to_string(), "std::Int32");
    let bare = TypeName::from((Path::new(), "Int32".to_string()));
    assert_eq!(bare.to_string(), "::Int32");
}

#[test]
fn type_name_renders_arguments_between_brackets() {
    let arg1 = TypeName::from((Path::new(), "Int32".to_string()));
    let arg2 = TypeName::from((Path::new(), "Bool".to_string()));
    let t = TypeName {
        path: Path::of("std"),
        name: "Map".to_string(),
        arguments: vec![Box::new(arg1), Box::new(arg2)],
    };
    assert_eq!(t.to_string(), "std::Map[::Int32::Bool]");
}

#[test]
fn binop_symbols_render() {
    assert_eq!(BinOpType::Plus.to_string(), "+");
    assert_eq!(BinOpType::Minus.to_string(), "-");
    assert_eq!(BinOpType::Star.to_string(), "*");
    assert_eq!(BinOpType::ForwardSlash.to_string(), "/");
    assert_eq!(BinOpType::LessThan.to_string(), "<");
    assert_eq!(BinOpType::GreaterThan.to_string(), ">");
    assert_eq!(BinOpType::LessThanEqualTo.to_string(), "<=");
    assert_eq!(BinOpType::GreaterThanEqualTo.to_string(), ">=");
    assert_eq!(BinOpType::And.to_string(), "and");
    assert_eq!(BinOpType::Or.to_string(), "or");
}

#[test]
fn display_string_renders_leaves() {
    assert_eq!(Expression::Ref("x".to_string()).display_string(), "x");
    assert_eq!(Expression::NatLiteral(42).display_string(), "42");
    assert_eq!(Expression::NatLiteral(-42).display_string(), "-42");
    assert_eq!(Expression::NatLiteral(0).display_string(), "0");
    assert_eq!(Expression::BoolLiteral(true).display_string(), "true");
    assert_eq!(Expression::BoolLiteral(false).display_string(), "false");
}

#[test]
fn display_string_shows_raw_slots_for_operands() {
    let a = ExpressionIndex { slot: 1, generation: 0 };
    let b = ExpressionIndex { slot: 2, generation: 0 };
    assert_eq!(Expression::BinOp(a, BinOpType::Plus, b).display_string(), "#1 + #2");
    let agg = ExpressionIndex { slot: 0, generation: 0 };
    assert_eq!(
        Expression::FieldAccessor { aggregate: agg, name: "field1".to_string() }.display_string(),
        "#0.field1"
    );
}

#[test]
fn expression_to_string_dereferences_the_arena() {
    let mut pa = ProgramArena::new();
    let one = pa.expression_arena.insert(Expression::NatLiteral(1));
    let x = pa.expression_arena.insert(Expression::Ref("x".to_string()));
    let sum = pa.expression_arena.insert(Expression::BinOp(one, BinOpType::Plus, x));
    let product = Expression::BinOp(sum, BinOpType::Star, one);
    assert_eq!(product.to_string(&pa), "((1 + x) * 1)");
    let field = Expression::FieldAccessor { aggregate: sum, name: "len".to_string() };
    assert_eq!(field.to_string(&pa), "(1 + x).len");
}

#[test]
fn expression_to_string_falls_back_on_unresolvable_operands() {
    let mut pa = ProgramArena::new();
    let one = pa.expression_arena.insert(Expression::NatLiteral(1));
    let dangling = ExpressionIndex { slot: 9, generation: 0 };
    let e = Expression::BinOp(one, BinOpType::Plus, dangling);
    assert_eq!(e.to_string(&pa), "#0 + #9");
    let f = Expression::FieldAccessor { aggregate: dangling, name: "x".to_string() };
    assert_eq!(f.to_string(&pa), "#9.x");
}

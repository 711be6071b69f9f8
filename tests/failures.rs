use serr::decimal::push_decimal;
use serr::{IoFailure, SExpr, Token, VarFailure};
use serr::{bail, bail_with, serr, SErr, SResult};

fn all_variants() -> Vec<SErr> {
    vec![
        SErr::Generic("g".to_string()),
        SErr::FoundNothing,
        SErr::EnvNotFound,
        SErr::DivisionByZero,
        SErr::UnexpectedForm(SExpr::new("(a b)")),
        SErr::UnexpectedToken(Token::new(")")),
        SErr::NotExpectedToken(Token::new("("), Token::new(")")),
        SErr::Cast("int".to_string(), SExpr::new("\"s\"")),
        SErr::UnboundVar("v".to_string()),
        SErr::NotAProcedure(SExpr::new("42")),
        SErr::WrongArgCount(1, 2),
        SErr::IndexOutOfBounds(3, 4),
        SErr::TypeMismatch("list".to_string(), SExpr::new("1")),
        SErr::WrongPort("read-line".to_string(), "output".to_string()),
        SErr::IOErr(IoFailure::new("io")),
        SErr::VarErr(VarFailure::new("var")),
    ]
}

#[test]
fn division_by_zero_message() {
    assert_eq!(SErr::DivisionByZero.render(), "Division by zero");
}

#[test]
fn wrong_arg_count_message() {
    assert_eq!(
        SErr::WrongArgCount(2, 3).render(),
        "Wrong arg count; expected: 2, found: 3"
    );
}

#[test]
fn io_failure_keeps_os_message() {
    let os = std::io::Error::from_raw_os_error(2);
    let text = os.to_string();
    let wrapped = SErr::from(IoFailure::new(&text));
    assert_eq!(wrapped.render(), text);
    assert_eq!(wrapped.description(), "IO error.");
}

#[test]
fn unbound_var_message() {
    assert_eq!(SErr::new_unbound_var("x").render(), "Unbound variable: x");
}

#[test]
fn bail_with_formatted_template() {
    let r: SResult<()> = bail(&format!("bad {0}", 5));
    let e = r.unwrap_err();
    assert!(matches!(e, SErr::Generic(ref m) if m == "bad 5"));
    assert_eq!(e.render(), "bad 5");
}

#[test]
fn not_expected_token_message() {
    let a = Token::new("(");
    let b = Token::new("]");
    let e = SErr::NotExpectedToken(a.clone(), b.clone());
    assert_eq!(
        e.render(),
        format!("Expected one of {}, found {}", a.render(), b.render())
    );
    assert_eq!(e.render(), "Expected one of (, found ]");
}

#[test]
fn every_variant_renders_nonempty_and_repeatably() {
    for e in all_variants() {
        let first = e.render();
        assert!(!first.is_empty());
        assert_eq!(first, e.render());
        assert_eq!(first, e.clone().render());
    }
}

#[test]
fn empty_payload_text_renders_empty() {
    assert_eq!(SErr::new_generic("").render(), "");
    assert_eq!(SErr::IOErr(IoFailure::new("")).render(), "");
}

#[test]
fn category_ignores_payload() {
    let pairs = vec![
        (SErr::Generic("a".to_string()), SErr::Generic("b".to_string())),
        (SErr::WrongArgCount(0, 1), SErr::WrongArgCount(7, 9)),
        (
            SErr::Cast("int".to_string(), SExpr::new("x")),
            SErr::Cast("str".to_string(), SExpr::new("y")),
        ),
        (SErr::IOErr(IoFailure::new("a")), SErr::IOErr(IoFailure::new("b"))),
    ];
    for (a, b) in pairs {
        assert_eq!(a.description(), b.description());
    }
}

#[test]
fn category_labels() {
    let expected = vec![
        "An error.",
        "Expected some expression or token, found nothing.",
        "Environment not found. (Probably an unbound variable)",
        "Division by zero",
        "Expression is in unexpected form.",
        "Unexpected token.",
        "Unexpected token.",
        "Failed conversion.",
        "Unbound variable.",
        "Not a procedure.",
        "Wrong arg count.",
        "Index out of bounds.",
        "Type mismatch.",
        "Wrong type of port.",
        "IO error.",
        "Variable error.",
    ];
    let got: Vec<&str> = all_variants().iter().map(|e| e.description()).collect();
    assert_eq!(got, expected);
}

#[test]
fn messages_of_each_variant() {
    let expected = vec![
        "g",
        "Expected some expression or token, found nothing.",
        "Environment not found. (Probably an unbound variable)",
        "Division by zero",
        "Expression is in unexpected form: (a b)",
        "Not expected this token: )",
        "Expected one of (, found )",
        "Can't convert \"s\" to int",
        "Unbound variable: v",
        "Wrong type to apply, not a procedure: 42",
        "Wrong arg count; expected: 1, found: 2",
        "Index out of bounds. Max size: 3, requested: 4",
        "Expected a list, found this: 1",
        "Can't apply function `read-line` to a port type of output",
        "io",
        "var",
    ];
    let got: Vec<String> = all_variants().iter().map(|e| e.render()).collect();
    assert_eq!(got, expected);
}

#[test]
fn var_failure_keeps_message() {
    let text = "environment variable not found";
    let e = SErr::from(VarFailure::new(text));
    assert_eq!(e.render(), text);
    assert_eq!(e.description(), "Variable error.");
}

#[test]
fn index_bounds_extremes() {
    assert_eq!(
        SErr::IndexOutOfBounds(0, usize::MAX).render(),
        format!("Index out of bounds. Max size: 0, requested: {}", usize::MAX)
    );
}

#[test]
fn decimal_digits() {
    for n in [0usize, 9, 10, 99, 100, 1234567890, usize::MAX] {
        let mut s = "n=".to_string();
        push_decimal(&mut s, n);
        assert_eq!(s, format!("n={}", n));
    }
}

#[test]
fn constructors_build_documented_messages() {
    let g = SErr::new_generic("oops");
    assert!(matches!(g, SErr::Generic(ref m) if m == "oops"));
    assert_eq!(g.render(), "oops");
    assert_eq!(
        SErr::new_id_not_found("42").render(),
        "Expected an identifer, found: 42"
    );
    assert_eq!(
        SErr::new_expr_not_found(")").render(),
        "Expected an expression, found: )"
    );
    let x = SExpr::new("(if)");
    let f = SErr::new_unexpected_form(&x);
    assert_eq!(f.render(), "Expression is in unexpected form: (if)");
    assert_eq!(x.render(), "(if)");
}

#[test]
fn helpers_match_manual_construction() {
    let r: SResult<u32> = serr(SErr::DivisionByZero);
    let e = r.unwrap_err();
    assert!(matches!(e, SErr::DivisionByZero));
    assert_eq!(e.render(), SErr::DivisionByZero.render());

    let r: SResult<u32> = bail("plain");
    let e = r.unwrap_err();
    let manual = SErr::new_generic("plain");
    assert_eq!(e.render(), manual.render());
    assert_eq!(e.description(), manual.description());

    let r: SResult<u32> = bail_with(SErr::WrongArgCount(1, 0));
    let e = r.unwrap_err();
    assert!(matches!(e, SErr::WrongArgCount(1, 0)));
    assert_eq!(e.render(), SErr::WrongArgCount(1, 0).render());
}

#[test]
fn clone_leaves_original() {
    let e = SErr::TypeMismatch("number".to_string(), SExpr::new("'a"));
    let c = e.clone();
    drop(e);
    assert_eq!(c.render(), "Expected a number, found this: 'a");
}

use rustex::content::{clone_nodes, clone_rows, Core};
use rustex::decimal::push_decimal;
use rustex::equations::{clone_equation, new_equation, EquationElements};
use rustex::operators::{Operators, VarOrImm};

#[test]
fn decimal_is_appended_to_what_the_buffer_holds() {
    let mut buf = String::from("n = ");
    push_decimal(&mut buf, -305);
    push_decimal(&mut buf, 0);
    push_decimal(&mut buf, 70);
    assert_eq!(buf, "n = -305070");
}

#[test]
fn copied_nodes_are_equal_and_in_order() {
    let mut section = Core::section("s");
    section.add(Core::text("inside")).unwrap();
    let nodes = vec![Core::text("a"), section, Core::item(Core::math("m"))];
    assert_eq!(clone_nodes(&nodes), nodes);
    let none: Vec<Core> = Vec::new();
    assert_eq!(clone_nodes(&none), none);
}

#[test]
fn copied_rows_are_equal_and_in_order() {
    let rows = vec![vec![Core::text("a"), Core::text("b")], vec![], vec![Core::math("c")]];
    assert_eq!(clone_rows(&rows), rows);
}

#[test]
fn copied_equation_is_equal() {
    let mut eq = new_equation(&vec!["x", "<=", "y"]);
    eq.push(EquationElements::Operator(Operators::Product(
        VarOrImm::new("k"),
        VarOrImm::new(1),
        VarOrImm::new("n"),
    )));
    assert_eq!(clone_equation(&eq), eq);
    assert_eq!(eq[1].clone(), eq[1]);
}

use smallstep::rendering::decimal_string;
use smallstep::Node;

fn name(text: &str) -> String {
    text.to_string()
}

#[test]
fn decimal_text_of_zero_is_a_single_digit() {
    assert_eq!("0", decimal_string(0));
}

#[test]
fn decimal_text_of_small_and_large_numbers() {
    assert_eq!("7", decimal_string(7));
    assert_eq!("10", decimal_string(10));
    assert_eq!("1234567890", decimal_string(1234567890));
    assert_eq!("9223372036854775807", decimal_string(i64::MAX));
}

#[test]
fn decimal_text_of_negative_numbers_starts_with_a_minus_sign() {
    assert_eq!("-1", decimal_string(-1));
    assert_eq!("-10", decimal_string(-10));
    assert_eq!("-405", decimal_string(-405));
    assert_eq!("-9223372036854775808", decimal_string(i64::MIN));
}

#[test]
fn decimal_text_agrees_with_the_standard_formatting() {
    let mut v: i64 = -1000;
    while v <= 1000 {
        assert_eq!(format!("{}", v), decimal_string(v));
        v += 1;
    }
    let mut w: i64 = 1;
    while w < i64::MAX / 7 {
        assert_eq!(format!("{}", w), decimal_string(w));
        assert_eq!(format!("{}", -w), decimal_string(-w));
        assert_eq!(format!("{}", w - 1), decimal_string(w - 1));
        w *= 7;
    }
}

#[test]
fn renders_numbers_with_their_sign() {
    assert_eq!("-12", Node::number(-12).to_string());
    assert_eq!("0", Node::number(0).to_string());
}

#[test]
fn renders_both_truth_values() {
    assert_eq!("true", Node::boolean(true).to_string());
    assert_eq!("false", Node::boolean(false).to_string());
}

#[test]
fn renders_binary_operations_infix() {
    assert_eq!("1 + 2", Node::add(Node::number(1), Node::number(2)).to_string());
    assert_eq!("3 * 4", Node::multiply(Node::number(3), Node::number(4)).to_string());
    assert_eq!("5 < 6", Node::less_than(Node::number(5), Node::number(6)).to_string());
}

#[test]
fn renders_operands_before_the_syntax_around_them() {
    let tree = Node::add(
        Node::multiply(Node::number(5), Node::number(10)),
        Node::multiply(Node::number(3), Node::number(4)),
    );
    assert_eq!("5 * 10 + 3 * 4", tree.to_string());
    let nested = Node::multiply(
        Node::add(Node::number(1), Node::number(2)),
        Node::variable(name("n")),
    );
    assert_eq!("1 + 2 * n", nested.to_string());
}

#[test]
fn renders_a_variable_as_its_name() {
    assert_eq!("counter", Node::variable(name("counter")).to_string());
    assert_eq!("", Node::variable(name("")).to_string());
}

#[test]
fn renders_an_assignment() {
    let assign = Node::assign(name("x"), Node::add(Node::variable(name("x")), Node::number(1)));
    assert_eq!("x = x + 1", assign.to_string());
}

#[test]
fn renders_a_conditional_with_and_without_alternative() {
    let both = Node::if_else_cond(
        Node::less_than(Node::variable(name("a")), Node::number(3)),
        Node::assign(name("a"), Node::number(3)),
        Node::do_nothing(),
    );
    assert_eq!("if (a < 3) a = 3 else do-nothing", both.to_string());
    let one = Node::if_cond(Node::boolean(true), Node::number(9));
    assert_eq!("if (true) 9 else do-nothing", one.to_string());
}

#[test]
fn renders_a_sequence_with_a_semicolon() {
    let seq = Node::sequence(
        Node::assign(name("x"), Node::number(1)),
        Node::assign(name("y"), Node::number(2)),
    );
    assert_eq!("x = 1; y = 2", seq.to_string());
}

#[test]
fn renders_a_loop() {
    let node = Node::while_node(
        Node::less_than(Node::variable(name("x")), Node::number(4)),
        Node::assign(name("x"), Node::add(Node::variable(name("x")), Node::number(1))),
    );
    assert_eq!("while (x < 4) x = x + 1", node.to_string());
}

#[test]
fn a_copy_renders_as_its_source() {
    let node = Node::if_else_cond(
        Node::less_than(Node::variable(name("x")), Node::number(-4)),
        Node::sequence(Node::assign(name("x"), Node::number(1)), Node::do_nothing()),
        Node::while_node(Node::boolean(false), Node::multiply(Node::number(2), Node::number(3))),
    );
    let copy = node.clone();
    assert_eq!(node.to_string(), copy.to_string());
    assert_eq!(
        "if (x < -4) x = 1; do-nothing else while (false) 2 * 3",
        copy.to_string()
    );
}

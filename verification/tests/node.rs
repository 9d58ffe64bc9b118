use smallstep::environment::Environment;
use smallstep::Node;

#[test]
fn test_creates_number() {
    let number = Node::number(2);
    assert_eq!(false, number.reducable());
    assert_eq!(2, number.value());
    assert_eq!("2".to_string(), number.to_string());
}

#[test]
fn test_creates_boolean() {
    let val = Node::boolean(true);
    assert_eq!(false, val.reducable());
    assert_eq!(true, val.condition());
    assert_eq!("true".to_string(), val.to_string());
}

#[test]
fn test_creates_add_node() {
    let add = Node::add(Node::number(4), Node::number(5));
    assert_eq!(true, add.reducable());
    assert_eq!("4 + 5".to_string(), add.to_string());
}

#[test]
fn test_reduce_add_node() {
    let add = Node::add(Node::number(5), Node::number(10));
    let mut env = Environment::new();
    assert_eq!(15, add.reduce(&mut env).value());
    assert_eq!("15".to_string(), add.reduce(&mut env).to_string());
}

#[test]
fn test_creates_mulitply_node() {
    let mult = Node::multiply(Node::number(10), Node::number(3));
    assert_eq!(true, mult.reducable());
    assert_eq!("10 * 3".to_string(), mult.to_string());
}

#[test]
fn test_reduce_multiply_node() {
    let mult = Node::multiply(Node::number(5), Node::number(7));
    let mut env = Environment::new();
    assert_eq!(35, mult.reduce(&mut env).value());
    assert_eq!("35".to_string(), mult.reduce(&mut env).to_string());
}

#[test]
fn test_creates_less_than_node() {
    let lessthan = Node::less_than(Node::number(12), Node::number(8));
    assert_eq!(true, lessthan.reducable());
    assert_eq!("12 < 8".to_string(), lessthan.to_string());
}

#[test]
fn test_reduce_less_than_node() {
    let less = Node::less_than(Node::number(7), Node::number(8));
    let mut env = Environment::new();
    assert_eq!(true, less.reduce(&mut env).condition());
    assert_eq!("true".to_string(), less.reduce(&mut env).to_string());
}

#[test]
fn test_create_variable() {
    let var = Node::variable("x".to_string());
    assert_eq!("x".to_string(), var.to_string());
}

#[test]
fn test_environment_resolve_variable() {
    let var = Node::variable("y".to_string());
    let mut env = Environment::new();
    env.add("y".to_string(), Node::number(2));
    assert_eq!(2, var.reduce(&mut env).value());
    assert_eq!("2".to_string(), var.reduce(&mut env).to_string());
}

#[test]
fn test_creates_do_nothing_node() {
    let do_nothing = Node::do_nothing();
    assert_eq!(false, do_nothing.reducable());
    assert_eq!("do-nothing".to_string(), do_nothing.to_string());
}

#[test]
fn test_creates_assignment_node() {
    let assign = Node::assign("x".to_string(), Node::number(2));
    assert_eq!(true, assign.reducable());
    assert_eq!("x = 2".to_string(), assign.to_string());
}

#[test]
fn test_reduce_assignment_node() {
    let assign = Node::assign("x".to_string(), Node::number(2));
    let mut env = Environment::new();
    assert_eq!("do-nothing".to_string(), assign.reduce(&mut env).to_string());
    assert_eq!(2, env.get("x".to_string()).value());
}

#[test]
fn test_create_if_conditional() {
    let if_cond = Node::if_else_cond(Node::boolean(true), Node::number(1), Node::number(2));
    assert_eq!(true, if_cond.reducable());
    assert_eq!("if (true) 1 else 2".to_string(), if_cond.to_string());
}

#[test]
fn test_run_if_else_conditional_consequence() {
    let cond = Node::if_else_cond(Node::boolean(true), Node::number(4), Node::number(8));
    let mut env = Environment::new();
    assert_eq!(4, cond.reduce(&mut env).value());
}

#[test]
fn test_run_if_else_conditional_alternative() {
    let cond = Node::if_else_cond(Node::boolean(false), Node::number(4), Node::number(8));
    let mut env = Environment::new();
    assert_eq!(8, cond.reduce(&mut env).value());
}

#[test]
fn test_run_if_conditional_with_empty_else() {
    let cond = Node::if_cond(Node::boolean(false), Node::number(1));
    let mut env = Environment::new();
    assert_eq!("do-nothing".to_string(), cond.reduce(&mut env).to_string());
}

#[test]
fn test_creates_sequence_node() {
    let seq = Node::sequence(Node::boolean(false), Node::number(2));
    assert_eq!(true, seq.reducable());
    assert_eq!("false; 2".to_string(), seq.to_string());
}

#[test]
fn test_creates_while_node() {
    // while (x < 4) { x = x + 1} => with x = 1
    let mut env = Environment::new();
    env.add("x".to_string(), Node::number(1));
    let node = Node::while_node(
        Node::less_than(Node::variable("x".to_string()), Node::number(4)),
        Node::assign("x".to_string(), Node::add(Node::variable("x".to_string()), Node::number(1)))
    );
    assert_eq!(true, node.reducable());
    assert_eq!("while (x < 4) x = x + 1".to_string(), node.to_string());
}

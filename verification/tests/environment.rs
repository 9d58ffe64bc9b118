use smallstep::environment::Environment;
use smallstep::Node;

#[test]
fn a_new_environment_binds_nothing() {
    let env = Environment::new();
    assert!(!env.contains("x"));
    assert!(!env.contains(""));
}

#[test]
fn add_binds_a_name() {
    let mut env = Environment::new();
    env.add("x".to_string(), Node::number(5));
    assert!(env.contains("x"));
    assert!(!env.contains("y"));
    assert_eq!(5, env.get("x".to_string()).value());
}

#[test]
fn insert_binds_as_add_does() {
    let mut env = Environment::new();
    env.insert("flag".to_string(), Node::boolean(true));
    assert!(env.contains("flag"));
    assert_eq!(true, env.get("flag".to_string()).condition());
}

#[test]
fn binding_again_replaces_the_node() {
    let mut env = Environment::new();
    env.add("x".to_string(), Node::number(1));
    env.insert("x".to_string(), Node::number(2));
    assert_eq!(2, env.get("x".to_string()).value());
    env.add("x".to_string(), Node::do_nothing());
    assert_eq!("do-nothing", env.get("x".to_string()).to_string());
}

#[test]
fn bindings_are_kept_apart_by_name() {
    let mut env = Environment::new();
    env.add("x".to_string(), Node::number(1));
    env.add("xx".to_string(), Node::number(2));
    env.add("".to_string(), Node::number(3));
    assert_eq!(1, env.get("x".to_string()).value());
    assert_eq!(2, env.get("xx".to_string()).value());
    assert_eq!(3, env.get("".to_string()).value());
}

#[test]
fn get_hands_out_a_copy() {
    let mut env = Environment::new();
    env.add("e".to_string(), Node::add(Node::number(1), Node::number(2)));
    let first = env.get("e".to_string());
    let second = env.get("e".to_string());
    assert_eq!("1 + 2", first.to_string());
    assert_eq!("1 + 2", second.to_string());
}

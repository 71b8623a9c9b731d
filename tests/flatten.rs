use rover::invocation::{get_command_from_args, get_next_command, Command, CommandValue, Node, Step};
use serde_json::Value;

fn node(command: Option<CommandValue<Value>>, fields: Vec<(&str, Value)>) -> Node<Value> {
    Node {
        command,
        fields: fields.into_iter().map(|(k, v)| (k.to_string(), v)).collect(),
    }
}

fn branch(name: &str, rest: Node<Value>) -> Option<CommandValue<Value>> {
    Some(CommandValue::Branch(name.to_string(), Box::new(rest)))
}

fn argument<'a>(c: &'a Command<Value>, key: &str) -> Option<&'a Value> {
    c.arguments.iter().find(|(k, _)| k == key).map(|(_, v)| v)
}

#[test]
fn absent_root_yields_its_fields() {
    let root = node(None, vec![("a", Value::from(1)), ("b", Value::from(2))]);
    let c = get_command_from_args(root);
    assert_eq!(c.name, "");
    assert_eq!(c.arguments.len(), 2);
    assert_eq!(argument(&c, "a"), Some(&Value::from(1)));
    assert_eq!(argument(&c, "b"), Some(&Value::from(2)));
}

#[test]
fn branch_then_leaf_yields_no_arguments() {
    let inner = node(
        Some(CommandValue::Text("bar".to_string())),
        vec![("x", Value::from(5))],
    );
    let c = get_command_from_args(node(branch("Foo", inner), vec![]));
    assert_eq!(c.name, "foo bar");
    assert!(c.arguments.is_empty());
}

#[test]
fn branch_then_absent_yields_inner_fields() {
    let inner = node(None, vec![("x", Value::from(5))]);
    let c = get_command_from_args(node(branch("Foo", inner), vec![]));
    assert_eq!(c.name, "foo");
    assert_eq!(c.arguments.len(), 1);
    assert_eq!(argument(&c, "x"), Some(&Value::from(5)));
}

#[test]
fn leaf_root_yields_its_label() {
    let c = get_command_from_args(node(Some(CommandValue::Text("status".to_string())), vec![]));
    assert_eq!(c.name, "status");
    assert!(c.arguments.is_empty());
}

#[test]
fn empty_root_yields_nothing() {
    let c = get_command_from_args(node(None, vec![]));
    assert_eq!(c.name, "");
    assert!(c.arguments.is_empty());
}

#[test]
fn flattening_twice_gives_the_same_result() {
    let make = || {
        let inner = node(None, vec![("Profile", Value::from("default")), ("x", Value::from(5))]);
        node(branch("Config", node(branch("Show", inner), vec![])), vec![])
    };
    let a = get_command_from_args(make());
    let b = get_command_from_args(make());
    assert_eq!(a.name, b.name);
    assert_eq!(a.arguments, b.arguments);
    assert_eq!(a.name, "config show");
}

#[test]
fn keys_differing_in_case_collapse() {
    let root = node(
        None,
        vec![("Verbose", Value::from(true)), ("VERBOSE", Value::from(false))],
    );
    let c = get_command_from_args(root);
    assert_eq!(c.arguments.len(), 1);
    assert_eq!(argument(&c, "verbose"), Some(&Value::from(false)));
}

#[test]
fn opaque_command_is_a_terminal_label() {
    let c = get_command_from_args(node(
        Some(CommandValue::Other("Number(5)".to_string())),
        vec![("x", Value::from(1))],
    ));
    assert_eq!(c.name, "number(5)");
    assert!(c.arguments.is_empty());
}

#[test]
fn null_command_takes_the_other_fields() {
    let c = get_command_from_args(node(Some(CommandValue::Null), vec![("Name", Value::from("x"))]));
    assert_eq!(c.name, "");
    assert_eq!(argument(&c, "name"), Some(&Value::from("x")));
}

#[test]
fn empty_branch_map_stops() {
    let c = get_command_from_args(node(Some(CommandValue::EmptyMap), vec![("x", Value::from(1))]));
    assert_eq!(c.name, "");
    assert!(c.arguments.is_empty());
}

#[test]
fn deep_chain_joins_every_label() {
    let mut n = node(Some(CommandValue::Text("LEAF".to_string())), vec![]);
    for i in 0..50 {
        n = node(branch(&format!("L{}", i), n), vec![]);
    }
    let c = get_command_from_args(n);
    let mut expected: Vec<String> = (0..50).rev().map(|i| format!("l{}", i)).collect();
    expected.push("leaf".to_string());
    assert_eq!(c.name, expected.join(" "));
}

#[test]
fn next_command_lowercases_branch_name() {
    match get_next_command(node(branch("Graph", node(None, vec![])), vec![])) {
        Step::Descend(label, next) => {
            assert_eq!(label, "graph");
            assert!(next.command.is_none());
        }
        _ => panic!("expected a descent"),
    }
}

#[test]
fn next_command_hands_out_terminal_fields() {
    match get_next_command(node(None, vec![("K", Value::from(3))])) {
        Step::Arguments(fields) => assert_eq!(fields, vec![("K".to_string(), Value::from(3))]),
        _ => panic!("expected arguments"),
    }
}

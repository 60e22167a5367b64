use smart_home::patterns::builder::MySuperSdk;
use smart_home::patterns::composite::Component;
use smart_home::patterns::composite::File;
use smart_home::patterns::composite::Folder;
use smart_home::patterns::interpret::Interpreter;
use smart_home::patterns::visitor::PrintVisitor;
use smart_home::patterns::visitor::TreeNode;

#[test]
fn test_find_existing_component() {
    let mut root = Folder::new("root");
    let leaf = File::new("leaf");
    root.add(leaf.into());

    assert!(root.find("leaf").is_some());
}

#[test]
fn test_find_non_existing_component() {
    let root = Folder::new("root");

    assert!(root.find("non_existing").is_none());
}

#[test]
fn test_find_in_nested_composite() {
    let mut root = Folder::new("root");
    let mut child = Folder::new("child");
    let leaf = Folder::new("leaf");
    child.add(leaf.into());
    root.add(child.into());

    assert!(root.find("leaf").is_some());
}

#[test]
fn test_find_file_by_own_name() {
    let file = File::new("notes");
    assert!(file.find("notes").is_some());
    assert!(file.find("other").is_none());
}

#[test]
fn test_tree_node_creation() {
    let node = TreeNode::new(5);
    assert_eq!(node.value, 5);
    assert!(node.children.is_empty());
}

#[test]
fn test_add_child() {
    let mut node = TreeNode::new(5);
    let child = TreeNode::new(10);
    node.add_child(child);
    assert_eq!(node.children.len(), 1);
    assert_eq!(node.children[0].value, 10);
}

#[test]
fn test_print_visitor() {
    let mut node = TreeNode::new(5);
    let child = TreeNode::new(10);
    node.add_child(child);

    let mut visitor = PrintVisitor;
    node.accept(&mut visitor);
}

#[test]
fn test_builder() {
    let sdk = MySuperSdk::builder()
        .url("https://example.com".to_string())
        .user_data("user_data".to_string())
        .build()
        .unwrap();
    assert_eq!(sdk.url, "https://example.com");
    assert_eq!(sdk.user_data, "user_data");
}

#[test]
fn test_builder_missing_url() {
    let result = MySuperSdk::builder().user_data("user_data".to_string()).build();
    assert_eq!(result.unwrap_err(), "No Url Provided");
}

#[test]
fn test_builder_missing_user_data() {
    let result = MySuperSdk::builder().url("https://example.com".to_string()).build();
    assert_eq!(result.unwrap_err(), "No User Data Provided");
}

#[test]
fn test_interpret() {
    let mut interpreter = Interpreter::new("(+ 1 2)");
    assert_eq!(interpreter.interpret(), 3);
}

#[test]
fn test_interpret_complex() {
    let mut interpreter = Interpreter::new("(+ 1 2 3 4 5)");
    assert_eq!(interpreter.interpret(), 15);
}

#[test]
fn test_interpret_empty() {
    let mut interpreter = Interpreter::new("");
    assert_eq!(interpreter.interpret(), 0);
}

#[test]
fn test_interpret_single_number() {
    let mut interpreter = Interpreter::new("42");
    assert_eq!(interpreter.interpret(), 42);
}

#[test]
fn test_interpret_multi_digit() {
    let mut interpreter = Interpreter::new("(+ 10 20 30)");
    assert_eq!(interpreter.interpret(), 60);
}

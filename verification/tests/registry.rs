use hulk_core::types_tree::{TypeNode, TypeTree};

fn declared(tree: &mut TypeTree, name: &str, parent: Option<&str>) {
    let node = TypeNode::leaf(name.to_string());
    tree.add_type(node);
    if let Some(p) = parent {
        tree.set_parent(name, p.to_string());
    }
}

/// `is_ancestor` is reflexive and follows parent edges.
#[test]
fn ancestry() {
    let mut tree = TypeTree::new();
    declared(&mut tree, "Animal", Some("Object"));
    declared(&mut tree, "Dog", Some("Animal"));
    declared(&mut tree, "C", Some("Animal"));
    assert!(tree.is_ancestor("Dog", "Dog"));
    assert!(tree.is_ancestor("Animal", "Dog"));
    assert!(tree.is_ancestor("Object", "Dog"));
    assert!(!tree.is_ancestor("Dog", "Animal"));
    assert!(!tree.is_ancestor("C", "Dog"));
}

/// The lowest common ancestor of two siblings is their parent; of unrelated
/// types it falls back to `Object`.
#[test]
fn lowest_common_ancestor() {
    let mut tree = TypeTree::new();
    declared(&mut tree, "Animal", Some("Object"));
    declared(&mut tree, "Dog", Some("Animal"));
    declared(&mut tree, "C", Some("Animal"));
    assert_eq!(tree.find_lca("Dog", "C"), "Animal");
    assert_eq!(tree.find_lca("Dog", "Dog"), "Dog");
    assert_eq!(tree.find_lca("Dog", "String"), "Object");
    assert_eq!(tree.find_lca("Dog", "Unknown"), "Object");
}

/// A two-type cycle is found and reported on the first declared member.
#[test]
fn cycle_detection() {
    let mut tree = TypeTree::new();
    declared(&mut tree, "A", Some("B"));
    declared(&mut tree, "B", Some("A"));
    let found = tree.check_cycle().expect("cycle");
    assert!(found == "A" || found == "B");

    let mut acyclic = TypeTree::new();
    declared(&mut acyclic, "Animal", Some("Object"));
    assert!(acyclic.check_cycle().is_none());
}

/// Methods are found on the type itself or on an ancestor.
#[test]
fn method_search() {
    let mut tree = TypeTree::new();
    let mut animal = TypeNode::leaf("Animal".to_string());
    animal.methods.push(hulk_core::types_tree::MethodSig {
        name: "speak".to_string(),
        params: vec![],
        return_type: "String".to_string(),
    });
    tree.add_type(animal);
    declared(&mut tree, "Dog", Some("Animal"));
    let on_dog = tree.find_method("Dog", "speak").expect("inherited method");
    assert_eq!(on_dog.return_type, "String");
    assert!(tree.find_method("Dog", "bark").is_none());
}

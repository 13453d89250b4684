use i3s::error::SceneError;
use i3s::node::{Node, NodePage};
use i3s::tree::{Link, SceneTree};

fn node(index: usize, parent: Option<usize>, children: Vec<usize>) -> Node {
    let mut n = Node::default();
    n.index = index;
    n.parent_index = parent;
    n.children = children;
    n
}

fn page(nodes: Vec<Node>) -> NodePage {
    NodePage { nodes }
}

fn small_tree() -> SceneTree {
    let mut tree = SceneTree::new();
    let replaced = tree.insert(page(vec![
        node(0, None, vec![1, 2]),
        node(1, Some(0), vec![]),
        node(2, Some(0), vec![]),
    ]));
    assert!(replaced.is_empty());
    tree
}

fn indices(links: &[Link<'_>]) -> Vec<Result<usize, usize>> {
    links
        .iter()
        .map(|l| match l {
            Link::Loaded(n) => Ok(n.index),
            Link::Pending(i) => Err(*i),
        })
        .collect()
}

#[test]
fn root_leaves_and_children_of_a_small_tree() {
    let tree = small_tree();
    assert_eq!(tree.len(), 3);
    let root = tree.root().unwrap();
    assert_eq!(root.index, 0);
    assert!(root.is_root());
    assert!(!root.is_leaf());
    let one = tree.get(1).unwrap();
    let two = tree.get(2).unwrap();
    assert!(one.is_leaf());
    assert!(two.is_leaf());
    assert!(!one.is_root());
    assert!(!two.is_root());
    let children = tree.children_of(root);
    assert_eq!(indices(&children), vec![Ok(1), Ok(2)]);
    assert_eq!(indices(&root.children(&tree)), vec![Ok(1), Ok(2)]);
    assert!(tree.children_of(one).is_empty());
}

#[test]
fn empty_arena_has_no_root() {
    let tree = SceneTree::new();
    assert_eq!(tree.len(), 0);
    assert_eq!(tree.root().unwrap_err(), SceneError::NoRoot);
    assert!(tree.get(0).is_none());
}

#[test]
fn arena_of_inner_nodes_has_no_root() {
    let mut tree = SceneTree::new();
    tree.insert(page(vec![node(1, Some(0), vec![]), node(2, Some(0), vec![])]));
    assert_eq!(tree.root().unwrap_err(), SceneError::NoRoot);
}

#[test]
fn two_records_without_parent_are_multiple_roots() {
    let mut tree = SceneTree::new();
    tree.insert(page(vec![node(0, None, vec![]), node(7, None, vec![])]));
    assert_eq!(tree.root().unwrap_err(), SceneError::MultipleRoots);
    let mut tree = SceneTree::new();
    tree.insert(page(vec![node(0, None, vec![1])]));
    tree.insert(page(vec![node(1, Some(0), vec![]), node(64, None, vec![])]));
    assert_eq!(tree.root().unwrap_err(), SceneError::MultipleRoots);
}

#[test]
fn child_that_is_not_loaded_is_pending() {
    let mut tree = SceneTree::new();
    tree.insert(page(vec![node(0, None, vec![1, 64, 2]), node(1, Some(0), vec![]), node(2, Some(0), vec![])]));
    let root = tree.root().unwrap();
    let children = tree.children_of(root);
    assert_eq!(children.len(), 3);
    assert_eq!(indices(&children), vec![Ok(1), Err(64), Ok(2)]);
    assert_eq!(children[1].loaded().unwrap_err(), SceneError::PendingDependency(64));
    assert_eq!(children[0].loaded().unwrap().index, 1);
    assert!(matches!(tree.resolve(64), Link::Pending(64)));
    assert!(matches!(tree.resolve(2), Link::Loaded(n) if n.index == 2));
}

#[test]
fn pending_child_is_loaded_once_its_page_is_merged() {
    let mut tree = SceneTree::new();
    tree.insert(page(vec![node(0, None, vec![64])]));
    {
        let root = tree.root().unwrap();
        assert_eq!(indices(&tree.children_of(root)), vec![Err(64)]);
    }
    tree.insert(page(vec![node(64, Some(0), vec![])]));
    let root = tree.root().unwrap();
    assert_eq!(indices(&tree.children_of(root)), vec![Ok(64)]);
}

#[test]
fn parent_is_absent_pending_or_loaded() {
    let mut tree = small_tree();
    tree.insert(page(vec![node(200, Some(100), vec![])]));
    let root = tree.get(0).unwrap();
    assert!(tree.parent_of(root).is_none());
    assert!(root.parent(&tree).is_none());
    let one = tree.get(1).unwrap();
    assert!(matches!(tree.parent_of(one), Some(Link::Loaded(p)) if p.index == 0));
    assert!(matches!(one.parent(&tree), Some(Link::Loaded(p)) if p.index == 0));
    let orphan = tree.get(200).unwrap();
    assert!(matches!(tree.parent_of(orphan), Some(Link::Pending(100))));
    assert_eq!(
        tree.parent_of(orphan).unwrap().loaded().unwrap_err(),
        SceneError::PendingDependency(100)
    );
}

#[test]
fn inserting_a_known_index_replaces_the_record() {
    let mut tree = small_tree();
    let mut again = node(1, Some(0), vec![9]);
    again.lod_threshold = Some(1.5f32.to_bits());
    let replaced = tree.insert(page(vec![again]));
    assert_eq!(replaced, vec![1]);
    assert_eq!(tree.len(), 3);
    let one = tree.get(1).unwrap();
    assert_eq!(one.children, vec![9]);
    assert_eq!(one.lod_threshold.map(f32::from_bits), Some(1.5));
    assert!(!one.is_leaf());
    assert_eq!(tree.get(0).unwrap().children, vec![1, 2]);
    assert_eq!(tree.get(2).unwrap().parent_index, Some(0));
}

#[test]
fn later_record_of_a_page_wins() {
    let mut tree = SceneTree::new();
    let replaced = tree.insert(page(vec![
        node(3, None, vec![]),
        node(4, Some(3), vec![]),
        node(3, Some(8), vec![4]),
        node(3, Some(9), vec![4, 5]),
    ]));
    assert_eq!(replaced, vec![3, 3]);
    assert_eq!(tree.len(), 2);
    let three = tree.get(3).unwrap();
    assert_eq!(three.parent_index, Some(9));
    assert_eq!(three.children, vec![4, 5]);
}

#[test]
fn insert_node_tells_whether_it_replaced() {
    let mut tree = SceneTree::new();
    assert!(!tree.insert_node(node(5, None, vec![])));
    assert!(tree.insert_node(node(5, Some(1), vec![])));
    assert!(!tree.insert_node(node(6, Some(5), vec![])));
    assert_eq!(tree.len(), 2);
    assert_eq!(tree.get(5).unwrap().parent_index, Some(1));
}

#[test]
fn pages_may_arrive_in_any_order() {
    let mut a = SceneTree::new();
    a.insert(page(vec![node(0, None, vec![1]), node(1, Some(0), vec![])]));
    a.insert(page(vec![node(64, Some(1), vec![])]));
    let mut b = SceneTree::new();
    b.insert(page(vec![node(64, Some(1), vec![])]));
    b.insert(page(vec![node(0, None, vec![1]), node(1, Some(0), vec![])]));
    assert_eq!(a.len(), b.len());
    for i in [0usize, 1, 64] {
        assert_eq!(a.get(i).unwrap().parent_index, b.get(i).unwrap().parent_index);
        assert_eq!(a.get(i).unwrap().children, b.get(i).unwrap().children);
    }
    assert_eq!(a.root().unwrap().index, 0);
    assert_eq!(b.root().unwrap().index, 0);
}

#[test]
fn failed_fetch_leaves_the_arena_as_it_was() {
    let mut tree = small_tree();
    let r = tree.insert_fetched(Err(SceneError::DecodeFailure));
    assert_eq!(r.unwrap_err(), SceneError::DecodeFailure);
    assert_eq!(tree.len(), 3);
    assert_eq!(tree.root().unwrap().index, 0);
    assert_eq!(tree.get(0).unwrap().children, vec![1, 2]);
    assert_eq!(tree.get(1).unwrap().parent_index, Some(0));
    assert_eq!(tree.get(2).unwrap().parent_index, Some(0));
    let r = tree.insert_fetched(Err(SceneError::NotFound));
    assert_eq!(r.unwrap_err(), SceneError::NotFound);
    assert_eq!(tree.len(), 3);
    let r = tree.insert_fetched(Ok(page(vec![node(3, Some(1), vec![]), node(2, Some(0), vec![])])));
    assert_eq!(r.unwrap(), vec![2]);
    assert_eq!(tree.len(), 4);
}

#[test]
fn consistent_links_show_no_mismatch() {
    let tree = small_tree();
    assert_eq!(tree.find_link_mismatch(), None);
    let mut partly = SceneTree::new();
    partly.insert(page(vec![node(0, None, vec![1, 70]), node(1, Some(0), vec![])]));
    assert_eq!(partly.find_link_mismatch(), None);
}

#[test]
fn child_that_names_another_parent_is_reported() {
    let mut tree = SceneTree::new();
    tree.insert(page(vec![
        node(0, None, vec![1, 2]),
        node(1, Some(0), vec![]),
        node(2, Some(1), vec![]),
    ]));
    assert_eq!(tree.find_link_mismatch(), Some((0, 2)));
    // The report leaves the records as they are.
    assert_eq!(tree.get(2).unwrap().parent_index, Some(1));
}

#[test]
fn listed_root_is_no_mismatch() {
    let mut tree = SceneTree::new();
    tree.insert(page(vec![node(0, None, vec![1]), node(1, None, vec![])]));
    assert_eq!(tree.find_link_mismatch(), None);
    assert_eq!(tree.root().unwrap_err(), SceneError::MultipleRoots);
}

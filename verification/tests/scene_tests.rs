use raya::scene::{classify_node, closest_hit, group_triangles, HitCandidate, NodeRole, Primitive, SceneNode};

fn leaf(id: u32, name: &str) -> SceneNode {
    SceneNode::new(id, name.to_string())
}

#[test]
fn find_child_by_id_hits_self() {
    let root = leaf(3, "root");
    let found = root.find_child_by_id(3).expect("root id");
    assert_eq!(found.id, 3);
    assert_eq!(found.name, "root");
}

#[test]
fn find_child_by_id_searches_depth_first() {
    let mut root = leaf(0, "root");
    let mut a = leaf(5, "a");
    a.add_child(leaf(9, "deep"));
    root.add_child(a);
    root.add_child(leaf(7, "b"));

    assert_eq!(root.find_child_by_id(9).expect("deep child").name, "deep");
    assert_eq!(root.find_child_by_id(7).expect("second child").name, "b");
    assert!(root.find_child_by_id(8).is_none());
}

#[test]
fn find_child_by_id_first_match_wins() {
    let mut root = leaf(0, "root");
    root.add_child(leaf(5, "first"));
    root.add_child(leaf(5, "second"));
    assert_eq!(root.find_child_by_id(5).expect("duplicate id").name, "first");
}

#[test]
fn new_node_is_bare() {
    let n = leaf(11, "bare");
    assert_eq!(n.id, 11);
    assert!(n.children.is_empty());
    assert_eq!(n.primitive, Primitive::Empty);
}

#[test]
fn closest_hit_empty() {
    assert_eq!(closest_hit(&Vec::new()), None);
}

#[test]
fn closest_hit_picks_minimum() {
    let cands = vec![
        HitCandidate { node: 1, distance_key: 10 },
        HitCandidate { node: 2, distance_key: 5 },
        HitCandidate { node: 3, distance_key: 7 },
    ];
    assert_eq!(closest_hit(&cands), Some(1));
}

#[test]
fn closest_hit_tie_goes_to_first() {
    let cands = vec![
        HitCandidate { node: 1, distance_key: 5 },
        HitCandidate { node: 2, distance_key: 5 },
    ];
    assert_eq!(closest_hit(&cands), Some(0));
}

#[test]
fn closest_hit_two_spheres_in_front() {
    // two spheres along one ray, one strictly in front of the other: the
    // squared distances order the same way as their bit patterns
    let near = 1.5f32 * 1.5f32;
    let far = 4.0f32 * 4.0f32;
    let cands = vec![
        HitCandidate { node: 20, distance_key: far.to_bits() as u64 },
        HitCandidate { node: 10, distance_key: near.to_bits() as u64 },
    ];
    let i = closest_hit(&cands).expect("two candidates");
    assert_eq!(cands[i].node, 10);
}

#[test]
fn classify_node_roles() {
    assert_eq!(classify_node(Some(1), Some(1)), Some(NodeRole::Reflector));
    assert_eq!(classify_node(Some(2), Some(7)), Some(NodeRole::Source));
    assert_eq!(classify_node(Some(3), Some(1)), Some(NodeRole::Receiver));
    // inactive or unmarked nodes are skipped, whatever their kind
    assert_eq!(classify_node(Some(1), Some(0)), None);
    assert_eq!(classify_node(Some(2), None), None);
    // unknown kinds are skipped even when active
    assert_eq!(classify_node(Some(4), Some(1)), None);
    assert_eq!(classify_node(None, Some(1)), None);
}

#[test]
fn group_triangles_consumes_three_at_a_time() {
    assert_eq!(
        group_triangles(&vec![0, 1, 2, 0, 2, 3]),
        vec![(0, 1, 2), (0, 2, 3)]
    );
    // a trailing incomplete group is dropped
    assert_eq!(group_triangles(&vec![5, 6, 7, 8]), vec![(5, 6, 7)]);
    assert_eq!(group_triangles(&vec![1, 2]), Vec::<(u32, u32, u32)>::new());
}

use raya::acoustic_raytrace::{AcousticRaytracer, RayPath, TraceState};
use raya::reconstruction_filter::{band_edge_pairs, mirror_spectrum};
use raya::scene::{Primitive, SceneNode};

#[test]
fn zero_order_admits_no_hit() {
    let st = TraceState::new(42, 0);
    assert!(!st.should_continue());
    assert!(st.finish(0).is_none());
}

#[test]
fn first_hit_on_receiver_gives_path_of_length_one() {
    let mut st = TraceState::new(42, 5);
    assert!(st.should_continue());
    st.record_hit(42);
    assert!(!st.should_continue());
    let p = st.finish(7).expect("receiver struck");
    assert_eq!(p.path, vec![42]);
    assert_eq!(p.distance_key, 7);
}

#[test]
fn bounces_end_at_receiver() {
    let mut st = TraceState::new(9, 10);
    for node in [1u32, 2, 3] {
        assert!(st.should_continue());
        st.record_hit(node);
    }
    assert!(st.should_continue());
    st.record_hit(9);
    assert!(!st.should_continue());
    let p = st.finish(100).expect("receiver struck");
    assert_eq!(p.path, vec![1, 2, 3, 9]);
    assert_eq!(*p.path.last().unwrap(), 9);
    assert!(1 <= p.path.len() && p.path.len() <= 10);
}

#[test]
fn exhausted_budget_discards_the_attempt() {
    let mut st = TraceState::new(9, 2);
    st.record_hit(1);
    st.record_hit(2);
    assert!(!st.should_continue());
    assert!(st.finish(0).is_none());
}

#[test]
fn escaped_ray_discards_the_attempt() {
    // the scene returned no further hit; the caller just stops feeding
    let mut st = TraceState::new(9, 50);
    st.record_hit(1);
    assert!(st.should_continue());
    assert!(st.finish(0).is_none());
}

#[test]
fn session_counts_paths_against_quota() {
    let root = SceneNode::new(0, "root".to_string());
    let mut art = AcousticRaytracer::new(root, 1, 50, 2);
    assert!(art.needs_more_paths());
    art.store_batch(vec![RayPath { path: vec![1], distance_key: 3 }]);
    assert!(art.needs_more_paths());
    art.store_batch(vec![RayPath { path: vec![2, 1], distance_key: 5 }]);
    assert!(!art.needs_more_paths());
    assert_eq!(art.ray_paths.len(), 2);
}

#[test]
fn default_session_has_sphere_receiver() {
    let art = AcousticRaytracer::default();
    assert_eq!(art.receiver, 1);
    assert_eq!(art.max_order, 100);
    assert_eq!(art.ray_count, 10000);
    assert!(art.ray_paths.is_empty());
    assert_eq!(art.root_node.id, 0);
    assert_eq!(art.root_node.children.len(), 1);
    assert_eq!(art.root_node.children[0].id, 1);
    assert_eq!(art.root_node.children[0].primitive, Primitive::Sphere);
}

#[test]
fn paths_sort_ascending_by_distance() {
    let root = SceneNode::new(0, "root".to_string());
    let mut art = AcousticRaytracer::new(root, 1, 50, 3);
    art.store_batch(vec![
        RayPath { path: vec![5, 1], distance_key: 50 },
        RayPath { path: vec![1], distance_key: 10 },
        RayPath { path: vec![6, 1], distance_key: 30 },
    ]);
    art.sort_paths_by_distance();
    let keys: Vec<u64> = art.ray_paths.iter().map(|p| p.distance_key).collect();
    assert_eq!(keys, vec![10, 30, 50]);
    assert_eq!(art.ray_paths[0].path, vec![1]);
    assert_eq!(art.ray_paths[1].path, vec![6, 1]);
    assert_eq!(art.ray_paths[2].path, vec![5, 1]);
}

#[test]
fn distance_keys_order_like_distances() {
    // nonnegative single-precision distances order the same way as their
    // bit patterns, which is what the sort key relies on
    let distances = [2.5f32, 0.1, 1.7, 0.0, 343.0];
    let mut by_float = distances.to_vec();
    by_float.sort_by(|a, b| a.partial_cmp(b).unwrap());

    let root = SceneNode::new(0, "root".to_string());
    let mut art = AcousticRaytracer::new(root, 1, 50, 5);
    art.store_batch(
        distances
            .iter()
            .map(|d| RayPath { path: vec![1], distance_key: d.to_bits() as u64 })
            .collect(),
    );
    art.sort_paths_by_distance();
    let sorted_back: Vec<f32> =
        art.ray_paths.iter().map(|p| f32::from_bits(p.distance_key as u32)).collect();
    assert_eq!(sorted_back, by_float);
}

#[test]
fn band_edge_pairs_are_adjacent() {
    let edges = vec![63u64, 229, 834, 3032, 11024];
    let pairs = band_edge_pairs(&edges);
    assert_eq!(pairs, vec![(63, 229), (229, 834), (834, 3032), (3032, 11024)]);
}

#[test]
fn mirror_spectrum_even_length() {
    let mut mask = vec![0u64, 1, 2, 3, 4, 5, 6, 7];
    mirror_spectrum(&mut mask);
    assert_eq!(mask, vec![0, 1, 2, 3, 4, 3, 2, 1]);
}

#[test]
fn mirror_spectrum_odd_length() {
    let mut mask = vec![0u64, 1, 2, 3, 4, 5, 6];
    mirror_spectrum(&mut mask);
    assert_eq!(mask, vec![0, 1, 2, 3, 3, 2, 1]);
}

#[test]
fn mirror_spectrum_short_inputs_unchanged() {
    let mut empty: Vec<u64> = Vec::new();
    mirror_spectrum(&mut empty);
    assert!(empty.is_empty());
    let mut one = vec![9u64];
    mirror_spectrum(&mut one);
    assert_eq!(one, vec![9]);
    let mut two = vec![9u64, 4];
    mirror_spectrum(&mut two);
    assert_eq!(two, vec![9, 4]);
}

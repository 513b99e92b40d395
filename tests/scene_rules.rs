use peer_bootstrap::scene::{
    feedback, observed_count, structural_reaction, Feedback, MarkerView, Scene,
};

fn mv(entity: u64, children: usize, fresh: bool) -> MarkerView {
    MarkerView { entity, children, fresh }
}

#[test]
fn reaction_attaches_to_childless_only() {
    let mut ms = vec![mv(1, 0, true), mv(2, 3, false), mv(3, 0, false)];
    let attached = structural_reaction(&mut ms);
    assert_eq!(attached, vec![1, 3]);
    assert_eq!(ms, vec![mv(1, 1, true), mv(2, 3, false), mv(3, 1, false)]);
}

#[test]
fn reaction_twice_attaches_nothing_more() {
    let mut ms = vec![mv(4, 0, true), mv(5, 0, true)];
    assert_eq!(structural_reaction(&mut ms), vec![4, 5]);
    assert_eq!(structural_reaction(&mut ms), Vec::<u64>::new());
    assert_eq!(ms, vec![mv(4, 1, true), mv(5, 1, true)]);
}

#[test]
fn reaction_on_no_markers() {
    let mut ms: Vec<MarkerView> = Vec::new();
    assert!(structural_reaction(&mut ms).is_empty());
    assert!(ms.is_empty());
}

#[test]
fn observed_counts_new_markers_with_children() {
    let ms = vec![mv(1, 1, true), mv(2, 0, true), mv(3, 2, false), mv(4, 5, true)];
    assert_eq!(observed_count(&ms), 2);
    assert_eq!(observed_count(&Vec::new()), 0);
}

#[test]
fn feedback_outcomes() {
    assert_eq!(feedback(0, 1), Feedback::Unchanged);
    assert_eq!(feedback(2, 1), Feedback::Unchanged);
    assert_eq!(feedback(1, 0), Feedback::NoLabel);
    assert_eq!(feedback(1, 2), Feedback::NoLabel);
    assert_eq!(feedback(1, 1), Feedback::Recolor);
}

#[test]
fn host_scene_recolors_once_and_keeps_colour() {
    let mut s = Scene::new(1);
    let r = s.tick();
    assert_eq!(r.feedback, Feedback::Unchanged);
    assert!(!s.label_observed);
    s.arrive(42);
    let r = s.tick();
    assert_eq!(r.attached, vec![42]);
    assert_eq!(r.feedback, Feedback::Recolor);
    assert!(s.label_observed);
    assert_eq!(s.markers, vec![mv(42, 1, false)]);
    for _ in 0..5 {
        let r = s.tick();
        assert!(r.attached.is_empty());
        assert_eq!(r.feedback, Feedback::Unchanged);
        assert!(s.label_observed);
    }
}

#[test]
fn peer_scene_attaches_its_own_child_after_replication() {
    let mut s = Scene::new(1);
    for _ in 0..3 {
        assert_eq!(s.tick().feedback, Feedback::Unchanged);
    }
    s.arrive(7);
    let r = s.tick();
    assert_eq!(r.attached, vec![7]);
    assert_eq!(r.feedback, Feedback::Recolor);
    assert_eq!(s.markers[0].children, 1);
}

#[test]
fn two_new_markers_leave_label_alone() {
    let mut s = Scene::new(1);
    s.arrive(1);
    s.arrive(2);
    let r = s.tick();
    assert_eq!(r.attached, vec![1, 2]);
    assert_eq!(r.feedback, Feedback::Unchanged);
    assert!(!s.label_observed);
}

#[test]
fn missing_label_is_reported() {
    let mut s = Scene::new(0);
    s.arrive(9);
    assert_eq!(s.tick().feedback, Feedback::NoLabel);
    assert!(!s.label_observed);
}

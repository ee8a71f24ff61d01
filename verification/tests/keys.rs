//! The names of keys.

use sidekiq::keys::{inprogress_key, queue_key, split_inprogress, work_key};

#[test]
fn keys_are_made_of_their_parts() {
    assert_eq!(queue_key("default"), "queue:default");
    assert_eq!(inprogress_key("queue:default", "host:1:ff"), "queue:default:inprogress:host:1:ff");
    assert_eq!(work_key("host:1:ff"), "host:1:ff:work");
}

#[test]
fn splits_at_the_last_marker() {
    let member = inprogress_key("queue:a:inprogress:b", "host:1:ff");
    assert_eq!(split_inprogress(&member), Some(("queue:a:inprogress:b".to_string(), "host:1:ff".to_string())));
    assert_eq!(split_inprogress("nonsense"), None);
    assert_eq!(split_inprogress(":inprogress"), None);
    assert_eq!(split_inprogress(":inprogress:"), Some((String::new(), String::new())));
    assert_eq!(split_inprogress("é:inprogress:ü"), Some(("é".to_string(), "ü".to_string())));
}

#[test]
fn overlapping_markers_are_split_as_the_standard_library_does() {
    for member in ["q:inprogress:inprogress:x", ":inprogress::inprogress:", "a:inprogress:b:inprogress:c"] {
        let expected = member.rsplit_once(":inprogress:").map(|(a, b)| (a.to_string(), b.to_string()));
        assert_eq!(split_inprogress(member), expected);
    }
    // An owner that spells the marker behind the marker's last colon is not given back.
    assert_ne!(
        split_inprogress(&inprogress_key("q", "inprogress:x")),
        Some(("q".to_string(), "inprogress:x".to_string()))
    );
}

#[test]
fn lists_of_different_queues_or_owners_are_different() {
    let lists = [inprogress_key("queue:a", "x"), inprogress_key("queue:a", "y"), inprogress_key("queue:b", "x")];
    assert_ne!(lists[0], lists[1]);
    assert_ne!(lists[0], lists[2]);
    assert_ne!(lists[1], lists[2]);
}

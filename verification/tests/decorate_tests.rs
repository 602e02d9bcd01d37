use combine_racers::decorate::{chop_name, classify_mesh_name, MeshRole};

fn classify(name: &str) -> MeshRole {
    classify_mesh_name(&name.as_bytes().to_vec())
}

#[test]
fn plain_names_classify_directly() {
    assert_eq!(classify("Track"), MeshRole::TrackSurface);
    assert_eq!(classify("FinishLineCollider"), MeshRole::FinishLineSensor);
    assert_eq!(classify("Rock"), MeshRole::Decoration);
    assert_eq!(classify(""), MeshRole::Decoration);
}

#[test]
fn dotted_duplicate_suffixes_are_stripped() {
    assert_eq!(classify("Track.001"), MeshRole::TrackSurface);
    assert_eq!(classify("Track.042"), MeshRole::TrackSurface);
    assert_eq!(classify("FinishLineCollider.003"), MeshRole::FinishLineSensor);
}

#[test]
fn only_the_last_dotted_suffix_is_stripped() {
    // A doubly numbered name keeps its first suffix and no longer matches.
    assert_eq!(classify("Track.001.002"), MeshRole::Decoration);
    assert_eq!(classify(".Track"), MeshRole::Decoration);
}

#[test]
fn chop_name_keeps_everything_before_the_last_dot() {
    assert_eq!(chop_name(&b"Combine.007".to_vec()), b"Combine".to_vec());
    assert_eq!(chop_name(&b"NoSuffix".to_vec()), b"NoSuffix".to_vec());
    assert_eq!(chop_name(&b"a.b.c".to_vec()), b"a.b".to_vec());
    assert_eq!(chop_name(&b"trailing.".to_vec()), b"trailing".to_vec());
    assert_eq!(chop_name(&b"".to_vec()), b"".to_vec());
}

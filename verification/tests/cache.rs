use webaudioprov::cache::{entry, lookup, move_video_to_temp, working_file, Placement, PlacementFailure};
use webaudioprov::protocol::{Action, Dir};

#[test]
fn lookup_asks_for_the_entry_of_the_key() {
    match lookup(&"T [a].mp3".to_string()) {
        Action::Exists(f) => {
            assert_eq!(f.dir, Dir::Cache);
            assert_eq!(f.name, "T [a].mp3");
        }
        other => panic!("{other:?}"),
    }
    assert_eq!(entry("k").dir, Dir::Cache);
    assert_eq!(working_file("k").dir, Dir::Working);
}

#[test]
fn placement_goes_through_three_steps() {
    let name = "T [a].mp3".to_string();
    let (p, a) = move_video_to_temp(&name);
    assert_eq!(p, Placement::Locating);
    match a {
        Action::Exists(f) => {
            assert_eq!(f.dir, Dir::Working);
            assert_eq!(f.name, name);
        }
        other => panic!("{other:?}"),
    }
    let (p, a) = p.step(&name, true);
    assert_eq!(p, Placement::Preparing);
    assert!(matches!(a, Some(Action::CreateCacheRoot)));
    let (p, a) = p.step(&name, true);
    assert_eq!(p, Placement::Moving);
    match a {
        Some(Action::Rename { from, to }) => {
            assert_eq!((from.dir, from.name.as_str()), (Dir::Working, "T [a].mp3"));
            assert_eq!((to.dir, to.name.as_str()), (Dir::Cache, "T [a].mp3"));
        }
        other => panic!("{other:?}"),
    }
    let (p, a) = p.step(&name, true);
    assert_eq!(p, Placement::Placed);
    assert!(a.is_none());
    assert!(p.is_final());
}

#[test]
fn each_placement_step_can_fail() {
    let name = "x".to_string();
    let (p, a) = Placement::Locating.step(&name, false);
    assert_eq!(p, Placement::Failed(PlacementFailure::SourceMissing));
    assert!(a.is_none());
    let (p, a) = Placement::Preparing.step(&name, false);
    assert_eq!(p, Placement::Failed(PlacementFailure::CacheRootUnavailable));
    assert!(a.is_none());
    let (p, a) = Placement::Moving.step(&name, false);
    assert_eq!(p, Placement::Failed(PlacementFailure::RenameFailed));
    assert!(a.is_none());
}

#[test]
fn ended_placement_stays_as_it_is() {
    let name = "x".to_string();
    for ok in [true, false] {
        let (p, a) = Placement::Placed.step(&name, ok);
        assert_eq!(p, Placement::Placed);
        assert!(a.is_none());
        let failed = Placement::Failed(PlacementFailure::RenameFailed);
        let (p, a) = failed.step(&name, ok);
        assert_eq!(p, failed);
        assert!(a.is_none());
        assert!(p.is_final());
    }
    assert!(!Placement::Locating.is_final());
}

//! Placement rules of the screen-topology registry.

use schengen::topology::{ClientConfig, Position, ScreenTopology, TopologyError};

fn entry(name: &str, position: Position, relative_to: Option<&str>) -> ClientConfig {
    ClientConfig {
        name: name.to_string(),
        position,
        relative_to: relative_to.map(|s| s.to_string()),
        width: 1920,
        height: 1080,
        pointer_x: 0,
        pointer_y: 0,
    }
}

#[test]
fn test_topology_rejects_duplicate_root_positions() {
    // Left + Left, both in the root plane, must fail.
    let mut t = ScreenTopology::new();
    assert!(t.add(entry("client1", Position::Left, None)).is_ok());
    assert_eq!(
        t.add(entry("client2", Position::Left, None)),
        Err(TopologyError::DuplicatePosition)
    );
}

#[test]
fn test_topology_accepts_all_distinct_root_positions() {
    // Left, Right, Above, Below, all distinct in the root plane, succeed.
    let mut t = ScreenTopology::new();
    assert!(t.add(entry("laptop", Position::Left, None)).is_ok());
    assert!(t.add(entry("desktop", Position::Right, None)).is_ok());
    assert!(t.add(entry("tablet", Position::Above, None)).is_ok());
    assert!(t.add(entry("phone", Position::Below, None)).is_ok());
    assert_eq!(t.len(), 4);
}

#[test]
fn test_topology_rejects_unknown_reference() {
    // A relative entry referencing a not-yet-added client fails.
    let mut t = ScreenTopology::new();
    assert!(t.add(entry("laptop", Position::Left, None)).is_ok());
    assert_eq!(
        t.add(entry("monitor", Position::Below, Some("phantom"))),
        Err(TopologyError::UnknownReferenceClient)
    );
}

#[test]
fn test_topology_rejects_duplicate_relative_positions() {
    // Two entries both Below relative to the same reference fail.
    let mut t = ScreenTopology::new();
    assert!(t.add(entry("laptop", Position::Left, None)).is_ok());
    assert!(t.add(entry("monitor1", Position::Below, Some("laptop"))).is_ok());
    assert_eq!(
        t.add(entry("monitor2", Position::Below, Some("laptop"))),
        Err(TopologyError::DuplicateRelativePosition)
    );
}

#[test]
fn test_topology_accepts_same_position_in_different_planes() {
    // Below relative to A and Below relative to B, different references,
    // succeed; so does Below in the root plane.
    let mut t = ScreenTopology::new();
    assert!(t.add(entry("a", Position::Left, None)).is_ok());
    assert!(t.add(entry("b", Position::Right, None)).is_ok());
    assert!(t.add(entry("below-a", Position::Below, Some("a"))).is_ok());
    assert!(t.add(entry("below-b", Position::Below, Some("b"))).is_ok());
    assert!(t.add(entry("below-root", Position::Below, None)).is_ok());
}

#[test]
fn test_topology_neighbor_query() {
    let mut t = ScreenTopology::new();
    t.add(entry("laptop", Position::Left, None)).unwrap();
    t.add(entry("monitor", Position::Below, Some("laptop"))).unwrap();

    let hit = t.neighbor_at(&None, Position::Left).unwrap();
    assert_eq!(hit.name, "laptop");
    assert!(t.neighbor_at(&None, Position::Right).is_none());

    let hit = t.neighbor_at(&Some("laptop".to_string()), Position::Below).unwrap();
    assert_eq!(hit.name, "monitor");
    assert!(t.neighbor_at(&Some("laptop".to_string()), Position::Above).is_none());
}

#[test]
fn test_topology_get_and_len() {
    let mut t = ScreenTopology::new();
    assert_eq!(t.len(), 0);
    t.add(entry("laptop", Position::Left, None)).unwrap();
    assert_eq!(t.len(), 1);
    assert_eq!(t.get(0).name, "laptop");
    assert_eq!(t.get(0).width, 1920);
}

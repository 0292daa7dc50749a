//! Tests of the scene builder and the orbital hierarchy placement.

use solar_system::render_solar_object::{RadiusPair, SolarSystem, Transform};
use solar_system::solar_object::{build_solar_system, BodyRecord};
use solar_system::sphere::sphere_indices;

const DAY_MS: u64 = 86_400_000;

fn record(
    name: &str,
    parent: Option<&str>,
    radius: u64,
    distance: u64,
    orbital_period_ms: Option<u64>,
) -> BodyRecord {
    BodyRecord {
        name: name.to_string(),
        parent: parent.map(|p| p.to_string()),
        radius,
        distance_from_parent: distance,
        orbital_period_ms,
        rotation_period_ms: DAY_MS,
        tilt: 0,
    }
}

#[test]
fn two_body_scenario() {
    // A root of radius 100 without an orbit and a child of radius 10 with a
    // ten-day orbit at distance 50, evaluated at two and a half days: the
    // child sits offset by the scaled distance plus both scaled radii, on a
    // direction swept a quarter of ten turns around world up, inside the
    // root's identity orbital frame.
    let records = vec![
        record("Sun", None, 100, 0, None),
        record("Moon", Some("Sun"), 10, 50, Some(10 * DAY_MS)),
    ];
    let sys = build_solar_system(records).unwrap();
    let placements = sys.update_transforms(216_000_000); // 2.5 days
    assert_eq!(placements.len(), 2);
    assert_eq!(
        placements[0].transforms,
        vec![
            Transform::Identity,
            Transform::OrbitOffset { distance: 0, radii: None },
            Transform::AxialTilt { tilt: 0 },
            Transform::Spin { microturns: 25_000_000 },
            Transform::SurfaceScale { radius: 100 },
        ]
    );
    assert!(placements[0].inverse_normals);
    assert_eq!(
        placements[1].transforms,
        vec![
            // The root's orbital frame, inherited by the child.
            Transform::Identity,
            Transform::OrbitOffset { distance: 0, radii: None },
            // The child's own factors.
            Transform::OrbitRotation { microturns: 2_500_000 },
            Transform::OrbitOffset {
                distance: 50,
                radii: Some(RadiusPair { parent: 100, own: 10 }),
            },
            Transform::AxialTilt { tilt: 0 },
            Transform::Spin { microturns: 25_000_000 },
            Transform::SurfaceScale { radius: 10 },
        ]
    );
    assert!(!placements[1].inverse_normals);
}

#[test]
fn root_transform_at_time_zero_is_scale_only() {
    // At elapsed zero every factor of a plain root except its surface scale
    // is an identity.
    let records = vec![record("Sun", None, 100, 0, None)];
    let sys = build_solar_system(records).unwrap();
    let placements = sys.update_transforms(0);
    assert_eq!(
        placements[0].transforms,
        vec![
            Transform::Identity,
            Transform::OrbitOffset { distance: 0, radii: None },
            Transform::AxialTilt { tilt: 0 },
            Transform::Spin { microturns: 0 },
            Transform::SurfaceScale { radius: 100 },
        ]
    );
}

#[test]
fn placement_is_a_pure_function_of_elapsed_time() {
    let records = vec![
        record("Sun", None, 100, 0, None),
        record("Moon", Some("Sun"), 10, 50, Some(10 * DAY_MS)),
    ];
    let sys = build_solar_system(records).unwrap();
    let a = sys.update_transforms(123_456_789);
    let b = sys.update_transforms(123_456_789);
    assert_eq!(a.len(), b.len());
    for (pa, pb) in a.iter().zip(b.iter()) {
        assert_eq!(pa.transforms, pb.transforms);
        assert_eq!(pa.inverse_normals, pb.inverse_normals);
    }
}

#[test]
fn builder_orders_parents_before_children() {
    let records = vec![
        record("Phobos", Some("Mars"), 1, 9, Some(DAY_MS)),
        record("Mars", Some("Sun"), 30, 200, Some(687 * DAY_MS)),
        record("Sun", None, 100, 0, None),
        record("Deimos", Some("Mars"), 1, 23, Some(2 * DAY_MS)),
    ];
    let sys: SolarSystem = build_solar_system(records).unwrap();
    assert_eq!(sys.bodies.len(), 4);
    assert_eq!(sys.bodies[0].name, "Sun");
    assert_eq!(sys.bodies[0].parent, None);
    assert!(sys.bodies[0].inverse_normals);
    assert_eq!(sys.bodies[1].name, "Mars");
    assert_eq!(sys.bodies[1].parent, Some(0));
    assert!(!sys.bodies[1].inverse_normals);
    // Mars's moons follow Mars, in record order.
    assert_eq!(sys.bodies[2].name, "Phobos");
    assert_eq!(sys.bodies[2].parent, Some(1));
    assert_eq!(sys.bodies[3].name, "Deimos");
    assert_eq!(sys.bodies[3].parent, Some(1));
}

#[test]
fn builder_rejects_duplicate_names() {
    let records = vec![
        record("Sun", None, 100, 0, None),
        record("Moon", Some("Sun"), 10, 50, Some(DAY_MS)),
        record("Moon", Some("Sun"), 20, 70, Some(DAY_MS)),
    ];
    assert!(build_solar_system(records).is_none());
}

#[test]
fn builder_rejects_missing_root() {
    let records = vec![
        record("Moon", Some("Sun"), 10, 50, Some(DAY_MS)),
    ];
    assert!(build_solar_system(records).is_none());
    assert!(build_solar_system(Vec::new()).is_none());
}

#[test]
fn builder_rejects_two_roots() {
    let records = vec![
        record("Sun", None, 100, 0, None),
        record("OtherSun", None, 90, 0, None),
    ];
    assert!(build_solar_system(records).is_none());
}

#[test]
fn builder_rejects_undefined_parent() {
    let records = vec![
        record("Sun", None, 100, 0, None),
        record("Moon", Some("Nibiru"), 10, 50, Some(DAY_MS)),
    ];
    assert!(build_solar_system(records).is_none());
}

#[test]
fn builder_rejects_cycle() {
    let records = vec![
        record("Sun", None, 100, 0, None),
        record("A", Some("B"), 10, 50, Some(DAY_MS)),
        record("B", Some("A"), 10, 50, Some(DAY_MS)),
    ];
    assert!(build_solar_system(records).is_none());
}

#[test]
fn builder_rejects_zero_period() {
    let mut bad = record("Sun", None, 100, 0, None);
    bad.rotation_period_ms = 0;
    assert!(build_solar_system(vec![bad]).is_none());
    let mut bad_orbit = record("Moon", Some("Sun"), 10, 50, Some(0));
    bad_orbit.rotation_period_ms = DAY_MS;
    let records = vec![record("Sun", None, 100, 0, None), bad_orbit];
    assert!(build_solar_system(records).is_none());
}

#[test]
fn sphere_index_pattern() {
    // Two rows of three cells over a 3x4 vertex grid.
    let idx = sphere_indices(2, 3);
    assert_eq!(idx.len(), 36);
    let expected: Vec<u16> = vec![
        0, 4, 1, 1, 4, 5,
        1, 5, 2, 2, 5, 6,
        2, 6, 3, 3, 6, 7,
        4, 8, 5, 5, 8, 9,
        5, 9, 6, 6, 9, 10,
        6, 10, 7, 7, 10, 11,
    ];
    assert_eq!(idx, expected);
}

#[test]
fn sphere_indices_match_grid_formula() {
    let lat: u32 = 5;
    let long: u32 = 8;
    let idx = sphere_indices(lat, long);
    assert_eq!(idx.len(), (6 * lat * long) as usize);
    let mut expected: Vec<u16> = Vec::new();
    for y in 0..lat {
        for x in 0..long {
            let i0 = y * (long + 1) + x;
            let i1 = i0 + 1;
            let i2 = i0 + long + 1;
            let i3 = i2 + 1;
            for v in [i0, i2, i1, i1, i2, i3] {
                expected.push(v as u16);
            }
        }
    }
    assert_eq!(idx, expected);
}

use wifi_sim::selector::{
    effective_distance_sq_of, select_access_point, update_access_points, AccessPoint, Point,
    Selection,
};

fn ap(x: i32, y: i32, r: u32) -> AccessPoint {
    AccessPoint { position: Point { x, y }, full_strength_radius: r }
}

#[test]
fn effective_distance_values() {
    let c = Point { x: 0, y: 0 };
    assert_eq!(effective_distance_sq_of(c, ap(3, 4, 0)), 25);
    assert_eq!(effective_distance_sq_of(c, ap(3, 4, 2)), 21);
    assert_eq!(effective_distance_sq_of(c, ap(3, 4, 5)), 0);
    assert_eq!(effective_distance_sq_of(c, ap(3, 4, 9)), 0);
    assert_eq!(effective_distance_sq_of(c, ap(0, 0, 0)), 0);
}

#[test]
fn effective_distance_extremes() {
    let c = Point { x: i32::MIN, y: i32::MIN };
    let far = ap(i32::MAX, i32::MAX, 0);
    let d = (u32::MAX as u128) * (u32::MAX as u128);
    assert_eq!(effective_distance_sq_of(c, far), 2 * d);
    let wide = ap(i32::MAX, i32::MAX, u32::MAX);
    assert_eq!(effective_distance_sq_of(c, wide), d);
}

#[test]
fn no_access_points_clears_selection() {
    assert_eq!(select_access_point(Point { x: 1, y: 2 }, &Vec::new()), None);
}

#[test]
fn picks_the_strongest() {
    let aps = vec![ap(10, 0, 0), ap(0, 3, 0), ap(-5, -5, 1)];
    let s = select_access_point(Point { x: 0, y: 0 }, &aps).unwrap();
    assert_eq!(s, Selection { index: 1, effective_distance_sq: 9 });
}

#[test]
fn radius_can_outweigh_distance() {
    let aps = vec![ap(5, 0, 0), ap(10, 0, 9)];
    let s = select_access_point(Point { x: 0, y: 0 }, &aps).unwrap();
    assert_eq!(s, Selection { index: 1, effective_distance_sq: 19 });
    let aps = vec![ap(2, 0, 0), ap(10, 0, 10)];
    let s = select_access_point(Point { x: 0, y: 0 }, &aps).unwrap();
    assert_eq!(s, Selection { index: 1, effective_distance_sq: 0 });
}

#[test]
fn within_radius_gives_full_strength() {
    let aps = vec![ap(100, 100, 0), ap(1, 1, 2), ap(50, 0, 3)];
    let s = select_access_point(Point { x: 0, y: 0 }, &aps).unwrap();
    assert_eq!(s.effective_distance_sq, 0);
    assert_eq!(s.index, 1);
}

#[test]
fn farther_is_not_stronger() {
    let c = Point { x: 0, y: 0 };
    let mut last = 0u128;
    for x in 0..20 {
        let e = effective_distance_sq_of(c, ap(x, 0, 3));
        assert!(e >= last);
        last = e;
    }
}

#[test]
fn single_access_point_is_chosen() {
    let aps = vec![ap(1000, -1000, 0)];
    let s = select_access_point(Point { x: 0, y: 0 }, &aps).unwrap();
    assert_eq!(s, Selection { index: 0, effective_distance_sq: 2_000_000 });
}

#[test]
fn batch_selects_per_client() {
    let aps = vec![ap(0, 0, 0), ap(10, 0, 0)];
    let clients = vec![Point { x: 1, y: 0 }, Point { x: 9, y: 0 }, Point { x: 5, y: 0 }];
    let r = update_access_points(&clients, &aps);
    assert_eq!(r.len(), 3);
    assert_eq!(r[0], Some(Selection { index: 0, effective_distance_sq: 1 }));
    assert_eq!(r[1], Some(Selection { index: 1, effective_distance_sq: 1 }));
    assert_eq!(r[2].unwrap().effective_distance_sq, 25);
    let none = update_access_points(&clients, &Vec::new());
    assert_eq!(none, vec![None, None, None]);
}

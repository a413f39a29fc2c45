use vstd::prelude::*;

verus! {

/// A position on the plane, in fixed-point units.
#[derive(Clone, Copy, Debug, PartialEq, Eq, Structural)]
pub struct Point {
    pub x: i32,
    pub y: i32,
}

/// A wireless router: where it stands, and the radius within which its signal is full.
#[derive(Clone, Copy, Debug, PartialEq, Eq, Structural)]
pub struct AccessPoint {
    pub position: Point,
    pub full_strength_radius: u32,
}

/// The access point chosen for a client, with the client's effective squared
/// distance to it.
#[derive(Clone, Copy, Debug, PartialEq, Eq, Structural)]
pub struct Selection {
    pub index: usize,
    pub effective_distance_sq: u128,
}

pub open spec fn distance_sq(a: Point, b: Point) -> int {
    (a.x - b.x) * (a.x - b.x) + (a.y - b.y) * (a.y - b.y)
}

/// The squared distance beyond the full-strength radius, zero inside it.
///
/// Signal strength is a strictly decreasing function of this value alone
/// (`1 / (1 + ln(1 + 0.2 * e))`), so the strongest access point is the one
/// with the least effective squared distance.
pub open spec fn effective_distance_sq(client: Point, ap: AccessPoint) -> int {
    let d2 = distance_sq(client, ap.position);
    let r2 = ap.full_strength_radius * ap.full_strength_radius;
    if d2 > r2 {
        d2 - r2
    } else {
        0
    }
}

/// Index `i` holds the first access point with the least effective squared distance.
pub open spec fn is_first_best(client: Point, aps: Seq<AccessPoint>, i: int) -> bool {
    &&& 0 <= i < aps.len()
    &&& forall|j: int|
        0 <= j < aps.len() ==> effective_distance_sq(client, aps[i]) <= effective_distance_sq(
            client,
            #[trigger] aps[j],
        )
    &&& forall|j: int|
        0 <= j < i ==> effective_distance_sq(client, aps[i]) < effective_distance_sq(
            client,
            #[trigger] aps[j],
        )
}

fn square(v: i64) -> (r: u128)
    requires
        -0x1_0000_0000 < v < 0x1_0000_0000,
    ensures
        r == v * v,
        r < 0x1_0000_0000_0000_0000,
{
    let a: u128 = if v < 0 {
        (-v) as u128
    } else {
        v as u128
    };
    assert(a * a == v * v) by (nonlinear_arith)
        requires
            a == v || a == -v,
    ;
    assert(a * a < 0x1_0000_0000_0000_0000) by (nonlinear_arith)
        requires
            0 <= a < 0x1_0000_0000,
    ;
    a * a
}

/// The effective squared distance from `client` to `ap`.
pub fn effective_distance_sq_of(client: Point, ap: AccessPoint) -> (r: u128)
    ensures
        r == effective_distance_sq(client, ap),
{
    let dx: i64 = client.x as i64 - ap.position.x as i64;
    let dy: i64 = client.y as i64 - ap.position.y as i64;
    let d2: u128 = square(dx) + square(dy);
    let r = ap.full_strength_radius as u64;
    assert(r * r < 0x1_0000_0000_0000_0000) by (nonlinear_arith)
        requires
            0 <= r < 0x1_0000_0000,
    ;
    let r2: u128 = (r as u128) * (r as u128);
    if d2 > r2 {
        d2 - r2
    } else {
        0
    }
}

/// Picks the access point with the strongest signal for `client`: the first one
/// with the least effective squared distance, or none when there is none.
pub fn select_access_point(client: Point, access_points: &Vec<AccessPoint>) -> (r: Option<
    Selection,
>)
    ensures
        r is None <==> access_points@.len() == 0,
        r matches Some(s) ==> {
            &&& is_first_best(client, access_points@, s.index as int)
            &&& s.effective_distance_sq == effective_distance_sq(
                client,
                access_points@[s.index as int],
            )
        },
{
    let n = access_points.len();
    if n == 0 {
        return None;
    }
    let mut best: usize = 0;
    let mut best_e: u128 = effective_distance_sq_of(client, access_points[0]);
    let mut i: usize = 1;
    while i < n
        invariant
            n == access_points@.len(),
            1 <= i <= n,
            best < i,
            best_e == effective_distance_sq(client, access_points@[best as int]),
            is_first_best(client, access_points@.subrange(0, i as int), best as int),
        decreases n - i,
    {
        let e = effective_distance_sq_of(client, access_points[i]);
        let ghost prev = access_points@.subrange(0, i as int);
        let ghost next = access_points@.subrange(0, i + 1);
        assert(forall|j: int| 0 <= j < i ==> next[j] == prev[j]);
        if e < best_e {
            best = i;
            best_e = e;
        }
        i = i + 1;
    }
    assert(access_points@.subrange(0, n as int) =~= access_points@);
    Some(Selection { index: best, effective_distance_sq: best_e })
}

/// Chooses an access point for every client, as `select_access_point` does for one.
pub fn update_access_points(clients: &Vec<Point>, access_points: &Vec<AccessPoint>) -> (r: Vec<
    Option<Selection>,
>)
    ensures
        r@.len() == clients@.len(),
        forall|i: int|
            0 <= i < r@.len() ==> {
                &&& (#[trigger] r@[i] is None <==> access_points@.len() == 0)
                &&& r@[i] matches Some(s) ==> {
                    &&& is_first_best(clients@[i], access_points@, s.index as int)
                    &&& s.effective_distance_sq == effective_distance_sq(
                        clients@[i],
                        access_points@[s.index as int],
                    )
                }
            },
{
    let mut out: Vec<Option<Selection>> = Vec::new();
    let mut i: usize = 0;
    while i < clients.len()
        invariant
            0 <= i <= clients@.len(),
            out@.len() == i,
            forall|k: int|
                0 <= k < i ==> {
                    &&& (#[trigger] out@[k] is None <==> access_points@.len() == 0)
                    &&& out@[k] matches Some(s) ==> {
                        &&& is_first_best(clients@[k], access_points@, s.index as int)
                        &&& s.effective_distance_sq == effective_distance_sq(
                            clients@[k],
                            access_points@[s.index as int],
                        )
                    }
                },
        decreases clients@.len() - i,
    {
        out.push(select_access_point(clients[i], access_points));
        i = i + 1;
    }
    out
}

/// A client within the full-strength radius of an access point has an effective
/// squared distance of zero to it, and so full signal.
pub proof fn lemma_full_strength_within_radius(client: Point, ap: AccessPoint)
    requires
        distance_sq(client, ap.position) <= ap.full_strength_radius * ap.full_strength_radius,
    ensures
        effective_distance_sq(client, ap) == 0,
{
}

/// When a client is within the full-strength radius of some access point, the
/// one chosen for it gives full signal.
pub proof fn lemma_best_full_strength(client: Point, aps: Seq<AccessPoint>, i: int, k: int)
    requires
        is_first_best(client, aps, i),
        0 <= k < aps.len(),
        distance_sq(client, aps[k].position) <= aps[k].full_strength_radius
            * aps[k].full_strength_radius,
    ensures
        effective_distance_sq(client, aps[i]) == 0,
{
    assert(effective_distance_sq(client, aps[i]) <= effective_distance_sq(client, aps[k]));
}

/// For a fixed radius, the effective squared distance never falls as the access
/// point lies farther away, so the signal never rises.
pub proof fn lemma_farther_not_stronger(client: Point, near: Point, far: Point, radius: u32)
    requires
        distance_sq(client, near) <= distance_sq(client, far),
    ensures
        effective_distance_sq(client, AccessPoint { position: near, full_strength_radius: radius })
            <= effective_distance_sq(
            client,
            AccessPoint { position: far, full_strength_radius: radius },
        ),
{
}

} // verus!

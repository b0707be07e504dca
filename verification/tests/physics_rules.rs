use breakout::fixed::{div_nn, mul_div, signum};
use breakout::physics::{apply_consensus, consensus, sector_vector, Collision};
use breakout::state::BallState;
use breakout::trig::{cos_half, sin_half, velocity_at};

#[test]
fn fixed_point_division_truncates_toward_zero() {
    assert_eq!(div_nn(9, 2), 4);
    assert_eq!(mul_div(7, 3, 2), 10);
    assert_eq!(mul_div(7, -3, 2), -10);
    assert_eq!(mul_div(-7, 3, 2), -10);
    assert_eq!(signum(-17), -1);
    assert_eq!(signum(0), 0);
    assert_eq!(signum(5), 1);
}

#[test]
fn table_sine_hits_the_exact_anchors() {
    assert_eq!(sin_half(0), 0);
    assert_eq!(sin_half(450), 23170);
    assert_eq!(sin_half(900), 32768);
    assert_eq!(sin_half(1800), 0);
    assert_eq!(cos_half(900), 0);
    assert_eq!(cos_half(0), 32768);
    assert_eq!(cos_half(1800), -32768);
}

#[test]
fn bounce_velocities_at_centre_and_edges() {
    // Centre hit: straight up at full base speed.
    assert_eq!(velocity_at(2560, 900), (0, -2560));
    // Left edge: 135 degrees, up and to the left.
    assert_eq!(velocity_at(2560, 1350), (-1810, -1810));
    // Right edge: 45 degrees, up and to the right.
    assert_eq!(velocity_at(2560, 450), (1810, -1810));
}

#[test]
fn launch_velocities_stay_in_the_cone() {
    for rand in 0..460 {
        let (vx, vy) = velocity_at(2560, 675 + rand);
        assert!(vy < 0);
        let sq = vx * vx + vy * vy;
        assert!(100 * sq >= 95 * 2560 * 2560);
        assert!(100 * sq <= 103 * 2560 * 2560);
        assert!(32768 * vx.abs() <= 13848 * 2560);
    }
}

#[test]
fn sector_classification_covers_all_eight_directions() {
    assert_eq!(sector_vector(1000, 1000), (1, 1));
    assert_eq!(sector_vector(0, 1000), (0, 1));
    assert_eq!(sector_vector(-1000, 1000), (-1, 1));
    assert_eq!(sector_vector(-1000, 0), (1, 0));
    assert_eq!(sector_vector(-1000, -1000), (-1, -1));
    assert_eq!(sector_vector(0, -1000), (0, -1));
    assert_eq!(sector_vector(1000, -1000), (1, -1));
    assert_eq!(sector_vector(1000, 0), (-1, 0));
}

fn test_ball(pos: (i64, i64), diameter: i64) -> BallState {
    BallState {
        diameter,
        pos,
        spd: (0, 0),
        stopped: false,
        basespd: 2560,
        afterimages: Vec::new(),
    }
}

#[test]
fn far_closest_point_never_collides() {
    // The quarter-diameter radius is 1600; the closest point of the
    // box sits 8000 away.
    let ball = test_ball((0, 0), 6400);
    let r = Collision::collides(&ball, (10000, 0), (8000, 12000, -2000, 2000));
    assert!(r.is_none());
    // Exactly at the squared threshold there is still no collision.
    let r = Collision::collides(&ball, (10000, 0), (1600, 12000, -2000, 2000));
    assert!(r.is_none());
}

#[test]
fn near_closest_point_collides_and_classifies() {
    let ball = test_ball((0, 0), 6400);
    // Closest point 1000 to the right of the centre: the ball centre
    // sits at 180 degrees from it, the right-pushing sector.
    let r = Collision::collides(&ball, (10000, 0), (1000, 12000, -2000, 2000));
    let col = r.expect("overlap within the quarter diameter must collide");
    assert!(col.valid);
    assert_eq!(col.pos, (0, 0));
    assert_eq!(col.vector, (1, 0));
}

#[test]
fn two_corner_hits_aggregate_to_one_axis() {
    let cols = vec![
        Collision::from((0, 0), (1, 1)),
        Collision::from((0, 0), (-1, 1)),
    ];
    let agg = consensus(&cols);
    assert!(agg.valid);
    assert_eq!(agg.vector, (0, 1));
    // vy disagrees with the consensus and flips; vx is left alone.
    assert_eq!(apply_consensus((5, -4), &agg), (5, 4));
    // A velocity already agreeing with the consensus is untouched.
    assert_eq!(apply_consensus((5, 4), &agg), (5, 4));
}

#[test]
fn no_hits_mean_no_consensus_and_no_change() {
    let cols: Vec<Collision> = Vec::new();
    let agg = consensus(&cols);
    assert!(!agg.valid);
    assert_eq!(agg.vector, (0, 0));
    assert_eq!(apply_consensus((7, -9), &agg), (7, -9));
}

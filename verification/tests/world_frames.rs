use breakout::input::{KeyType, OrientationType};
use breakout::world::World;

// A draw of 225 tenth-degrees lands the launch angle exactly on 90
// degrees, so the whole base speed goes into the vertical component.
const STRAIGHT_UP: u32 = 225;

fn full_hd_world() -> World {
    World::new(1280, 720)
}

#[test]
fn viewport_metrics_for_1280_by_720() {
    let w = full_hd_world();
    assert_eq!(w.vwpsize, (1280, 720));
    // Base speed 10 pixels per frame, diameter 25 pixels, in
    // 256-per-pixel fixed point.
    assert_eq!(w.ball_state.basespd, 2560);
    assert_eq!(w.ball_state.diameter, 6400);
    assert!(w.ball_state.stopped);
    assert_eq!(w.paddle_state.xpos, 163840);
    assert_eq!(w.paddle_state.ypos, 168960);
    assert_eq!(w.paddle_state.basespd, 1920);
    assert_eq!(w.paddle_state.sz, (39321, 6400));
    assert_eq!(w.block_size, (19660, 9600));
}

#[test]
fn level_grid_stands_nine_by_nine() {
    let w = full_hd_world();
    assert_eq!(w.level_blocks.len(), 81);
    assert_eq!(w.level_blocks[0].pos, (81920, 46080));
    assert_eq!(w.level_blocks[80].pos, (81920 + 8 * 19660, 46080 + 8 * 9600));
    assert!(w.level_blocks.iter().all(|b| b.active));
    assert!(w.level_blocks.iter().all(|b| b.color == "#fff"));
}

#[test]
fn oversized_hosts_are_capped() {
    let w = World::new(4000, 3000);
    assert_eq!(w.vwpsize, (1280, 720));
    let w = World::new(320, 200);
    assert_eq!(w.vwpsize, (320, 200));
}

#[test]
fn pause_toggles_once_per_enter_edge() {
    let mut w = full_hd_world();
    w.input_dispatch(KeyType::Enter, true);
    w.update(1280, 720, 0);
    assert!(w.pause);
    // Holding Enter must not toggle again.
    w.update(1280, 720, 0);
    assert!(w.pause);
    w.update(1280, 720, 0);
    assert!(w.pause);
    // Release, then a fresh press: exactly one more toggle.
    w.input_dispatch(KeyType::Enter, false);
    w.update(1280, 720, 0);
    assert!(w.pause);
    w.input_dispatch(KeyType::Enter, true);
    w.update(1280, 720, 0);
    assert!(!w.pause);
}

#[test]
fn held_keys_move_the_paddle_and_a_doubles_speed() {
    let mut w = full_hd_world();
    w.input_dispatch(KeyType::Left, true);
    w.update(1280, 720, 0);
    assert_eq!(w.paddle_state.xpos, 163840 - 1920);
    w.input_dispatch(KeyType::A, true);
    w.update(1280, 720, 0);
    assert_eq!(w.paddle_state.spd, 3840);
    assert_eq!(w.paddle_state.xpos, 163840 - 1920 - 3840);
    // Opposite keys in one frame cancel.
    w.input_dispatch(KeyType::Right, true);
    w.input_dispatch(KeyType::A, false);
    w.update(1280, 720, 0);
    assert_eq!(w.paddle_state.xpos, 163840 - 1920 - 3840);
}

#[test]
fn paddle_clamps_at_the_field_edge() {
    let mut w = full_hd_world();
    w.input_dispatch(KeyType::Left, true);
    w.input_dispatch(KeyType::A, true);
    for _ in 0..60 {
        w.update(1280, 720, 0);
    }
    // Half the paddle width from the left edge.
    assert_eq!(w.paddle_state.xpos, 19660);
}

#[test]
fn launch_end_to_end_at_full_base_speed() {
    let mut w = full_hd_world();
    // One frame to pin the stopped ball onto the paddle.
    w.update(1280, 720, 0);
    assert_eq!(w.ball_state.pos, (163840, 161280));
    w.input_dispatch(KeyType::S, true);
    w.update(1280, 720, STRAIGHT_UP);
    assert!(!w.ball_state.stopped);
    assert_eq!(w.ball_state.spd, (0, -2560));
    let (vx, vy) = w.ball_state.spd;
    assert_eq!(vx * vx + vy * vy, 2560 * 2560);
    assert_eq!(w.ball_state.pos, (163840, 161280 - 2560));
}

#[test]
fn launch_draw_spreads_the_angle() {
    let mut w = full_hd_world();
    w.update(1280, 720, 0);
    w.input_dispatch(KeyType::S, true);
    // The lowest draw gives the flattest rightward angle, 67.5
    // degrees.
    w.update(1280, 720, 0);
    assert_eq!(w.ball_state.spd, (979, -2365));
    assert_eq!(w.ball_state.pos, (163840 + 979, 161280 - 2365));
}

#[test]
fn launch_waits_while_the_game_is_paused() {
    let mut w = full_hd_world();
    w.update(1280, 720, 0);
    w.input_dispatch(KeyType::Enter, true);
    w.update(1280, 720, 0);
    assert!(w.pause);
    // S held on paused frames does nothing.
    w.input_dispatch(KeyType::Enter, false);
    w.input_dispatch(KeyType::S, true);
    w.update(1280, 720, STRAIGHT_UP);
    assert!(w.ball_state.stopped);
    assert_eq!(w.ball_state.spd, (0, 0));
    // The frame that lifts the pause still began paused, so the
    // launch waits one more frame.
    w.input_dispatch(KeyType::Enter, true);
    w.update(1280, 720, STRAIGHT_UP);
    assert!(!w.pause);
    assert!(w.ball_state.stopped);
    w.update(1280, 720, STRAIGHT_UP);
    assert!(!w.ball_state.stopped);
    assert_eq!(w.ball_state.spd, (0, -2560));
}

#[test]
fn ball_reflects_off_the_top_wall() {
    let mut w = full_hd_world();
    // Park the paddle at the left edge, away from the block field.
    w.input_dispatch(KeyType::Left, true);
    w.input_dispatch(KeyType::A, true);
    for _ in 0..60 {
        w.update(1280, 720, 0);
    }
    w.input_dispatch(KeyType::Left, false);
    w.input_dispatch(KeyType::A, false);
    w.input_dispatch(KeyType::S, true);
    w.update(1280, 720, STRAIGHT_UP);
    w.input_dispatch(KeyType::S, false);
    assert_eq!(w.ball_state.pos, (19660, 161280 - 2560));
    // Climb to the top: 60 more frames end just above the radius.
    for _ in 0..60 {
        w.update(1280, 720, 0);
    }
    assert_eq!(w.ball_state.spd, (0, -2560));
    assert_eq!(w.ball_state.pos.1, 161280 - 61 * 2560);
    // The next step would cross the top: clamped to the radius, the
    // vertical velocity reverses.
    w.update(1280, 720, 0);
    assert_eq!(w.ball_state.pos.1, 3200);
    assert_eq!(w.ball_state.spd, (0, 2560));
    // Falling back down, the ball meets the paddle dead centre and
    // bounces straight up again at full base speed.
    for _ in 0..63 {
        w.update(1280, 720, 0);
    }
    assert_eq!(w.ball_state.spd, (0, 2560));
    assert_eq!(w.ball_state.pos.1, 3200 + 63 * 2560);
    w.update(1280, 720, 0);
    assert_eq!(w.ball_state.pos.1, 3200 + 64 * 2560);
    assert_eq!(w.ball_state.spd, (0, -2560));
}

#[test]
fn block_strikes_remove_blocks_and_turn_the_ball() {
    let mut w = full_hd_world();
    // A ball climbing just under the left column of blocks.  The
    // collision boxes of vertical neighbours overlap, so this strike
    // touches three of them: one from below and two around the
    // centre, whose degenerate displacement classifies as the
    // left-pushing sector.
    w.ball_state.stopped = false;
    w.ball_state.pos = (70000, 59000);
    w.ball_state.spd = (0, -2560);
    w.update(1280, 720, 0);
    assert_eq!(w.level_blocks.len(), 78);
    assert_eq!(w.ball_state.pos, (70000, 56440));
    // Consensus (-1, +1): vx of zero keeps its sign, vy flips down.
    assert_eq!(w.ball_state.spd, (0, 2560));
    // The struck blocks were the lowest three of the first column.
    assert_eq!(w.level_blocks[0].pos, (81920, 46080 + 3 * 9600));
}

#[test]
fn trail_caps_at_seven_and_clears_after_respawn() {
    let mut w = full_hd_world();
    // A ball falling well away from the paddle: it drops out of the
    // field and respawns.
    w.ball_state.stopped = false;
    w.ball_state.pos = (10000, 161280);
    w.ball_state.spd = (0, 2560);
    for k in 1..=10 {
        w.update(1280, 720, 0);
        assert_eq!(w.ball_state.afterimages.len(), k.min(7));
        assert!(!w.ball_state.stopped);
    }
    // Oldest positions were evicted first.
    assert_eq!(w.ball_state.afterimages[0], (10000, 161280 + 4 * 2560));
    assert_eq!(w.ball_state.afterimages[6], (10000, 161280 + 10 * 2560));
    // The step that leaves the whole ball below the field stops it;
    // the trail still records that last position.
    w.update(1280, 720, 0);
    assert!(w.ball_state.stopped);
    assert_eq!(w.ball_state.afterimages.len(), 7);
    // The very next frame pins the ball back on the paddle with an
    // empty trail.
    w.update(1280, 720, 0);
    assert_eq!(w.ball_state.pos, (163840, 161280));
    assert_eq!(w.ball_state.afterimages.len(), 0);
}

#[test]
fn tilt_steering_overrides_the_keys() {
    let mut w = full_hd_world();
    // A level device holds the paddle at the field centre.
    w.feed_tilt(0, 0, 0, 0);
    w.update(480, 800, 0);
    assert!(w.tilt.active);
    assert!(w.tilt.orient == OrientationType::Portrait);
    assert_eq!(w.paddle_state.xpos, 163840);
    // Portrait host: the centre offset by the roll, scaled by 3.
    w.feed_tilt(0, 0, 6554, 0);
    w.update(480, 800, 0);
    assert_eq!(w.paddle_state.xpos, 163840 + 49155);
    // Landscape host: the same roll, scaled by 3.5.
    w.update(800, 480, 0);
    assert!(w.tilt.orient == OrientationType::Landscape);
    assert_eq!(w.paddle_state.xpos, 163840 + 57347);
}

#[test]
fn strong_tilt_is_clamped_to_the_field() {
    let mut w = full_hd_world();
    // A right roll of a full radian runs off the right edge.
    w.feed_tilt(0, 0, 65536, 0);
    w.update(480, 800, 0);
    assert_eq!(w.paddle_state.xpos, 327680 - 19660);
    // The mirrored roll runs off the left edge.
    w.feed_tilt(0, 0, -65536, 0);
    w.update(480, 800, 0);
    assert_eq!(w.paddle_state.xpos, 19660);
}

#[test]
fn fullscreen_flips_on_the_key_edge_only() {
    let mut w = full_hd_world();
    assert!(!w.toggle_fullscreen());
    assert!(!w.fullscreen);
    w.input_dispatch(KeyType::FullScreen, true);
    // The frame that latches the fresh press flips the flag once.
    w.update(1280, 720, 0);
    assert!(w.fullscreen);
    // Held across further frames: no second flip.
    w.update(1280, 720, 0);
    assert!(w.fullscreen);
    // Between frames the retired snapshot shows no edge either.
    assert!(!w.toggle_fullscreen());
    assert!(w.fullscreen);
    // Release, then press anew: exactly one more flip.
    w.input_dispatch(KeyType::FullScreen, false);
    w.update(1280, 720, 0);
    assert!(w.fullscreen);
    w.input_dispatch(KeyType::FullScreen, true);
    w.update(1280, 720, 0);
    assert!(!w.fullscreen);
}

#[test]
fn paused_frames_freeze_the_field() {
    let mut w = full_hd_world();
    w.update(1280, 720, 0);
    w.input_dispatch(KeyType::Enter, true);
    w.update(1280, 720, 0);
    assert!(w.pause);
    let pos = w.ball_state.pos;
    let blocks = w.level_blocks.len();
    w.input_dispatch(KeyType::Left, true);
    w.update(1280, 720, 0);
    assert_eq!(w.ball_state.pos, pos);
    assert_eq!(w.level_blocks.len(), blocks);
    assert_eq!(w.paddle_state.xpos, 163840);
}

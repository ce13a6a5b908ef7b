use dinosaur_game::compute_wait;
use dinosaur_game::App;

#[test]
fn wait_at_start_is_slowest() {
    assert_eq!(compute_wait(0, false), 5000);
}

#[test]
fn wait_bottoms_out_at_one() {
    assert_eq!(compute_wait(500000, false), 1);
    assert_eq!(compute_wait(u64::MAX, false), 1);
}

#[test]
fn speedy_wait_at_start() {
    assert_eq!(compute_wait(0, true), 5);
}

#[test]
fn speedy_wait_floors_to_zero() {
    assert_eq!(compute_wait(500000, true), 0);
    assert_eq!(compute_wait(400100, true), 0);
}

#[test]
fn wait_shrinks_every_hundred_points() {
    assert_eq!(compute_wait(99, false), 5000);
    assert_eq!(compute_wait(100, false), 4999);
    assert_eq!(compute_wait(250000, false), 2500);
    assert_eq!(compute_wait(250000, true), 2);
}

#[test]
fn app_wait_follows_score_and_speed() {
    let mut app = App::new();
    app.score = 100000;
    assert_eq!(app.tick_wait(), 4000);
    app.speedy = true;
    assert_eq!(app.tick_wait(), 4);
}

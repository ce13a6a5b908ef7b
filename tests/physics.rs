use dinosaur_game::Player;

#[test]
fn new_player_is_at_rest() {
    let p = Player::new();
    assert_eq!(p.y, -20000);
    assert_eq!(p.height, 10000);
    assert!(!p.airborne && !p.rising && !p.ducking);
}

#[test]
fn jump_rises_then_falls_and_lands() {
    let mut p = Player::new();
    p.jump();
    assert!(p.airborne && p.rising);
    for _ in 0..28 {
        p.update_position();
        assert!(p.rising);
    }
    assert_eq!(p.y, 15000);
    p.update_position();
    assert!(!p.rising && p.airborne);
    assert_eq!(p.y, 15000);
    for _ in 0..28 {
        p.update_position();
        assert!(p.airborne);
    }
    assert_eq!(p.y, -20000);
    p.update_position();
    assert!(!p.airborne);
    assert_eq!(p.y, -20000);
}

#[test]
fn jump_in_air_is_ignored() {
    let mut p = Player::new();
    p.jump();
    p.update_position();
    p.duck();
    let before = p;
    p.jump();
    assert_eq!(p, before);
}

#[test]
fn duck_in_air_starts_the_fall() {
    let mut p = Player::new();
    p.jump();
    for _ in 0..4 {
        p.update_position();
    }
    assert_eq!(p.y, -15000);
    p.duck();
    assert!(p.ducking && p.airborne && !p.rising);
    p.update_position();
    assert_eq!(p.y, -16250);
    assert_eq!(p.height, 5000);
}

#[test]
fn duck_toggles_height_on_next_tick() {
    let mut p = Player::new();
    p.duck();
    assert_eq!(p.height, 10000);
    p.update_position();
    assert_eq!(p.height, 5000);
    p.duck();
    p.update_position();
    assert_eq!(p.height, 10000);
    assert_eq!(p.y, -20000);
}

#[test]
fn jump_clears_ducking() {
    let mut p = Player::new();
    p.duck();
    p.jump();
    assert!(!p.ducking && p.airborne);
}

#[test]
fn player_stays_in_range_over_many_ticks() {
    let mut p = Player::new();
    for t in 0..500 {
        if t % 7 == 0 {
            p.jump();
        }
        if t % 11 == 0 {
            p.duck();
        }
        p.update_position();
        assert!(p.y >= -20000 && p.y <= 15000);
        assert!(p.height == 5000 || p.height == 10000);
    }
}

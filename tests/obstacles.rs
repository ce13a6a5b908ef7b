use dinosaur_game::{advance_obstacles, collision_check, Obstacle, Player, SpawnDraw};

fn draw(gate: i64, kind_roll: i64) -> SpawnDraw {
    SpawnDraw { gate, base_height: 5000, kind_roll, low_offset: -10000, high_offset: 2000 }
}

fn quiet() -> SpawnDraw {
    draw(999999, 0)
}

#[test]
fn spawn_appends_at_the_right_edge() {
    let mut v: Vec<Obstacle> = Vec::new();
    advance_obstacles(&mut v, &draw(0, 0));
    assert_eq!(v, vec![Obstacle { x: 87000, extent: 5000, y_offset: -20000 }]);
}

#[test]
fn gate_at_threshold_does_not_spawn() {
    let mut v: Vec<Obstacle> = Vec::new();
    advance_obstacles(&mut v, &draw(15000, 0));
    assert!(v.is_empty());
    advance_obstacles(&mut v, &draw(14999, 0));
    assert_eq!(v.len(), 1);
}

#[test]
fn kind_roll_picks_the_kind() {
    let mut low: Vec<Obstacle> = Vec::new();
    advance_obstacles(&mut low, &draw(0, 800000));
    assert_eq!(low[0], Obstacle { x: 87000, extent: 1000, y_offset: -10000 });
    let mut high: Vec<Obstacle> = Vec::new();
    advance_obstacles(&mut high, &draw(0, 900000));
    assert_eq!(high[0], Obstacle { x: 87000, extent: 1000, y_offset: 2000 });
    let mut edge: Vec<Obstacle> = Vec::new();
    advance_obstacles(&mut edge, &draw(0, 820000));
    assert_eq!(edge[0].y_offset, -20000);
    let mut lower_edge: Vec<Obstacle> = Vec::new();
    advance_obstacles(&mut lower_edge, &draw(0, 750000));
    assert_eq!(lower_edge[0].y_offset, -20000);
}

#[test]
fn no_spawn_while_newest_is_close() {
    let mut v = vec![Obstacle { x: 50000, extent: 5000, y_offset: -20000 }];
    advance_obstacles(&mut v, &draw(0, 0));
    assert_eq!(v.len(), 1);
    assert_eq!(v[0].x, 49000);
    advance_obstacles(&mut v, &draw(0, 0));
    assert_eq!(v.len(), 2);
    assert_eq!(v[1].x, 87000);
}

#[test]
fn every_obstacle_moves_one_step_and_leaves_past_the_line() {
    let mut v = vec![
        Obstacle { x: -90000, extent: 5000, y_offset: -20000 },
        Obstacle { x: -89000, extent: 5000, y_offset: -20000 },
        Obstacle { x: 10000, extent: 1000, y_offset: 3000 },
    ];
    advance_obstacles(&mut v, &quiet());
    assert_eq!(
        v,
        vec![
            Obstacle { x: -90000, extent: 5000, y_offset: -20000 },
            Obstacle { x: 9000, extent: 1000, y_offset: 3000 },
        ]
    );
    advance_obstacles(&mut v, &quiet());
    assert_eq!(v, vec![Obstacle { x: 8000, extent: 1000, y_offset: 3000 }]);
}

#[test]
fn line_stays_ordered() {
    let mut v: Vec<Obstacle> = Vec::new();
    for t in 0..1000 {
        let gate = if t % 3 == 0 { 0 } else { 999999 };
        advance_obstacles(&mut v, &draw(gate, (t * 7919) % 1000000));
        for w in v.windows(2) {
            assert!(w[0].x < w[1].x);
        }
        for o in &v {
            assert!(o.x > -91000 && o.x <= 87000);
        }
    }
}

#[test]
fn ground_obstacle_hits_at_four_not_at_five() {
    let player = Player::new();
    let mut v: Vec<Obstacle> = Vec::new();
    advance_obstacles(&mut v, &draw(0, 0));
    for _ in 1..83 {
        advance_obstacles(&mut v, &quiet());
    }
    assert_eq!(v[0].x, 5000);
    assert!(!collision_check(&player, &v));
    advance_obstacles(&mut v, &quiet());
    assert_eq!(v[0].x, 4000);
    assert!(collision_check(&player, &v));
}

#[test]
fn collision_needs_horizontal_overlap() {
    let player = Player::new();
    let left = vec![Obstacle { x: -5000, extent: 5000, y_offset: -20000 }];
    assert!(!collision_check(&player, &left));
    let inside = vec![Obstacle { x: -4000, extent: 5000, y_offset: -20000 }];
    assert!(collision_check(&player, &inside));
}

#[test]
fn collision_vertical_rule() {
    let mut player = Player::new();
    let flyer = vec![Obstacle { x: 0, extent: 1000, y_offset: 2000 }];
    assert!(!collision_check(&player, &flyer));
    // The top edge reaches the band one extent below the flyer.
    player.y = -9000;
    assert!(collision_check(&player, &flyer));
    player.y = -8000;
    assert!(collision_check(&player, &flyer));
    player.y = -7000;
    assert!(collision_check(&player, &flyer));
    player.y = -6000;
    assert!(!collision_check(&player, &flyer));
    player.y = 2500;
    assert!(collision_check(&player, &flyer));
    player.y = 3500;
    assert!(!collision_check(&player, &flyer));
}

#[test]
fn empty_line_never_collides() {
    assert!(!collision_check(&Player::new(), &Vec::new()));
}

#[test]
fn drawn_values_lie_in_their_ranges() {
    let mut seen_distinct = false;
    let first = SpawnDraw::draw();
    for _ in 0..2000 {
        let d = SpawnDraw::draw();
        assert!(d.gate >= 0 && d.gate < 1000000);
        assert!(d.base_height >= 5000 && d.base_height < 8000);
        assert!(d.kind_roll >= 0 && d.kind_roll < 1000000);
        assert!(d.low_offset >= -12000 && d.low_offset < -8000);
        assert!(d.high_offset >= 0 && d.high_offset < 5000);
        if d != first {
            seen_distinct = true;
        }
    }
    assert!(seen_distinct);
}

use tank_battle::{
    AppState, Direction, Faction, GameSession, LevelGeometry, LevelItem, MenuInput,
    MultiplayerMode, Outcome, Pos, TouchEvent,
};

fn pos(x: i32, y: i32) -> Pos {
    Pos { x, y }
}

/// One level: a brick, an iron wall and the Home, with markers far apart.
fn demo_level() -> LevelGeometry {
    LevelGeometry {
        tiles: vec![
            (LevelItem::BrickWall, pos(0, 0)),
            (LevelItem::IronWall, pos(100, 0)),
            (LevelItem::Home, pos(0, -200)),
        ],
        player1_marker: pos(-100, -200),
        player2_marker: pos(100, -200),
        enemy_markers: vec![pos(-300, 200), pos(0, 200), pos(300, 200)],
    }
}

fn empty_level() -> LevelGeometry {
    LevelGeometry {
        tiles: vec![],
        player1_marker: pos(-100, -200),
        player2_marker: pos(100, -200),
        enemy_markers: vec![pos(-300, 200), pos(0, 200), pos(300, 200)],
    }
}

fn playing_session(levels: Vec<LevelGeometry>) -> GameSession {
    let mut s = GameSession::new(levels, MultiplayerMode::SinglePlayer);
    s.handle_input(MenuInput::Start);
    assert_eq!(s.state, AppState::Playing);
    s
}

/// Brings player one fully onto the field: announce, play out the birth
/// effect, convert, and let the spawn shield lapse.
fn field_player_one(s: &mut GameSession) {
    assert!(s.auto_spawn_player(1));
    s.animate_born(2000);
    assert!(s.spawn_ready_player());
    s.remove_shield(5000);
    s.refresh_bullet_timers(500);
}

#[test]
fn fresh_session_starts_on_menu() {
    let s = GameSession::new(vec![demo_level()], MultiplayerMode::SinglePlayer);
    assert_eq!(s.state, AppState::StartMenu);
    assert_eq!(s.level_index, 0);
    assert_eq!(s.lives1, 3);
    assert_eq!(s.lives2, 3);
    assert!(s.tiles.is_empty());
}

#[test]
fn start_loads_level_terrain() {
    let s = playing_session(vec![demo_level()]);
    assert_eq!(s.tiles.len(), 3);
    assert_eq!(s.tiles[0].kind, LevelItem::BrickWall);
    assert_eq!(s.tiles[0].pos, pos(0, 0));
    assert_eq!(s.tiles[2].kind, LevelItem::Home);
}

#[test]
fn brick_hit_destroys_tile_and_iron_absorbs() {
    let mut s = playing_session(vec![demo_level()]);
    let brick_id = s.tiles[0].id;
    let iron_id = s.tiles[1].id;
    s.spawn_bullet(Faction::Player, pos(0, -10), Direction::Up);
    s.spawn_bullet(Faction::Player, pos(100, -10), Direction::Up);
    let b_brick = s.bullets[0].id;
    let b_iron = s.bullets[1].id;
    let events = vec![
        TouchEvent { a: b_brick, b: brick_id },
        TouchEvent { a: iron_id, b: b_iron },
    ];
    let rs = s.handle_bullet_collision(&events);
    assert_eq!(rs.len(), 2);
    assert_eq!(rs[0].bullet_id, b_brick);
    assert!(matches!(rs[0].outcome, Outcome::HitBrick { tile_id } if tile_id == brick_id));
    assert!(matches!(rs[1].outcome, Outcome::HitIron { tile_id } if tile_id == iron_id));
    // The brick is gone, the iron wall survives, both bullets are spent.
    assert_eq!(s.tiles.len(), 2);
    assert!(s.tiles.iter().all(|t| t.id != brick_id));
    assert!(s.tiles.iter().any(|t| t.id == iron_id));
    assert!(s.bullets.is_empty());
    // One small explosion per bullet, at each bullet's pre-impact position.
    assert_eq!(s.effects.len(), 2);
    assert_eq!(s.effects[0].pos, pos(0, -10));
    assert_eq!(s.effects[1].pos, pos(100, -10));
}

#[test]
fn duplicate_events_resolve_a_bullet_once() {
    let mut s = playing_session(vec![demo_level()]);
    let brick_id = s.tiles[0].id;
    s.spawn_bullet(Faction::Player, pos(0, -10), Direction::Up);
    let b = s.bullets[0].id;
    // The physics collaborator may report the same contact many times and
    // in both orders within one tick.
    let events = vec![
        TouchEvent { a: b, b: brick_id },
        TouchEvent { a: brick_id, b: b },
        TouchEvent { a: b, b: brick_id },
    ];
    let rs = s.handle_bullet_collision(&events);
    assert_eq!(rs.len(), 1);
    assert_eq!(s.effects.len(), 1);
    assert!(s.bullets.is_empty());
}

#[test]
fn home_hit_is_terminal_regardless_of_lives() {
    let mut s = playing_session(vec![demo_level()]);
    let home_id = s.tiles[2].id;
    s.spawn_bullet(Faction::Enemy, pos(0, -190), Direction::Down);
    let b = s.bullets[0].id;
    let rs = s.handle_bullet_collision(&vec![TouchEvent { a: b, b: home_id }]);
    assert_eq!(rs.len(), 1);
    assert!(matches!(rs[0].outcome, Outcome::HitHome { tile_id } if tile_id == home_id));
    assert!(s.bullets.is_empty());
    // Big explosion at the Home's position, not the bullet's.
    assert_eq!(s.effects.len(), 1);
    assert_eq!(s.effects[0].pos, pos(0, -200));
    assert!(s.home_destroyed);
    assert_eq!(s.lives1, 3);
    s.evaluate_terminal();
    assert_eq!(s.state, AppState::GameOver);
}

#[test]
fn shielded_player_survives_and_bullet_is_consumed() {
    let mut s = playing_session(vec![demo_level()]);
    assert!(s.auto_spawn_player(1));
    s.animate_born(2000);
    assert!(s.spawn_ready_player());
    // Fresh from the two-phase spawn: the shield window is open.
    assert!(s.players[0].shield_ms > 0);
    let pid = s.players[0].id;
    s.spawn_bullet(Faction::Enemy, pos(-100, -150), Direction::Down);
    let b = s.bullets[0].id;
    let rs = s.handle_bullet_collision(&vec![TouchEvent { a: b, b: pid }]);
    assert_eq!(rs.len(), 1);
    assert!(matches!(rs[0].outcome, Outcome::Deflected { tank_id } if tank_id == pid));
    // The tank survives with its lives untouched; the bullet is consumed.
    assert_eq!(s.players.len(), 1);
    assert_eq!(s.lives1, 3);
    assert!(s.bullets.is_empty());
    assert_eq!(s.effects.len(), 1);
}

#[test]
fn friendly_fire_never_matches() {
    let mut s = playing_session(vec![demo_level()]);
    field_player_one(&mut s);
    let pid = s.players[0].id;
    // A Player bullet overlapping a Player tank resolves nothing: the
    // bullet is not even consumed.
    s.spawn_bullet(Faction::Player, pos(-100, -150), Direction::Down);
    let b = s.bullets[0].id;
    let rs = s.handle_bullet_collision(&vec![TouchEvent { a: b, b: pid }]);
    assert!(rs.is_empty());
    assert_eq!(s.players.len(), 1);
    assert_eq!(s.bullets.len(), 1);
    assert_eq!(s.lives1, 3);
    // Likewise an Enemy bullet and an Enemy tank.
    assert!(s.auto_spawn_enemy_at(0));
    let eid = s.enemies[0].id;
    s.spawn_bullet(Faction::Enemy, pos(-300, 150), Direction::Up);
    let b2 = s.bullets[1].id;
    let rs2 = s.handle_bullet_collision(&vec![TouchEvent { a: eid, b: b2 }]);
    assert!(rs2.is_empty());
    assert_eq!(s.enemies.len(), 1);
    assert_eq!(s.bullets.len(), 2);
}

#[test]
fn unshielded_hit_takes_the_last_life() {
    let mut s = playing_session(vec![demo_level()]);
    field_player_one(&mut s);
    assert_eq!(s.players[0].shield_ms, 0);
    let pid = s.players[0].id;
    // Spend two lives through two earlier respawn-and-death rounds,
    // modelled by two unshielded hits with a respawn in between.
    s.spawn_bullet(Faction::Enemy, pos(-100, -150), Direction::Down);
    let b1 = s.bullets[0].id;
    s.handle_bullet_collision(&vec![TouchEvent { a: b1, b: pid }]);
    assert_eq!(s.lives1, 2);
    assert!(s.players.is_empty());
    // Lives permit, so the two-phase respawn opens again.
    assert!(s.auto_spawn_player(1));
    s.animate_born(2000);
    assert!(s.spawn_ready_player());
    s.remove_shield(5000);
    let pid2 = s.players[0].id;
    s.spawn_bullet(Faction::Enemy, pos(-100, -150), Direction::Down);
    let b2 = s.bullets[0].id;
    s.handle_bullet_collision(&vec![TouchEvent { a: b2, b: pid2 }]);
    assert_eq!(s.lives1, 1);
    assert!(s.auto_spawn_player(1));
    s.animate_born(2000);
    assert!(s.spawn_ready_player());
    s.remove_shield(5000);
    let pid3 = s.players[0].id;
    s.spawn_bullet(Faction::Enemy, pos(-100, -150), Direction::Down);
    let b3 = s.bullets[0].id;
    let rs = s.handle_bullet_collision(&vec![TouchEvent { a: b3, b: pid3 }]);
    assert!(matches!(rs[0].outcome, Outcome::DestroyedTank { tank_id } if tank_id == pid3));
    // The last life is gone: lives reach zero, no respawn, game over.
    assert_eq!(s.lives1, 0);
    assert!(s.players.is_empty());
    assert!(!s.auto_spawn_player(1));
    s.evaluate_terminal();
    assert_eq!(s.state, AppState::GameOver);
}

#[test]
fn second_player_spawns_only_in_two_player_mode() {
    let mut s = GameSession::new(vec![demo_level()], MultiplayerMode::SinglePlayer);
    s.switch_multiplayer_mode();
    assert_eq!(s.mode, MultiplayerMode::TwoPlayers);
    s.handle_input(MenuInput::Start);
    assert!(s.auto_spawn_player(1));
    assert!(s.auto_spawn_player(2));
    let mut single = playing_session(vec![demo_level()]);
    assert!(single.auto_spawn_player(1));
    assert!(!single.auto_spawn_player(2));
}

#[test]
fn enemy_population_follows_cap_and_quota() {
    // Quota 12, cap 5: five spawns fill the field, the sixth is refused.
    let mut s = playing_session(vec![empty_level(), empty_level()]);
    let far = vec![
        pos(-400, 250),
        pos(-200, 250),
        pos(0, 250),
        pos(200, 250),
        pos(400, 250),
    ];
    s.levels[0].enemy_markers = far.clone();
    s.levels[1].enemy_markers = far;
    for i in 0..5 {
        assert!(s.auto_spawn_enemy_at(i));
    }
    assert_eq!(s.enemies.len(), 5);
    assert_eq!(s.spawned_enemies, 5);
    assert!(!s.auto_spawn_enemy_at(0));
    // Kill three: the live count drops, the spawned counter stays.
    for _ in 0..3 {
        let id = s.enemies[0].id;
        s.apply_hit(id, Faction::Player);
    }
    assert_eq!(s.enemies.len(), 2);
    assert_eq!(s.spawned_enemies, 5);
    // Auto-spawn resumes filling up to the cap, then the quota runs out.
    let mut marker = 0;
    while s.spawned_enemies < 12 {
        if s.auto_spawn_enemy_at(marker % 5) {
            marker += 1;
        } else {
            // Cap reached: clear one slot.
            let id = s.enemies[0].id;
            s.apply_hit(id, Faction::Player);
        }
        assert!(s.enemies.len() <= 5);
    }
    assert_eq!(s.spawned_enemies, 12);
    assert!(!s.auto_spawn_enemy_at(0));
    // The level does not advance while enemies are alive.
    s.auto_switch_level();
    assert_eq!(s.level_index, 0);
    while !s.enemies.is_empty() {
        let id = s.enemies[0].id;
        s.apply_hit(id, Faction::Player);
    }
    // Quota met and the field clear: the next evaluation advances.
    s.auto_switch_level();
    assert_eq!(s.level_index, 1);
    assert_eq!(s.spawned_enemies, 0);
    assert!(s.players.is_empty());
}

#[test]
fn clearing_the_last_level_returns_to_the_menu() {
    let mut s = playing_session(vec![empty_level()]);
    s.spawned_enemies = 12;
    s.auto_switch_level();
    assert_eq!(s.state, AppState::StartMenu);
    assert_eq!(s.level_index, 0);
    assert_eq!(s.lives1, 3);
}

#[test]
fn spawn_too_close_to_a_tank_is_rejected() {
    let mut s = playing_session(vec![demo_level()]);
    // Put an enemy on the middle marker, then aim a second spawn at a
    // marker within two tile widths of it.
    assert!(s.auto_spawn_enemy_at(1));
    s.levels[0].enemy_markers.push(pos(40, 200));
    assert!(!s.auto_spawn_enemy_at(3));
    // A far marker still works.
    assert!(s.auto_spawn_enemy_at(0));
}

#[test]
fn random_marker_spawn_lands_on_the_only_marker() {
    let mut s = playing_session(vec![demo_level()]);
    s.levels[0].enemy_markers = vec![pos(0, 200)];
    assert!(s.auto_spawn_enemies());
    assert_eq!(s.enemies.len(), 1);
    assert_eq!(s.enemies[0].pos, pos(0, 200));
    // No markers at all degrades to "no enemies ever spawn".
    s.levels[0].enemy_markers = vec![];
    assert!(!s.auto_spawn_enemies());
    assert_eq!(s.enemies.len(), 1);
}

#[test]
fn fire_is_gated_by_the_cooldown() {
    let mut s = playing_session(vec![demo_level()]);
    field_player_one(&mut s);
    assert!(s.players_attack(1));
    assert_eq!(s.bullets.len(), 1);
    // Straight away again: the cooldown has not elapsed.
    assert!(!s.players_attack(1));
    assert_eq!(s.bullets.len(), 1);
    s.refresh_bullet_timers(500);
    assert!(s.players_attack(1));
    assert_eq!(s.bullets.len(), 2);
}

#[test]
fn enemies_fire_on_their_own_schedule() {
    let mut s = playing_session(vec![demo_level()]);
    assert!(s.auto_spawn_enemy_at(0));
    s.enemies_attack(1000);
    assert!(s.bullets.is_empty());
    s.enemies_attack(1000);
    assert_eq!(s.bullets.len(), 1);
    assert_eq!(s.bullets[0].owner, Faction::Enemy);
    assert_eq!(s.bullets[0].pos, pos(-300, 200));
}

#[test]
fn bullets_travel_at_bullet_speed() {
    let mut s = playing_session(vec![demo_level()]);
    s.spawn_bullet(Faction::Player, pos(0, 0), Direction::Right);
    s.spawn_bullet(Faction::Player, pos(0, 0), Direction::Down);
    s.move_bullet(1000);
    // 300 world units per second.
    assert_eq!(s.bullets[0].pos, pos(300, 0));
    assert_eq!(s.bullets[1].pos, pos(0, -300));
    s.move_bullet(100);
    assert_eq!(s.bullets[0].pos, pos(330, 0));
}

#[test]
fn edge_hit_spends_the_bullet_at_the_clamped_position() {
    let mut s = playing_session(vec![demo_level()]);
    s.spawn_bullet(Faction::Player, pos(500, 0), Direction::Right);
    let b = s.bullets[0].id;
    let edge = s.edge_id;
    let rs = s.handle_bullet_collision(&vec![TouchEvent { a: b, b: edge }]);
    assert_eq!(rs.len(), 1);
    assert!(matches!(rs[0].outcome, Outcome::HitEdge));
    assert!(s.bullets.is_empty());
    // The explosion sits on the arena boundary, not outside it.
    assert_eq!(s.effects[0].pos, pos(432, 0));
}

#[test]
fn movement_intents_never_go_diagonal() {
    let mut s = playing_session(vec![demo_level()]);
    field_player_one(&mut s);
    s.players_move(1, Some(Direction::Right));
    assert_eq!((s.players[0].vel_x, s.players[0].vel_y), (150, 0));
    assert_eq!(s.players[0].dir, Direction::Right);
    s.players_move(1, Some(Direction::Up));
    assert_eq!((s.players[0].vel_x, s.players[0].vel_y), (0, 150));
    s.players_move(1, None);
    assert_eq!((s.players[0].vel_x, s.players[0].vel_y), (0, 0));
    // Stopping keeps the facing.
    assert_eq!(s.players[0].dir, Direction::Up);
}

#[test]
fn enemy_wander_turns_only_into_open_directions() {
    let mut s = playing_session(vec![demo_level()]);
    assert!(s.auto_spawn_enemy_at(1));
    let epos = s.enemies[0].pos;
    // A wall 20 units up blocks the upward turn.
    let m = tank_battle::wander::feasible_moves(
        &vec![
            tank_battle::Tile { id: 999, kind: LevelItem::BrickWall, pos: pos(epos.x, epos.y + 20) },
        ],
        epos,
    );
    assert!(!m.can_up);
    assert!(m.can_down && m.can_left && m.can_right);
    // A tree never blocks.
    let mt = tank_battle::wander::feasible_moves(
        &vec![
            tank_battle::Tile { id: 999, kind: LevelItem::Tree, pos: pos(epos.x, epos.y + 20) },
        ],
        epos,
    );
    assert!(mt.can_up);
    // The weighted draw lands on a feasible direction (here Down is the
    // only one open).
    let only_down = tank_battle::Movable {
        can_up: false,
        can_down: true,
        can_left: false,
        can_right: false,
    };
    assert_eq!(
        tank_battle::wander::choose_wander_direction(only_down),
        Some(Direction::Down)
    );
    let none_open = tank_battle::Movable {
        can_up: false,
        can_down: false,
        can_left: false,
        can_right: false,
    };
    assert_eq!(tank_battle::wander::choose_wander_direction(none_open), None);
}

#[test]
fn enemy_timer_resets_on_contact() {
    let mut s = playing_session(vec![demo_level()]);
    assert!(s.auto_spawn_enemy_at(0));
    let id = s.enemies[0].id;
    assert_eq!(s.enemies[0].turn_timer_ms, 1000);
    s.handle_enemy_collision(&vec![TouchEvent { a: id, b: 12345 }]);
    assert_eq!(s.enemies[0].turn_timer_ms, 0);
}

#[test]
fn enemies_drive_while_their_timer_runs() {
    let mut s = playing_session(vec![demo_level()]);
    assert!(s.auto_spawn_enemy_at(0));
    // 100 units per second, facing up, timer 1000 ms.
    s.enemies_move(500);
    assert_eq!(s.enemies[0].pos, pos(-300, 250));
    assert_eq!(s.enemies[0].turn_timer_ms, 500);
}

#[test]
fn explosion_entities_live_out_their_frames() {
    let mut s = playing_session(vec![demo_level()]);
    let brick_id = s.tiles[0].id;
    s.spawn_bullet(Faction::Player, pos(0, -10), Direction::Up);
    let b = s.bullets[0].id;
    s.handle_bullet_collision(&vec![TouchEvent { a: b, b: brick_id }]);
    s.spawn_explosion();
    assert!(s.effects.is_empty());
    assert_eq!(s.explosions.len(), 1);
    assert_eq!(s.explosions[0].frame, 0);
    // A small explosion plays three frames (0, 1, 2) at 50 ms each.
    assert_eq!(s.explosions[0].last_frame, 2);
    s.animate_explosion(50);
    assert_eq!(s.explosions[0].frame, 1);
    s.animate_explosion(50);
    assert_eq!(s.explosions[0].frame, 2);
    s.animate_explosion(50);
    assert!(s.explosions.is_empty());
}

#[test]
fn pause_and_resume_toggle_without_touching_the_field() {
    let mut s = playing_session(vec![demo_level()]);
    field_player_one(&mut s);
    s.handle_input(MenuInput::Pause);
    assert_eq!(s.state, AppState::Paused);
    assert_eq!(s.players.len(), 1);
    // An input that matches no transition row is ignored.
    s.handle_input(MenuInput::Start);
    assert_eq!(s.state, AppState::Paused);
    s.handle_input(MenuInput::Resume);
    assert_eq!(s.state, AppState::Playing);
    assert_eq!(s.players.len(), 1);
}

#[test]
fn game_over_effect_returns_to_a_reset_menu() {
    let mut s = playing_session(vec![demo_level()]);
    s.home_destroyed = true;
    s.evaluate_terminal();
    assert_eq!(s.state, AppState::GameOver);
    s.animate_game_over(1000);
    assert_eq!(s.state, AppState::GameOver);
    s.animate_game_over(2000);
    assert_eq!(s.state, AppState::StartMenu);
    assert_eq!(s.lives1, 3);
    assert!(!s.home_destroyed);
    assert!(s.tiles.is_empty());
}

#[test]
fn menu_round_trip_reloads_level_zero_identically() {
    let mut s = playing_session(vec![demo_level(), empty_level()]);
    let first_load: Vec<(LevelItem, Pos)> =
        s.tiles.iter().map(|t| (t.kind, t.pos)).collect();
    // Play: shoot the brick away and move to the next level.
    let brick_id = s.tiles[0].id;
    s.spawn_bullet(Faction::Player, pos(0, -10), Direction::Up);
    let b = s.bullets[0].id;
    s.handle_bullet_collision(&vec![TouchEvent { a: b, b: brick_id }]);
    s.spawned_enemies = 12;
    s.auto_switch_level();
    assert_eq!(s.level_index, 1);
    // Back through the menu: everything resets and level 0 reloads
    // exactly as a fresh game start lays it out.
    s.home_destroyed = true;
    s.evaluate_terminal();
    s.handle_input(MenuInput::Restart);
    assert_eq!(s.state, AppState::StartMenu);
    assert_eq!(s.level_index, 0);
    s.handle_input(MenuInput::Start);
    let reload: Vec<(LevelItem, Pos)> = s.tiles.iter().map(|t| (t.kind, t.pos)).collect();
    assert_eq!(reload, first_load);
    let fresh = playing_session(vec![demo_level(), empty_level()]);
    let fresh_load: Vec<(LevelItem, Pos)> =
        fresh.tiles.iter().map(|t| (t.kind, t.pos)).collect();
    assert_eq!(reload, fresh_load);
}

#[test]
fn destroy_and_despawn_are_idempotent() {
    let mut s = playing_session(vec![demo_level()]);
    let brick_id = s.tiles[0].id;
    s.destroy(brick_id);
    assert_eq!(s.tiles.len(), 2);
    // Destroying an already-gone tile is a no-op, not an error.
    s.destroy(brick_id);
    assert_eq!(s.tiles.len(), 2);
    s.spawn_bullet(Faction::Player, pos(0, 0), Direction::Up);
    let b = s.bullets[0].id;
    s.despawn(b);
    s.despawn(b);
    assert!(s.bullets.is_empty());
}

#[test]
fn is_home_identifies_the_home_tile() {
    let s = playing_session(vec![demo_level()]);
    assert!(!s.is_home(s.tiles[0].id));
    assert!(s.is_home(s.tiles[2].id));
    assert!(!s.is_home(987654));
}

#[test]
fn water_and_trees_let_bullets_pass() {
    let mut s = GameSession::new(
        vec![LevelGeometry {
            tiles: vec![
                (LevelItem::Water, pos(0, 0)),
                (LevelItem::Tree, pos(100, 0)),
            ],
            player1_marker: pos(-100, -200),
            player2_marker: pos(100, -200),
            enemy_markers: vec![],
        }],
        MultiplayerMode::SinglePlayer,
    );
    s.handle_input(MenuInput::Start);
    let water_id = s.tiles[0].id;
    let tree_id = s.tiles[1].id;
    s.spawn_bullet(Faction::Player, pos(0, -10), Direction::Up);
    let b = s.bullets[0].id;
    let rs = s.handle_bullet_collision(&vec![
        TouchEvent { a: b, b: water_id },
        TouchEvent { a: b, b: tree_id },
    ]);
    assert!(rs.is_empty());
    assert_eq!(s.bullets.len(), 1);
    assert_eq!(s.tiles.len(), 2);
}

#[test]
fn two_player_game_continues_while_one_has_lives() {
    let mut s = GameSession::new(vec![demo_level()], MultiplayerMode::SinglePlayer);
    s.switch_multiplayer_mode();
    s.handle_input(MenuInput::Start);
    s.lives1 = 0;
    s.lives2 = 2;
    s.evaluate_terminal();
    // Player two still has lives: the battle goes on.
    assert_eq!(s.state, AppState::Playing);
    s.lives2 = 0;
    s.evaluate_terminal();
    assert_eq!(s.state, AppState::GameOver);
}

#[test]
fn tile_at_reports_the_standing_tile() {
    let mut s = playing_session(vec![demo_level()]);
    let t = s.tile_at(pos(0, 0)).expect("a brick stands at the origin");
    assert_eq!(t.kind, LevelItem::BrickWall);
    assert!(s.tile_at(pos(5, 5)).is_none());
    s.destroy(t.id);
    assert!(s.tile_at(pos(0, 0)).is_none());
}

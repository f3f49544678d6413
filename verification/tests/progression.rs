use overworld::player::{spawn_player, CombatStats, Player};

fn fresh_stats() -> CombatStats {
    CombatStats { health: 10, max_health: 10, attack: 2, defense: 1 }
}

#[test]
fn grant_crossing_threshold_levels_once() {
    let mut player = Player { active: true, exp: 48, max_steps: 5, step: 0 };
    let mut stats = fresh_stats();
    let leveled = player.give_exp(5, &mut stats);
    assert!(leveled);
    assert_eq!(player.exp, 3);
    assert_eq!(stats.health, 12);
    assert_eq!(stats.max_health, 12);
    assert_eq!(stats.attack, 3);
    assert_eq!(stats.defense, 2);
}

#[test]
fn large_grant_levels_twice() {
    let mut player = Player { active: true, exp: 0, max_steps: 5, step: 0 };
    let mut stats = fresh_stats();
    let leveled = player.give_exp(120, &mut stats);
    assert!(leveled);
    assert_eq!(player.exp, 20);
    assert_eq!(stats.health, 14);
    assert_eq!(stats.max_health, 14);
    assert_eq!(stats.attack, 4);
    assert_eq!(stats.defense, 3);
}

#[test]
fn small_grant_changes_no_stats() {
    let mut player = Player { active: true, exp: 10, max_steps: 5, step: 0 };
    let mut stats = fresh_stats();
    let leveled = player.give_exp(5, &mut stats);
    assert!(!leveled);
    assert_eq!(player.exp, 15);
    assert_eq!(stats, fresh_stats());
}

#[test]
fn exact_threshold_leaves_zero_remainder() {
    let mut player = Player { active: true, exp: 0, max_steps: 5, step: 0 };
    let mut stats = fresh_stats();
    let leveled = player.give_exp(50, &mut stats);
    assert!(leveled);
    assert_eq!(player.exp, 0);
    assert_eq!(stats.health, 12);
}

#[test]
fn grant_leaves_movement_state_alone() {
    let mut player = Player { active: false, exp: 1, max_steps: 5, step: 4 };
    let mut stats = fresh_stats();
    player.give_exp(60, &mut stats);
    assert!(!player.active);
    assert_eq!(player.step, 4);
    assert_eq!(player.max_steps, 5);
}

#[test]
fn spawn_values() {
    let (player, stats, pos) = spawn_player();
    assert_eq!(player, Player { active: true, exp: 0, max_steps: 5, step: 0 });
    assert_eq!(stats, CombatStats { health: 10, max_health: 10, attack: 2, defense: 1 });
    assert_eq!(pos.x, 64);
    assert_eq!(pos.y, -64);
}

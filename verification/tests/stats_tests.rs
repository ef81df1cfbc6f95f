use lurk_dashboard::game::Entity;
use lurk_dashboard::stats::derive_stats;

fn player(attack: u16, defense: u16, regen: u16) -> Entity {
    Entity {
        name: String::from("Bob"),
        is_alive: false,
        join_battle: false,
        is_monster: false,
        is_started: false,
        is_ready: false,
        attack,
        defense,
        regen,
        health: 100,
        gold: 50,
        location: 0,
        description: String::from("Description here"),
    }
}

#[test]
fn derived_stats_concrete() {
    let s = derive_stats(&player(100, 50, 75));
    assert_eq!(s.total_points, 225);
    assert_eq!(s.attack_pct, 44);
    assert_eq!(s.defense_pct, 22);
    assert_eq!(s.regen_pct, 33);
}

#[test]
fn derived_stats_zero_total() {
    let s = derive_stats(&player(0, 0, 0));
    assert_eq!(s.total_points, 0);
    assert_eq!(s.attack_pct, 0);
    assert_eq!(s.defense_pct, 0);
    assert_eq!(s.regen_pct, 0);
}

#[test]
fn derived_stats_rounds_half_up() {
    // 1 of 200 points is exactly 0.5 percent, which rounds up to 1.
    let s = derive_stats(&player(1, 199, 0));
    assert_eq!(s.attack_pct, 1);
}

#[test]
fn derived_stats_sum_within_one_of_100() {
    let cases = [
        (100u16, 50u16, 75u16),
        (1, 1, 1),
        (50, 50, 0),
        (1, 199, 0),
        (65535, 65535, 65535),
        (0, 0, 7),
        (33, 33, 34),
    ];
    for (a, d, g) in cases {
        let s = derive_stats(&player(a, d, g));
        let sum = s.attack_pct + s.defense_pct + s.regen_pct;
        assert!(s.attack_pct <= 100 && s.defense_pct <= 100 && s.regen_pct <= 100);
        assert!((99..=101).contains(&sum), "sum {sum} for {a}/{d}/{g}");
    }
}

#[test]
fn derived_stats_large_values_no_overflow() {
    let s = derive_stats(&player(65535, 65535, 65535));
    assert_eq!(s.total_points, 3 * 65535);
    assert_eq!(s.attack_pct, 33);
}

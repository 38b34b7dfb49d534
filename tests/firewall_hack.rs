use heist::player::Player;
use heist::security::firewall::{
    attempt_hack_node, create_firewall_grid, initial_state, resolve_hack, FirewallNode,
    HackEvent, NodeState,
};
use heist::security::Difficulty;

fn node(state: NodeState, difficulty: u8) -> FirewallNode {
    FirewallNode { coord: (1, 2), state, difficulty }
}

#[test]
fn hack_on_compromised_node_succeeds_for_free() {
    for energy in [0, 3, 100] {
        let mut p = Player::new("op", Difficulty::Normal);
        p.energy = energy;
        let mut n = node(NodeState::Compromised, 50);
        let e = attempt_hack_node(&mut p, &mut n);
        assert_eq!(e, HackEvent::AlreadyCompromised);
        assert!(e.succeeded());
        assert_eq!(p.energy, energy);
        assert_eq!(p.hacks_done, 0);
        assert_eq!(n.state, NodeState::Compromised);
    }
}

#[test]
fn hack_on_exploded_node_fails_for_free() {
    let mut p = Player::new("op", Difficulty::Normal);
    let mut n = node(NodeState::Exploded, 10);
    let e = attempt_hack_node(&mut p, &mut n);
    assert_eq!(e, HackEvent::AlreadyExploded);
    assert!(!e.succeeded());
    assert_eq!(p.energy, 100);
    assert_eq!(n.state, NodeState::Exploded);
}

#[test]
fn hack_without_enough_energy_costs_nothing() {
    let mut p = Player::new("op", Difficulty::Normal);
    p.energy = 11;
    let mut n = node(NodeState::Secure, 75);
    let e = resolve_hack(&mut p, &mut n, 0, 0);
    assert_eq!(e, HackEvent::NotEnoughEnergy { cost: 12 });
    assert_eq!(p.energy, 11);
    assert_eq!(p.hacks_done, 0);
    assert_eq!(n.state, NodeState::Secure);
}

#[test]
fn hack_threshold_and_success() {
    // cost 42/10 + 5 = 9; energy left 91, bonus 50/2 = 25; ease (100-42)/5 = 11
    let mut p = Player::new("op", Difficulty::Normal);
    let mut n = node(NodeState::Vulnerable, 42);
    let e = resolve_hack(&mut p, &mut n, 85, 99);
    assert_eq!(
        e,
        HackEvent::Attempted { cost: 9, roll: 85, threshold: 86, success: true, exploded: false }
    );
    assert_eq!(p.energy, 91);
    assert_eq!(p.hacks_done, 1);
    assert_eq!(n.state, NodeState::Compromised);
}

#[test]
fn hack_miss_without_explosion_keeps_node() {
    // secure: 20 + 5/2 + (100-20)/5 = 20 + 2 + 16 = 38 with 5 energy left
    let mut p = Player::new("op", Difficulty::Normal);
    p.energy = 12;
    let mut n = node(NodeState::Secure, 20);
    let e = resolve_hack(&mut p, &mut n, 38, 85);
    assert_eq!(
        e,
        HackEvent::Attempted { cost: 7, roll: 38, threshold: 38, success: false, exploded: false }
    );
    assert_eq!(p.energy, 5);
    assert_eq!(n.state, NodeState::Secure);
}

#[test]
fn hack_miss_with_high_roll_explodes_node() {
    let mut p = Player::new("op", Difficulty::Hard);
    let mut n = node(NodeState::Secure, 90);
    let e = resolve_hack(&mut p, &mut n, 99, 86);
    assert_eq!(
        e,
        HackEvent::Attempted { cost: 14, roll: 99, threshold: 47, success: false, exploded: true }
    );
    assert_eq!(p.energy, 66);
    assert_eq!(n.state, NodeState::Exploded);
    assert_eq!(n.coord, (1, 2));
}

#[test]
fn initial_state_thresholds() {
    assert_eq!(initial_state(Difficulty::Easy, 44), NodeState::Vulnerable);
    assert_eq!(initial_state(Difficulty::Easy, 45), NodeState::Secure);
    assert_eq!(initial_state(Difficulty::Normal, 29), NodeState::Vulnerable);
    assert_eq!(initial_state(Difficulty::Normal, 30), NodeState::Secure);
    assert_eq!(initial_state(Difficulty::Hard, 14), NodeState::Vulnerable);
    assert_eq!(initial_state(Difficulty::Hard, 15), NodeState::Secure);
}

#[test]
fn grid_is_row_major_with_ranged_difficulty() {
    let ranges = [(Difficulty::Easy, 5, 30), (Difficulty::Normal, 20, 60), (Difficulty::Hard, 40, 95)];
    for (d, low, high) in ranges {
        let g = create_firewall_grid(3, 4, d);
        assert_eq!(g.len(), 12);
        for (i, n) in g.iter().enumerate() {
            assert_eq!(n.coord, (i / 4, i % 4));
            assert!(n.state == NodeState::Secure || n.state == NodeState::Vulnerable);
            assert!(low <= n.difficulty && n.difficulty < high);
        }
    }
}

#[test]
fn node_symbols() {
    assert_eq!(NodeState::Secure.symbol(), '.');
    assert_eq!(NodeState::Vulnerable.symbol(), 'V');
    assert_eq!(NodeState::Compromised.symbol(), 'C');
    assert_eq!(NodeState::Exploded.symbol(), 'X');
}

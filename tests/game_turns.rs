use heist::actions::Action;
use heist::game::{leak_for, DigitLeak, GameResult, Session};
use heist::player::Player;
use heist::security::firewall::{HackEvent, NodeState};
use heist::security::Difficulty;
use heist::utils::clamp_generic;

#[test]
fn player_starting_energy() {
    assert_eq!(Player::new("a", Difficulty::Easy).energy, 120);
    assert_eq!(Player::new("a", Difficulty::Normal).energy, 100);
    let p = Player::new("zero", Difficulty::Hard);
    assert_eq!(p.energy, 80);
    assert_eq!(p.name, "zero");
    assert_eq!(p.inventory, vec!["USB exploit".to_string()]);
    assert_eq!(p.hacks_done, 0);
    assert_eq!(p.brute_force_used, 0);
}

#[test]
fn clamp_values() {
    assert_eq!(clamp_generic(5, 0, 10), 5);
    assert_eq!(clamp_generic(-3, 0, 10), 0);
    assert_eq!(clamp_generic(15, 0, 10), 10);
    for v in [-100i32, 0, 25, 50, 51, 1000] {
        let once = clamp_generic(v, 0, 50);
        assert!((0..=50).contains(&once));
        assert_eq!(clamp_generic(once, 0, 50), once);
    }
}

#[test]
fn parse_actions() {
    assert_eq!(Action::parse("  SCAN \n"), Some(Action::Scan));
    assert_eq!(Action::parse("s"), Some(Action::Scan));
    assert_eq!(Action::parse("Hack"), Some(Action::Hack));
    assert_eq!(Action::parse("b"), Some(Action::BruteForce));
    assert_eq!(Action::parse("r"), Some(Action::Retreat));
    assert_eq!(Action::parse("status"), Some(Action::Status));
    assert_eq!(Action::parse(" HELP"), Some(Action::Help));
    assert_eq!(Action::parse("st"), None);
    assert_eq!(Action::parse(""), None);
    assert_eq!("brute".parse::<Action>(), Ok(Action::BruteForce));
    assert_eq!("dance".parse::<Action>(), Err(()));
}

#[test]
fn parse_difficulties() {
    assert_eq!(Difficulty::parse(" E "), Difficulty::Easy);
    assert_eq!(Difficulty::parse("easy"), Difficulty::Easy);
    assert_eq!(Difficulty::parse("HARD"), Difficulty::Hard);
    assert_eq!(Difficulty::parse("h"), Difficulty::Hard);
    assert_eq!(Difficulty::parse("n"), Difficulty::Normal);
    assert_eq!(Difficulty::parse("whatever"), Difficulty::Normal);
}

#[test]
fn scan_turn_on_fresh_normal_session() {
    for _ in 0..20 {
        let mut s = Session::new("op", Difficulty::Normal);
        assert_eq!(s.system.lock_timer, 20);
        assert_eq!(s.player.energy, 100);
        let hint = s.scan_turn();
        assert!(hint.is_some());
        assert_eq!(s.last_scan, hint);
        assert_eq!(s.player.energy, 92);
        assert_eq!(s.system.lock_timer, 19);
    }
}

#[test]
fn scan_turn_without_energy_still_ticks() {
    let mut s = Session::new("op", Difficulty::Normal);
    s.player.energy = 5;
    assert_eq!(s.scan_turn(), None);
    assert_eq!(s.player.energy, 5);
    assert_eq!(s.system.lock_timer, 19);
}

#[test]
fn malformed_guess_costs_nothing() {
    let mut s = Session::new("op", Difficulty::Normal);
    assert_eq!(s.guess_text_turn("12a4"), None);
    assert_eq!(s.player.energy, 100);
    assert_eq!(s.system.lock_timer, 20);
    assert!(!s.code_cracked);
}

#[test]
fn guess_turn_costs_and_cracks() {
    let mut s = Session::new("op", Difficulty::Normal);
    s.system.code_digits = [1, 2, 3, 4];
    assert_eq!(s.guess_text_turn("4321"), Some((0, 4)));
    assert!(!s.code_cracked);
    assert_eq!(s.player.energy, 94);
    assert_eq!(s.system.lock_timer, 19);
    assert_eq!(s.guess_turn([1, 2, 3, 4]), (4, 0));
    assert!(s.code_cracked);
    assert_eq!(s.player.energy, 88);
    assert_eq!(s.system.lock_timer, 18);
}

#[test]
fn hack_node_turn_bounds_and_tick() {
    let mut s = Session::new("op", Difficulty::Easy);
    assert_eq!(s.hack_node_turn(5, 0), None);
    assert_eq!(s.hack_node_turn(0, 5), None);
    assert_eq!(s.system.lock_timer, 25);
    s.system.firewall[7].state = NodeState::Compromised;
    let report = s.hack_node_turn(1, 2).unwrap();
    assert_eq!(report.event, HackEvent::AlreadyCompromised);
    if let Some(leak) = report.leak {
        assert!(leak.pos < 4);
        assert_eq!(leak.digit, s.system.code_digits[leak.pos]);
    }
    assert_eq!(s.system.lock_timer, 24);
    assert_eq!(s.player.energy, 120);
}

#[test]
fn brute_force_turn_ticks_twice() {
    let mut s = Session::new("op", Difficulty::Hard);
    let cracked = s.brute_force_turn();
    assert_eq!(s.code_cracked, cracked);
    assert_eq!(s.player.energy, 50);
    assert_eq!(s.player.brute_force_used, 1);
    assert_eq!(s.system.lock_timer, 14);
    s.player.energy = 20;
    assert!(!s.brute_force_turn());
    assert_eq!(s.player.energy, 20);
    assert_eq!(s.system.lock_timer, 12);
}

#[test]
fn loss_conditions() {
    let mut s = Session::new("op", Difficulty::Normal);
    assert_eq!(s.loss(), None);
    s.player.energy = 0;
    assert_eq!(s.loss(), Some(GameResult::Failure("You ran out of energy!".to_string())));
    s.system.lock_timer = 0;
    assert_eq!(
        s.loss(),
        Some(GameResult::Failure("Alarm triggered — you were detected!".to_string()))
    );
}

#[test]
fn end_turn_wins_or_applies_penalty() {
    let mut s = Session::new("op", Difficulty::Normal);
    for i in 0..8 {
        s.system.firewall[i].state = NodeState::Compromised;
    }
    for i in 8..11 {
        s.system.firewall[i].state = NodeState::Exploded;
    }
    let end = s.end_turn();
    assert_eq!(end.result, None);
    assert_eq!(end.penalty, 1);
    assert_eq!(s.system.lock_timer, 19);
    s.code_cracked = true;
    let end = s.end_turn();
    assert_eq!(end.result, Some(GameResult::Success));
    assert_eq!(s.system.lock_timer, 19);
}

#[test]
fn from_str_trims_and_folds_case() {
    assert_eq!("  BRUTE ".parse::<Action>(), Ok(Action::BruteForce));
    assert_eq!("Retreat".parse::<Action>(), Ok(Action::Retreat));
    assert_eq!(" h\t".parse::<Action>(), Ok(Action::Hack));
    assert_eq!("scanner".parse::<Action>(), Err(()));
}

#[test]
fn retreat_ends_with_failure() {
    let s = Session::new("op", Difficulty::Normal);
    assert_eq!(s.retreat(), GameResult::Failure("Retreated from the heist.".to_string()));
}

#[test]
fn leak_needs_success_and_low_roll() {
    let code = [7, 8, 9, 0];
    assert_eq!(leak_for(true, 19, 2, &code), Some(DigitLeak { pos: 2, digit: 9 }));
    assert_eq!(leak_for(true, 20, 2, &code), None);
    assert_eq!(leak_for(false, 0, 1, &code), None);
    assert_eq!(leak_for(true, 0, 3, &code), Some(DigitLeak { pos: 3, digit: 0 }));
}

#[test]
fn fresh_session_turns_leave_expected_status() {
    let mut s = Session::new("Ann", Difficulty::Normal);
    s.scan_turn();
    assert_eq!(s.end_turn().result, None);
    assert_eq!((s.system.lock_timer, s.player.energy, s.player.hacks_done, s.player.brute_force_used), (19, 92, 0, 0));
    let mut s = Session::new("Ann", Difficulty::Normal);
    assert_eq!(s.guess_text_turn("12a4"), None);
    s.end_turn();
    assert_eq!((s.system.lock_timer, s.player.energy, s.player.hacks_done, s.player.brute_force_used), (20, 100, 0, 0));
    let mut s = Session::new("Ann", Difficulty::Normal);
    s.brute_force_turn();
    assert_eq!(s.end_turn().result, None);
    assert_eq!((s.system.lock_timer, s.player.energy, s.player.hacks_done, s.player.brute_force_used), (18, 70, 0, 1));
    let mut s = Session::new("Ann", Difficulty::Normal);
    assert!(s.guess_text_turn("0000").is_some());
    assert_eq!(s.end_turn().result, None);
    assert_eq!((s.system.lock_timer, s.player.energy, s.player.hacks_done, s.player.brute_force_used), (19, 94, 0, 0));
}

#[test]
fn ten_scans_on_hard_exhaust_energy() {
    let mut s = Session::new("Ann", Difficulty::Hard);
    for _ in 0..10 {
        assert_eq!(s.loss(), None);
        s.scan_turn();
        s.end_turn();
    }
    assert_eq!(s.loss(), Some(GameResult::Failure("You ran out of energy!".to_string())));
}

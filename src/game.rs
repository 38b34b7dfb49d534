use crate::player::{starting_energy, Player};
use crate::random::random_in;
use crate::security::code::{
    digit_value, exact_count, mastermind_feedback, misplaced_count, parse_code_guess, valid_guess_text,
};
use crate::security::firewall::{attempt_hack_node, hack_effect, HackEvent, NodeState};
use crate::security::{
    battery_item, brute_force_cost, brute_force_threshold, has_battery, lemma_count_absent, regen_energy, starting_timer,
    with_energy, Difficulty, ScanHint, SecuritySystem,
};
use vstd::prelude::*;

verus! {

/// How a session ended.
#[derive(Debug, PartialEq, Eq)]
pub enum GameResult {
    Success,
    Failure(String),
}

/// A code digit that a compromised node gave away: its zero-based position
/// and its value.
#[derive(Debug, Clone, Copy, PartialEq, Eq, Structural)]
pub struct DigitLeak {
    pub pos: usize,
    pub digit: u8,
}

/// What a hack on a grid node did, and the code digit it leaked, if any.
#[derive(Debug, Clone, Copy, PartialEq, Eq, Structural)]
pub struct NodeHackReport {
    pub event: HackEvent,
    pub leak: Option<DigitLeak>,
}

/// What the end of a turn did: the session's result if the vault opened,
/// otherwise the timer penalty for exploded nodes and whether a battery
/// pack restored energy.
#[derive(Debug, PartialEq, Eq)]
pub struct TurnEnd {
    pub result: Option<GameResult>,
    pub penalty: i32,
    pub restored: bool,
}

/// The digit that a hack leaks: on success, the digit at `pos` when
/// `reveal_roll` is below 20; nothing otherwise.
pub open spec fn leak_of(succeeded: bool, reveal_roll: u32, pos: u32, code: [u8; 4]) -> Option<
    DigitLeak,
> {
    if succeeded && reveal_roll < 20 {
        Some(DigitLeak { pos: pos as usize, digit: code[pos as int] })
    } else {
        None
    }
}

/// Decides the leak after a hack from the two draws given.
pub fn leak_for(succeeded: bool, reveal_roll: u32, pos: u32, code: &[u8; 4]) -> (r: Option<
    DigitLeak,
>)
    requires
        pos < 4,
    ensures
        r == leak_of(succeeded, reveal_roll, pos, *code),
{
    if succeeded && reveal_roll < 20 {
        Some(DigitLeak { pos: pos as usize, digit: code[pos as usize] })
    } else {
        None
    }
}

/// The digit values of four ASCII digits.
pub open spec fn raw_digits(raw: Seq<char>) -> Seq<u8> {
    Seq::new(4, |i: int| digit_value(raw[i]) as u8)
}

/// Grid size of a session.
pub open spec fn grid_side() -> usize {
    5
}

/// Energy that a code guess costs.
pub open spec fn guess_cost() -> i32 {
    6
}

/// Percentage of compromised nodes needed to win.
pub open spec fn victory_percent() -> int {
    30
}

/// One heist: the player, the vault, the last hint seen and whether the code
/// has been cracked.
pub struct Session {
    pub player: Player,
    pub system: SecuritySystem,
    pub last_scan: Option<ScanHint>,
    pub code_cracked: bool,
}

impl Session {
    /// A 5 by 5 grid, and counters that the lock timer bounds: every action
    /// that raises one of them also runs the timer down.
    pub open spec fn well_formed(&self) -> bool {
        &&& self.system.well_formed()
        &&& self.system.rows == grid_side()
        &&& self.system.cols == grid_side()
        &&& -13 <= self.system.lock_timer
        &&& self.player.hacks_done + self.player.brute_force_used + self.system.lock_timer <= 25
    }

    /// Whether a turn may start: neither the timer nor the energy has run out.
    pub open spec fn spec_active(&self) -> bool {
        self.system.lock_timer > 0 && self.player.energy > 0
    }

    /// Everything but the timer and the player's energy is as in `old`.
    pub open spec fn same_but_timer_energy(&self, old: Session) -> bool {
        &&& self.system.firewall == old.system.firewall
        &&& self.system.code_digits == old.system.code_digits
        &&& self.system.difficulty == old.system.difficulty
        &&& self.system.honeypot_active == old.system.honeypot_active
        &&& self.system.rows == old.system.rows
        &&& self.system.cols == old.system.cols
        &&& self.player.name == old.player.name
        &&& self.player.hacks_done == old.player.hacks_done
        &&& self.player.brute_force_used == old.player.brute_force_used
        &&& self.player.inventory == old.player.inventory
    }

    /// A new session on a 5 by 5 grid.
    pub fn new(name: &str, difficulty: Difficulty) -> (s: Session)
        ensures
            s.well_formed(),
            s.spec_active(),
            s.player.name@ == name@,
            s.player.energy == starting_energy(difficulty),
            s.system.lock_timer == starting_timer(difficulty),
            s.system.difficulty == difficulty,
            s.player.hacks_done == 0,
            s.player.brute_force_used == 0,
            s.player.inventory@.len() == 1,
            s.player.inventory@[0]@ == "USB exploit"@,
            s.system.honeypot_active,
            forall|i: int|
                0 <= i < s.system.firewall@.len() ==> (#[trigger] s.system.firewall@[i]).state
                    == NodeState::Secure || s.system.firewall@[i].state == NodeState::Vulnerable,
            s.system.spec_exploded() == 0,
            s.system.spec_compromised() == 0,
            !has_battery(s.player.inventory@),
            s.last_scan is None,
            !s.code_cracked,
    {
        let player = Player::new(name, difficulty);
        let system = SecuritySystem::new(difficulty, 5, 5);
        proof {
            lemma_count_absent(system.firewall@, NodeState::Exploded);
            lemma_count_absent(system.firewall@, NodeState::Compromised);
            reveal_strlit("USB exploit");
            reveal_strlit("Battery pack");
            assert(player.inventory@[0]@.len() != battery_item().len());
        }
        Session { player, system, last_scan: None, code_cracked: false }
    }

    /// The failure that ends the session before a turn: the alarm when the
    /// timer has run out, else exhaustion when the energy has; `None` when
    /// the turn may go on.
    pub fn loss(&self) -> (r: Option<GameResult>)
        ensures
            r is None <==> self.spec_active(),
            self.system.lock_timer <= 0 ==> (r matches Some(GameResult::Failure(m)) && m@
                == "Alarm triggered — you were detected!"@),
            self.system.lock_timer > 0 && self.player.energy <= 0 ==> (r matches Some(
                GameResult::Failure(m),
            ) && m@ == "You ran out of energy!"@),
    {
        if self.system.lock_timer <= 0 {
            return Some(GameResult::Failure("Alarm triggered — you were detected!".to_owned()));
        }
        if self.player.energy <= 0 {
            return Some(GameResult::Failure("You ran out of energy!".to_owned()));
        }
        None
    }

    /// Retreat: the session ends at once, as a failure.
    pub fn retreat(&self) -> (r: GameResult)
        ensures
            r matches GameResult::Failure(m) && m@ == "Retreated from the heist."@,
    {
        GameResult::Failure("Retreated from the heist.".to_owned())
    }

    /// A scan turn: the scan itself (8 energy for a hint, when the player has
    /// it), and one tick of the timer whatever the scan gave. A hint becomes
    /// the last one seen.
    pub fn scan_turn(&mut self) -> (r: Option<ScanHint>)
        requires
            old(self).well_formed(),
            old(self).spec_active(),
        ensures
            final(self).well_formed(),
            final(self).same_but_timer_energy(*old(self)),
            final(self).code_cracked == old(self).code_cracked,
            final(self).system.lock_timer == old(self).system.lock_timer - 1,
            old(self).player.energy >= 8 ==> {
                &&& final(self).player.energy == old(self).player.energy - 8
                &&& r is Some
                &&& final(self).last_scan == r
                &&& exists|pick: u32, pos: u32|
                    pick < 3 && pos < 4 && r == Some(
                        old(self).system.expected_hint(old(self).last_scan, pick, pos),
                    )
            },
            old(self).player.energy < 8 ==> {
                &&& r is None
                &&& final(self).player.energy == old(self).player.energy
                &&& final(self).last_scan == old(self).last_scan
            },
    {
        let last = self.last_scan;
        let hint = match last {
            Some(h) => self.system.scan(&mut self.player, Some(&h)),
            None => self.system.scan(&mut self.player, None),
        };
        if hint.is_some() {
            self.last_scan = hint;
        }
        self.system.lock_timer = self.system.lock_timer - 1;
        hint
    }

    /// A code guess turn: the feedback for `guess`, the code cracked when
    /// all four digits are in place, 6 energy and one tick of the timer
    /// whatever the outcome.
    pub fn guess_turn(&mut self, guess: [u8; 4]) -> (r: (usize, usize))
        requires
            old(self).well_formed(),
            old(self).spec_active(),
        ensures
            final(self).well_formed(),
            final(self).same_but_timer_energy(*old(self)),
            final(self).last_scan == old(self).last_scan,
            r.0 == exact_count(old(self).system.code_digits@, guess@),
            r.1 == misplaced_count(old(self).system.code_digits@, guess@),
            final(self).code_cracked == (old(self).code_cracked || r.0 == 4),
            final(self).player.energy == old(self).player.energy - guess_cost(),
            final(self).system.lock_timer == old(self).system.lock_timer - 1,
    {
        let r = mastermind_feedback(&self.system.code_digits, &guess);
        if r.0 == 4 {
            self.code_cracked = true;
        }
        self.player.energy = self.player.energy - 6;
        self.system.lock_timer = self.system.lock_timer - 1;
        r
    }

    /// A code guess typed as text: rejected, at no cost and with nothing
    /// changed, unless it is four ASCII digits; otherwise as `guess_turn`.
    pub fn guess_text_turn(&mut self, raw: &str) -> (r: Option<(usize, usize)>)
        requires
            old(self).well_formed(),
            old(self).spec_active(),
        ensures
            final(self).well_formed(),
            !valid_guess_text(raw@) ==> r is None && *final(self) == *old(self),
            valid_guess_text(raw@) ==> {
                &&& (r matches Some(fb) && fb.0 == exact_count(
                    old(self).system.code_digits@,
                    raw_digits(raw@),
                ) && fb.1 == misplaced_count(old(self).system.code_digits@, raw_digits(raw@))
                    && final(self).code_cracked == (old(self).code_cracked || fb.0 == 4))
                &&& final(self).same_but_timer_energy(*old(self))
                &&& final(self).last_scan == old(self).last_scan
                &&& final(self).player.energy == old(self).player.energy - guess_cost()
                &&& final(self).system.lock_timer == old(self).system.lock_timer - 1
            },
    {
        match parse_code_guess(raw) {
            Some(guess) => {
                assert(guess@ =~= raw_digits(raw@));
                Some(self.guess_turn(guess))
            },
            None => None,
        }
    }

    /// A node hack turn at `(row, col)`: rejected, with nothing changed, when
    /// the coordinates are off the grid. Otherwise the node is hacked, a
    /// success leaks a random code digit one time in five, and the timer
    /// ticks once.
    pub fn hack_node_turn(&mut self, row: usize, col: usize) -> (r: Option<NodeHackReport>)
        requires
            old(self).well_formed(),
            old(self).spec_active(),
        ensures
            final(self).well_formed(),
            row >= grid_side() || col >= grid_side() ==> r is None && *final(self) == *old(self),
            row < grid_side() && col < grid_side() ==> {
                let idx = row * grid_side() + col;
                &&& r is Some
                &&& exists|roll: u32, explode_roll: u32|
                    roll < 100 && explode_roll < 100 && hack_effect(
                        old(self).player,
                        old(self).system.firewall@[idx],
                        roll,
                        explode_roll,
                        final(self).player,
                        final(self).system.firewall@[idx],
                        r->Some_0.event,
                    )
                &&& final(self).system.firewall@ == old(self).system.firewall@.update(
                    idx,
                    final(self).system.firewall@[idx],
                )
                &&& exists|reveal_roll: u32, pos: u32|
                    reveal_roll < 100 && pos < 4 && r->Some_0.leak == leak_of(
                        r->Some_0.event.spec_succeeded(),
                        reveal_roll,
                        pos,
                        old(self).system.code_digits,
                    )
                &&& final(self).system.lock_timer == old(self).system.lock_timer - 1
                &&& final(self).system.code_digits == old(self).system.code_digits
                &&& final(self).system.difficulty == old(self).system.difficulty
                &&& final(self).system.honeypot_active == old(self).system.honeypot_active
                &&& final(self).last_scan == old(self).last_scan
                &&& final(self).code_cracked == old(self).code_cracked
            },
    {
        if row >= 5 || col >= 5 {
            return None;
        }
        let idx = row * 5 + col;
        let ghost old_firewall = self.system.firewall@;
        let ghost old_player = self.player;
        let mut node = self.system.firewall[idx];
        let ghost old_node = node;
        let event = attempt_hack_node(&mut self.player, &mut node);
        let ghost (roll, explode_roll) = choose|roll: u32, explode_roll: u32|
            roll < 100 && explode_roll < 100 && hack_effect(
                old_player,
                old_node,
                roll,
                explode_roll,
                self.player,
                node,
                event,
            );
        self.system.firewall.set(idx, node);
        assert(self.system.firewall@ =~= old_firewall.update(idx as int, node));
        let reveal_roll = random_in(0, 100);
        let pos = random_in(0, 4);
        let leak = leak_for(event.succeeded(), reveal_roll, pos, &self.system.code_digits);
        self.system.lock_timer = self.system.lock_timer - 1;
        assert(hack_effect(
            old_player,
            old_firewall[idx as int],
            roll,
            explode_roll,
            self.player,
            self.system.firewall@[idx as int],
            event,
        ));
        Some(NodeHackReport { event, leak })
    }

    /// A brute-force turn: the attempt (30 energy, when the player has it),
    /// the code cracked on success, and two ticks of the timer whatever came
    /// of it.
    pub fn brute_force_turn(&mut self) -> (r: bool)
        requires
            old(self).well_formed(),
            old(self).spec_active(),
        ensures
            final(self).well_formed(),
            final(self).system.firewall == old(self).system.firewall,
            final(self).system.code_digits == old(self).system.code_digits,
            final(self).system.difficulty == old(self).system.difficulty,
            final(self).system.honeypot_active == old(self).system.honeypot_active,
            final(self).system.rows == old(self).system.rows,
            final(self).system.cols == old(self).system.cols,
            final(self).player.hacks_done == old(self).player.hacks_done,
            final(self).player.name == old(self).player.name,
            final(self).player.inventory == old(self).player.inventory,
            final(self).last_scan == old(self).last_scan,
            final(self).code_cracked == (old(self).code_cracked || r),
            final(self).system.lock_timer == old(self).system.lock_timer - 2,
            old(self).player.energy < brute_force_cost() ==> !r && final(self).player
                == old(self).player,
            old(self).player.energy >= brute_force_cost() ==> {
                &&& r ==> brute_force_threshold(
                    old(self).system.difficulty,
                    old(self).system.spec_compromised(),
                ) > 0
                &&& final(self).player.energy == old(self).player.energy - brute_force_cost()
                &&& final(self).player.brute_force_used == old(self).player.brute_force_used + 1
            },
    {
        let success = self.system.brute_force(&mut self.player);
        if success {
            self.code_cracked = true;
        }
        self.system.lock_timer = self.system.lock_timer - 2;
        success
    }

    /// The end of a turn: the session is won when the code is cracked and at
    /// least 30 percent of the nodes are compromised. Otherwise exploded
    /// nodes cost timer ticks and a battery pack may restore energy.
    pub fn end_turn(&mut self) -> (r: TurnEnd)
        requires
            old(self).well_formed(),
            old(self).system.lock_timer >= -1,
        ensures
            final(self).well_formed(),
            old(self).code_cracked && old(self).system.ratio_met(victory_percent()) ==> {
                &&& r.result == Some(GameResult::Success)
                &&& *final(self) == *old(self)
            },
            !(old(self).code_cracked && old(self).system.ratio_met(victory_percent())) ==> {
                &&& r.result is None
                &&& r.penalty == old(self).system.spec_exploded() / 2
                &&& final(self).system.lock_timer == old(self).system.lock_timer - r.penalty
                &&& r.restored ==> has_battery(old(self).player.inventory@)
                &&& with_energy(
                    old(self).player,
                    final(self).player,
                    regen_energy(old(self).player.energy as int, r.restored),
                )
                &&& final(self).player.energy <= 150
                &&& final(self).system.firewall == old(self).system.firewall
                &&& final(self).last_scan == old(self).last_scan
                &&& final(self).code_cracked == old(self).code_cracked
            },
    {
        if self.code_cracked && self.system.check_victory() {
            return TurnEnd { result: Some(GameResult::Success), penalty: 0, restored: false };
        }
        let penalty = self.system.apply_explosion_penalty();
        let restored = self.system.battery_regen(&mut self.player);
        TurnEnd { result: None, penalty, restored }
    }
}

} // verus!

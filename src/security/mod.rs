pub mod code;
pub mod firewall;

use crate::actions::{lowercase_text, lowercased, same_text, trim_text, trimmed};
use crate::player::Player;
use crate::random::random_in;
use crate::utils::{clamp_generic, clamp_of};
use code::generate_code;
use firewall::{create_firewall_grid, symbol_of, FirewallNode, NodeState};
use vstd::prelude::*;

verus! {

/// How hard the session is: it sets starting energy, the lock timer, the
/// share of vulnerable nodes, node difficulty and brute-force odds.
#[derive(Debug, Clone, Copy, PartialEq, Eq, Structural)]
pub enum Difficulty {
    Easy,
    Normal,
    Hard,
}

/// The difficulty that a word names: `e` or `easy`, `h` or `hard`, and
/// `Normal` for anything else.
pub open spec fn difficulty_of_word(w: Seq<char>) -> Difficulty {
    if w == "e"@ || w == "easy"@ {
        Difficulty::Easy
    } else if w == "h"@ || w == "hard"@ {
        Difficulty::Hard
    } else {
        Difficulty::Normal
    }
}

impl Difficulty {
    /// Reads a difficulty, ignoring surrounding white space and case.
    pub fn parse(s: &str) -> (r: Difficulty)
        ensures
            r == difficulty_of_word(lowercased(trimmed(s@))),
    {
        let word = lowercase_text(trim_text(s));
        let w = word.as_str();
        if same_text(w, "e") || same_text(w, "easy") {
            Difficulty::Easy
        } else if same_text(w, "h") || same_text(w, "hard") {
            Difficulty::Hard
        } else {
            Difficulty::Normal
        }
    }
}

/// What a scan revealed.
#[derive(Debug, Clone, Copy, PartialEq, Eq, Structural)]
pub enum HintKind {
    /// The sum of the four code digits.
    DigitSum(u8),
    /// The digit at a zero-based position of the code.
    Digit(usize, u8),
    /// How many nodes are compromised.
    Compromised(usize),
}

/// A scan hint; `refined` marks one that repeats the previous hint exactly.
#[derive(Debug, Clone, Copy, PartialEq, Eq, Structural)]
pub struct ScanHint {
    pub kind: HintKind,
    pub refined: bool,
}

/// The vault: lock timer, secret code and firewall grid of `rows` by `cols`
/// nodes in row-major order.
pub struct SecuritySystem {
    pub lock_timer: i32,
    pub code_digits: [u8; 4],
    pub firewall: Vec<FirewallNode>,
    pub difficulty: Difficulty,
    pub honeypot_active: bool,
    pub rows: usize,
    pub cols: usize,
}

/// The lock timer at the start of a session.
pub open spec fn starting_timer(difficulty: Difficulty) -> i32 {
    match difficulty {
        Difficulty::Easy => 25,
        Difficulty::Normal => 20,
        Difficulty::Hard => 16,
    }
}

/// How many nodes of `nodes` are in state `s`.
pub open spec fn count_state(nodes: Seq<FirewallNode>, s: NodeState) -> nat
    decreases nodes.len(),
{
    if nodes.len() == 0 {
        0
    } else {
        count_state(nodes.drop_last(), s) + if nodes.last().state == s {
            1nat
        } else {
            0nat
        }
    }
}

/// Sum of the first `n` digits.
pub open spec fn digits_sum_upto(digits: Seq<u8>, n: int) -> int
    decreases n,
{
    if n <= 0 {
        0
    } else {
        digits_sum_upto(digits, n - 1) + digits[n - 1]
    }
}

/// The hint that `h` refers to, if any.
pub open spec fn copied(h: Option<&ScanHint>) -> Option<ScanHint> {
    match h {
        Some(x) => Some(*x),
        None => None,
    }
}

/// Energy that a scan costs.
pub open spec fn scan_cost() -> i32 {
    8
}

/// Energy that a brute-force attempt costs.
pub open spec fn brute_force_cost() -> i32 {
    30
}

/// Brute-force base chance in percent.
pub open spec fn brute_force_base(difficulty: Difficulty) -> int {
    match difficulty {
        Difficulty::Easy => 30,
        Difficulty::Normal => 18,
        Difficulty::Hard => 8,
    }
}

/// A brute force succeeds when the roll is below this.
pub open spec fn brute_force_threshold(difficulty: Difficulty, compromised: nat) -> int {
    clamp_of(brute_force_base(difficulty) + 5 * compromised, 0, 90)
}

/// The item that lets energy come back between turns.
pub open spec fn battery_item() -> Seq<char> {
    "Battery pack"@
}

pub open spec fn has_battery(inventory: Seq<String>) -> bool {
    exists|i: int| 0 <= i < inventory.len() && #[trigger] inventory[i]@ == battery_item()
}

/// Energy after one turn's regeneration: 8 more when `restored`, then at most 150.
pub open spec fn regen_energy(energy: int, restored: bool) -> int {
    let e = if restored {
        energy + 8
    } else {
        energy
    };
    if e > 150 {
        150
    } else {
        e
    }
}

/// The player with only its energy changed to `energy`.
pub open spec fn with_energy(before: Player, after: Player, energy: int) -> bool {
    &&& after.energy == energy
    &&& after.hacks_done == before.hacks_done
    &&& after.brute_force_used == before.brute_force_used
    &&& after.name == before.name
    &&& after.inventory == before.inventory
}

impl SecuritySystem {
    /// Shape of the grid, node difficulties, and code digits.
    pub open spec fn well_formed(&self) -> bool {
        &&& self.firewall@.len() == self.rows * self.cols
        &&& self.firewall@.len() * 100 <= usize::MAX
        &&& forall|i: int|
            0 <= i < self.firewall@.len() ==> {
                &&& (#[trigger] self.firewall@[i]).difficulty < 100
                &&& self.firewall@[i].coord.0 == i / self.cols as int
                &&& self.firewall@[i].coord.1 == i % self.cols as int
            }
        &&& forall|i: int| 0 <= i < 4 ==> self.code_digits[i] < 10
    }

    pub open spec fn spec_compromised(&self) -> nat {
        count_state(self.firewall@, NodeState::Compromised)
    }

    pub open spec fn spec_exploded(&self) -> nat {
        count_state(self.firewall@, NodeState::Exploded)
    }

    pub open spec fn digit_sum(&self) -> int {
        digits_sum_upto(self.code_digits@, 4)
    }

    /// The hint that a scan picks with `pick` (and `pos` for a single digit),
    /// marked refined when it equals `last_hint`.
    pub open spec fn expected_hint(&self, last_hint: Option<ScanHint>, pick: u32, pos: u32) -> ScanHint {
        let kind = if pick == 0 {
            HintKind::DigitSum(self.digit_sum() as u8)
        } else if pick == 1 {
            HintKind::Digit(pos as usize, self.code_digits[pos as int])
        } else {
            HintKind::Compromised(self.spec_compromised() as usize)
        };
        let plain = ScanHint { kind, refined: false };
        ScanHint {
            kind,
            refined: match last_hint {
                Some(prev) => prev == plain,
                None => false,
            },
        }
    }

    /// Whether `compromised * 100 / total` reaches `threshold_percent`.
    pub open spec fn ratio_met(&self, threshold_percent: int) -> bool {
        (self.spec_compromised() * 100) as int / (self.firewall@.len() as int) >= threshold_percent
    }

    /// A fresh system: the timer by difficulty, a random code, a freshly
    /// generated grid, and honeypots active.
    pub fn new(difficulty: Difficulty, rows: usize, cols: usize) -> (s: SecuritySystem)
        requires
            rows * cols * 100 <= usize::MAX,
        ensures
            s.well_formed(),
            s.lock_timer == starting_timer(difficulty),
            s.difficulty == difficulty,
            s.honeypot_active,
            s.rows == rows,
            s.cols == cols,
            forall|i: int|
                0 <= i < s.firewall@.len() ==> (#[trigger] s.firewall@[i]).state
                    == NodeState::Secure || s.firewall@[i].state == NodeState::Vulnerable,
    {
        let lock_timer: i32 = match difficulty {
            Difficulty::Easy => 25,
            Difficulty::Normal => 20,
            Difficulty::Hard => 16,
        };
        let code_digits = generate_code();
        let firewall = create_firewall_grid(rows, cols, difficulty);
        let s = SecuritySystem {
            lock_timer,
            code_digits,
            firewall,
            difficulty,
            honeypot_active: true,
            rows,
            cols,
        };
        assert forall|i: int| 0 <= i < s.firewall@.len() implies firewall::fresh_cell(
            #[trigger] s.firewall@[i],
            i,
            cols as int,
            firewall::node_difficulty_range(difficulty).0 as int,
            firewall::node_difficulty_range(difficulty).1 as int,
        ) by {}
        assert(s.firewall@.len() * 100 <= usize::MAX);
        s
    }

    /// The map: one row of symbols per grid row, in column order.
    pub fn render(&self) -> (r: Vec<Vec<char>>)
        requires
            self.well_formed(),
        ensures
            r@.len() == self.rows,
            forall|i: int|
                0 <= i < self.rows ==> {
                    &&& (#[trigger] r@[i])@.len() == self.cols
                    &&& forall|j: int|
                        0 <= j < self.cols ==> r@[i]@[j] == symbol_of(
                            self.firewall@[i * self.cols + j].state,
                        )
                },
    {
        let mut rows: Vec<Vec<char>> = Vec::new();
        let mut r: usize = 0;
        while r < self.rows
            invariant
                self.well_formed(),
                r <= self.rows,
                rows@.len() == r,
                forall|i: int|
                    0 <= i < r ==> {
                        &&& (#[trigger] rows@[i])@.len() == self.cols
                        &&& forall|j: int|
                            0 <= j < self.cols ==> rows@[i]@[j] == symbol_of(
                                self.firewall@[i * self.cols + j].state,
                            )
                    },
            decreases self.rows - r,
        {
            let mut line: Vec<char> = Vec::new();
            let mut c: usize = 0;
            while c < self.cols
                invariant
                    self.well_formed(),
                    r < self.rows,
                    c <= self.cols,
                    line@.len() == c,
                    forall|j: int|
                        0 <= j < c ==> line@[j] == symbol_of(
                            self.firewall@[r * self.cols + j].state,
                        ),
                decreases self.cols - c,
            {
                proof {
                    assert(r * self.cols + c < self.rows * self.cols) by (nonlinear_arith)
                        requires
                            r < self.rows,
                            c < self.cols,
                    ;
                }
                line.push(self.firewall[r * self.cols + c].state.symbol());
                c += 1;
            }
            rows.push(line);
            r += 1;
        }
        rows
    }

    /// Number of compromised nodes.
    pub fn compromised_nodes(&self) -> (r: usize)
        ensures
            r == self.spec_compromised(),
    {
        count_nodes(&self.firewall, NodeState::Compromised)
    }

    /// A scan with the draws given: `pick` chooses the hint (0 digit sum,
    /// 1 one digit, 2 compromised count) and `pos` the digit. Without 8
    /// energy nothing happens; otherwise 8 energy is paid and the hint comes
    /// back, marked refined when it repeats `last_hint`.
    pub fn scan_with(&self, player: &mut Player, last_hint: Option<&ScanHint>, pick: u32, pos: u32) -> (r:
        Option<ScanHint>)
        requires
            self.well_formed(),
            pick < 3,
            pos < 4,
        ensures
            old(player).energy < scan_cost() ==> r is None && *final(player) == *old(player),
            old(player).energy >= scan_cost() ==> {
                &&& r == Some(self.expected_hint(copied(last_hint), pick, pos))
                &&& with_energy(*old(player), *final(player), old(player).energy - scan_cost())
            },
    {
        if player.energy < 8 {
            return None;
        }
        player.energy = player.energy - 8;
        let kind = if pick == 0 {
            let mut sum: u8 = 0;
            let mut i: usize = 0;
            while i < 4
                invariant
                    i <= 4,
                    self.well_formed(),
                    sum == digits_sum_upto(self.code_digits@, i as int),
                    sum <= 9 * i,
                decreases 4 - i,
            {
                sum = sum + self.code_digits[i];
                i += 1;
            }
            HintKind::DigitSum(sum)
        } else if pick == 1 {
            HintKind::Digit(pos as usize, self.code_digits[pos as usize])
        } else {
            HintKind::Compromised(self.compromised_nodes())
        };
        let hint = ScanHint { kind, refined: false };
        match last_hint {
            Some(prev) => {
                if *prev == hint {
                    return Some(ScanHint { kind, refined: true });
                }
            },
            None => {},
        }
        Some(hint)
    }

    /// Pays 8 energy, if the player has it, for a hint chosen uniformly among
    /// the three kinds; see `scan_with`.
    pub fn scan(&self, player: &mut Player, last_hint: Option<&ScanHint>) -> (r: Option<ScanHint>)
        requires
            self.well_formed(),
        ensures
            old(player).energy < scan_cost() ==> r is None && *final(player) == *old(player),
            old(player).energy >= scan_cost() ==> {
                &&& exists|pick: u32, pos: u32|
                    pick < 3 && pos < 4 && r == Some(
                        self.expected_hint(copied(last_hint), pick, pos),
                    )
                &&& with_energy(*old(player), *final(player), old(player).energy - scan_cost())
            },
    {
        let pick = random_in(0, 3);
        let pos = random_in(0, 4);
        self.scan_with(player, last_hint, pick, pos)
    }

    /// The brute-force success threshold for the current grid.
    pub fn brute_force_threshold(&self) -> (r: i32)
        ensures
            r == brute_force_threshold(self.difficulty, self.spec_compromised()),
    {
        let compromised = self.compromised_nodes();
        let base: i32 = match self.difficulty {
            Difficulty::Easy => 30,
            Difficulty::Normal => 18,
            Difficulty::Hard => 8,
        };
        let extra: i32 = if compromised > 18 {
            90
        } else {
            compromised as i32 * 5
        };
        clamp_generic(base + extra, 0i32, 90i32)
    }

    /// A brute force with the roll given: without 30 energy nothing happens;
    /// otherwise 30 energy is paid, the counter goes up, and the code is
    /// cracked when `roll` is below the threshold.
    pub fn brute_force_with(&self, player: &mut Player, roll: u32) -> (r: bool)
        requires
            old(player).brute_force_used < u8::MAX,
        ensures
            old(player).energy < brute_force_cost() ==> !r && *final(player) == *old(player),
            old(player).energy >= brute_force_cost() ==> {
                &&& r == (roll < brute_force_threshold(self.difficulty, self.spec_compromised()))
                &&& final(player).energy == old(player).energy - brute_force_cost()
                &&& final(player).brute_force_used == old(player).brute_force_used + 1
                &&& final(player).hacks_done == old(player).hacks_done
                &&& final(player).name == old(player).name
                &&& final(player).inventory == old(player).inventory
            },
    {
        if player.energy < 30 {
            return false;
        }
        player.energy = player.energy - 30;
        player.brute_force_used = player.brute_force_used + 1;
        let threshold = self.brute_force_threshold();
        roll < threshold as u32
    }

    /// Pays 30 energy, if the player has it, for a roll in `[0, 100)` against
    /// the brute-force threshold; see `brute_force_with`.
    pub fn brute_force(&mut self, player: &mut Player) -> (r: bool)
        requires
            old(player).brute_force_used < u8::MAX,
        ensures
            *final(self) == *old(self),
            old(player).energy < brute_force_cost() ==> !r && *final(player) == *old(player),
            old(player).energy >= brute_force_cost() ==> {
                &&& r ==> brute_force_threshold(old(self).difficulty, old(self).spec_compromised()) > 0
                &&& final(player).energy == old(player).energy - brute_force_cost()
                &&& final(player).brute_force_used == old(player).brute_force_used + 1
                &&& final(player).hacks_done == old(player).hacks_done
                &&& final(player).name == old(player).name
                &&& final(player).inventory == old(player).inventory
            },
    {
        let roll = random_in(0, 100);
        self.brute_force_with(player, roll)
    }

    /// Whether at least `threshold_percent` percent of the nodes, rounded
    /// down, are compromised.
    pub fn victory_ratio_met(&self, threshold_percent: usize) -> (r: bool)
        requires
            self.well_formed(),
            self.firewall@.len() > 0,
        ensures
            r == self.ratio_met(threshold_percent as int),
    {
        let cmp = self.compromised_nodes();
        let total = self.firewall.len();
        proof {
            lemma_count_state_bounded(self.firewall@, NodeState::Compromised);
        }
        cmp * 100 / total >= threshold_percent
    }

    /// Whether at least 30 percent of the nodes are compromised.
    pub fn check_victory(&self) -> (r: bool)
        requires
            self.well_formed(),
            self.firewall@.len() > 0,
        ensures
            r == self.ratio_met(30),
    {
        self.victory_ratio_met(30)
    }

    /// Takes half the number of exploded nodes, rounded down, off the lock
    /// timer, and returns that penalty.
    pub fn apply_explosion_penalty(&mut self) -> (penalty: i32)
        requires
            old(self).firewall@.len() <= i32::MAX,
            old(self).lock_timer - old(self).firewall@.len() / 2 >= i32::MIN,
        ensures
            penalty == old(self).spec_exploded() / 2,
            penalty <= old(self).firewall@.len() / 2,
            final(self).lock_timer == old(self).lock_timer - penalty,
            final(self).firewall == old(self).firewall,
            final(self).code_digits == old(self).code_digits,
            final(self).difficulty == old(self).difficulty,
            final(self).honeypot_active == old(self).honeypot_active,
            final(self).rows == old(self).rows,
            final(self).cols == old(self).cols,
    {
        let exploded_count = count_nodes(&self.firewall, NodeState::Exploded);
        proof {
            lemma_count_state_bounded(self.firewall@, NodeState::Exploded);
        }
        let penalty: i32 = exploded_count as i32 / 2;
        self.lock_timer = self.lock_timer - penalty;
        penalty
    }

    /// One turn's regeneration with the roll given: a player carrying a
    /// battery pack gets 8 energy when `roll` is below 7; then energy is
    /// capped at 150.
    pub fn battery_regen_with(&self, player: &mut Player, roll: u32) -> (restored: bool)
        ensures
            restored == (has_battery(old(player).inventory@) && roll < 7),
            with_energy(*old(player), *final(player), regen_energy(old(player).energy as int, restored)),
            final(player).energy <= 150,
    {
        let restored = carries_battery(&player.inventory) && roll < 7;
        if restored {
            if player.energy > 142 {
                player.energy = 150;
            } else {
                player.energy = player.energy + 8;
            }
        }
        if player.energy > 150 {
            player.energy = 150;
        }
        restored
    }

    /// One turn's regeneration: with a battery pack, 8 energy at a 7 percent
    /// chance; energy never stays above 150.
    pub fn battery_regen(&self, player: &mut Player) -> (restored: bool)
        ensures
            restored ==> has_battery(old(player).inventory@),
            with_energy(*old(player), *final(player), regen_energy(old(player).energy as int, restored)),
            final(player).energy <= 150,
    {
        let roll = random_in(0, 100);
        self.battery_regen_with(player, roll)
    }
}

/// No node is counted in a state that none of them is in.
pub proof fn lemma_count_absent(nodes: Seq<FirewallNode>, s: NodeState)
    requires
        forall|i: int| 0 <= i < nodes.len() ==> (#[trigger] nodes[i]).state != s,
    ensures
        count_state(nodes, s) == 0,
    decreases nodes.len(),
{
    if nodes.len() > 0 {
        assert forall|i: int| 0 <= i < nodes.drop_last().len() implies (#[trigger] nodes.drop_last()[i]).state != s by {
            assert(nodes.drop_last()[i] == nodes[i]);
        }
        lemma_count_absent(nodes.drop_last(), s);
    }
}

proof fn lemma_count_state_bounded(nodes: Seq<FirewallNode>, s: NodeState)
    ensures
        count_state(nodes, s) <= nodes.len(),
    decreases nodes.len(),
{
    if nodes.len() > 0 {
        lemma_count_state_bounded(nodes.drop_last(), s);
    }
}

/// Whether `inventory` holds a battery pack.
fn carries_battery(inventory: &Vec<String>) -> (r: bool)
    ensures
        r == has_battery(inventory@),
{
    let battery = "Battery pack".to_owned();
    let mut i: usize = 0;
    while i < inventory.len()
        invariant
            i <= inventory@.len(),
            battery@ == battery_item(),
            forall|j: int| 0 <= j < i ==> inventory@[j]@ != battery_item(),
        decreases inventory@.len() - i,
    {
        if inventory[i] == battery {
            return true;
        }
        i += 1;
    }
    false
}

/// Number of nodes of `nodes` in state `s`.
fn count_nodes(nodes: &Vec<FirewallNode>, s: NodeState) -> (r: usize)
    ensures
        r == count_state(nodes@, s),
{
    let mut count: usize = 0;
    let mut i: usize = 0;
    while i < nodes.len()
        invariant
            i <= nodes@.len(),
            count == count_state(nodes@.take(i as int), s),
            count <= i,
        decreases nodes@.len() - i,
    {
        assert(nodes@.take(i as int + 1).drop_last() =~= nodes@.take(i as int));
        if nodes[i].state == s {
            count += 1;
        }
        i += 1;
    }
    assert(nodes@.take(nodes@.len() as int) =~= nodes@);
    count
}

} // verus!

use super::Difficulty;
use crate::player::Player;
use crate::random::random_in;
use crate::utils::{clamp_generic, clamp_of};
use vstd::prelude::*;

verus! {

/// Where a node stands. `Compromised` and `Exploded` are final.
#[derive(Debug, Clone, Copy, PartialEq, Eq, Structural)]
pub enum NodeState {
    Secure,
    Vulnerable,
    Compromised,
    Exploded,
}

/// The map symbol: `.` secure, `V` vulnerable, `C` compromised, `X` exploded.
pub open spec fn symbol_of(s: NodeState) -> char {
    match s {
        NodeState::Secure => '.',
        NodeState::Vulnerable => 'V',
        NodeState::Compromised => 'C',
        NodeState::Exploded => 'X',
    }
}

impl NodeState {
    /// The symbol that shows this state on the map.
    pub fn symbol(&self) -> (r: char)
        ensures
            r == symbol_of(*self),
    {
        match *self {
            NodeState::Secure => '.',
            NodeState::Vulnerable => 'V',
            NodeState::Compromised => 'C',
            NodeState::Exploded => 'X',
        }
    }
}

/// One cell of the firewall grid.
#[derive(Debug, Clone, Copy)]
pub struct FirewallNode {
    pub coord: (usize, usize),
    pub state: NodeState,
    pub difficulty: u8,
}

/// What one hack attempt did, for display.
#[derive(Debug, Clone, Copy, PartialEq, Eq, Structural)]
pub enum HackEvent {
    /// The node was already compromised: success, at no cost.
    AlreadyCompromised,
    /// The node had exploded: failure, at no cost.
    AlreadyExploded,
    /// The player could not pay `cost`: failure, at no cost.
    NotEnoughEnergy { cost: i32 },
    /// `cost` was paid and `roll` was drawn against `threshold`; on a miss the
    /// node may have exploded.
    Attempted { cost: i32, roll: u32, threshold: u32, success: bool, exploded: bool },
}

impl HackEvent {
    pub open spec fn spec_succeeded(&self) -> bool {
        match *self {
            HackEvent::AlreadyCompromised => true,
            HackEvent::Attempted { success, .. } => success,
            _ => false,
        }
    }

    /// Whether the node ended up compromised by this attempt or before it.
    pub fn succeeded(&self) -> (r: bool)
        ensures
            r == self.spec_succeeded(),
    {
        match *self {
            HackEvent::AlreadyCompromised => true,
            HackEvent::Attempted { success, .. } => success,
            _ => false,
        }
    }
}

/// Percentage of nodes generated vulnerable.
pub open spec fn vulnerable_percent(difficulty: Difficulty) -> u32 {
    match difficulty {
        Difficulty::Easy => 45,
        Difficulty::Normal => 30,
        Difficulty::Hard => 15,
    }
}

/// Node difficulties are drawn from `[low, high)`.
pub open spec fn node_difficulty_range(difficulty: Difficulty) -> (u32, u32) {
    match difficulty {
        Difficulty::Easy => (5, 30),
        Difficulty::Normal => (20, 60),
        Difficulty::Hard => (40, 95),
    }
}

/// Energy that a hack on a node of this difficulty costs.
pub open spec fn hack_cost(difficulty: u8) -> int {
    difficulty / 10 + 5
}

/// A hack succeeds when the roll is below this: a base by state, half the
/// player's remaining energy up to 50, and a fifth of the node's ease.
pub open spec fn hack_threshold(state: NodeState, difficulty: u8, energy: int) -> int {
    (if state == NodeState::Vulnerable {
        50int
    } else {
        20int
    }) + clamp_of(energy, 0, 50) / 2 + (100 - difficulty) / 5
}

/// A failed hack explodes the node when the second roll is above this.
pub open spec fn explode_above() -> u32 {
    85
}

/// The player after paying `cost` for one hack.
pub open spec fn paid_for_hack(before: Player, after: Player, cost: int) -> bool {
    &&& after.energy == before.energy - cost
    &&& after.hacks_done == before.hacks_done + 1
    &&& after.name == before.name
    &&& after.brute_force_used == before.brute_force_used
    &&& after.inventory == before.inventory
}

/// The full effect of one hack on `node_before` by `before`, with `roll` and `explode_roll`
/// as the two draws: `e` is reported and `after`, `node_after` are what is left.
pub open spec fn hack_effect(
    before: Player,
    node_before: FirewallNode,
    roll: u32,
    explode_roll: u32,
    after: Player,
    node_after: FirewallNode,
    e: HackEvent,
) -> bool {
    let cost = hack_cost(node_before.difficulty);
    let threshold = hack_threshold(node_before.state, node_before.difficulty, before.energy - cost);
    if node_before.state == NodeState::Compromised {
        e == HackEvent::AlreadyCompromised && after == before && node_after == node_before
    } else if node_before.state == NodeState::Exploded {
        e == HackEvent::AlreadyExploded && after == before && node_after == node_before
    } else if before.energy < cost {
        e == (HackEvent::NotEnoughEnergy { cost: cost as i32 }) && after == before && node_after == node_before
    } else {
        let success = roll < threshold;
        let exploded = !success && explode_roll > explode_above();
        &&& paid_for_hack(before, after, cost)
        &&& e == (HackEvent::Attempted {
            cost: cost as i32,
            roll,
            threshold: threshold as u32,
            success,
            exploded,
        })
        &&& node_after.coord == node_before.coord
        &&& node_after.difficulty == node_before.difficulty
        &&& node_after.state == (if success {
            NodeState::Compromised
        } else if exploded {
            NodeState::Exploded
        } else {
            node_before.state
        })
    }
}

/// Node `i` of a row-major grid with `cols` columns, not yet hacked, with a
/// difficulty in `[low, high)`.
pub open spec fn fresh_cell(node: FirewallNode, i: int, cols: int, low: int, high: int) -> bool {
    &&& node.coord.0 == i / cols
    &&& node.coord.1 == i % cols
    &&& node.state == NodeState::Secure || node.state == NodeState::Vulnerable
    &&& low <= node.difficulty < high
}

/// Every node of `nodes` is a fresh cell at its own index.
pub open spec fn grid_cells(nodes: Seq<FirewallNode>, cols: int, low: int, high: int) -> bool {
    forall|i: int| 0 <= i < nodes.len() ==> #[trigger] fresh_cell(nodes[i], i, cols, low, high)
}

/// State of a newly generated node, from a roll in `[0, 100)`.
pub fn initial_state(difficulty: Difficulty, chance: u32) -> (r: NodeState)
    ensures
        r == (if chance < vulnerable_percent(difficulty) {
            NodeState::Vulnerable
        } else {
            NodeState::Secure
        }),
{
    let percent: u32 = match difficulty {
        Difficulty::Easy => 45,
        Difficulty::Normal => 30,
        Difficulty::Hard => 15,
    };
    if chance < percent {
        NodeState::Vulnerable
    } else {
        NodeState::Secure
    }
}

/// A `rows` by `cols` grid in row-major order. Each node is vulnerable with
/// the difficulty's percentage and otherwise secure, and its difficulty is
/// drawn from the difficulty's range.
pub fn create_firewall_grid(rows: usize, cols: usize, difficulty: Difficulty) -> (nodes: Vec<
    FirewallNode,
>)
    requires
        rows * cols <= usize::MAX,
    ensures
        nodes@.len() == rows * cols,
        grid_cells(
            nodes@,
            cols as int,
            node_difficulty_range(difficulty).0 as int,
            node_difficulty_range(difficulty).1 as int,
        ),
{
    let mut nodes: Vec<FirewallNode> = Vec::new();
    let (low, high): (u32, u32) = match difficulty {
        Difficulty::Easy => (5, 30),
        Difficulty::Normal => (20, 60),
        Difficulty::Hard => (40, 95),
    };
    let mut r: usize = 0;
    while r < rows
        invariant
            r <= rows,
            rows * cols <= usize::MAX,
            nodes@.len() == r * cols,
            (low, high) == node_difficulty_range(difficulty),
            grid_cells(nodes@, cols as int, low as int, high as int),
        decreases rows - r,
    {
        let mut c: usize = 0;
        while c < cols
            invariant
                r < rows,
                c <= cols,
                rows * cols <= usize::MAX,
                nodes@.len() == r * cols + c,
                (low, high) == node_difficulty_range(difficulty),
                grid_cells(nodes@, cols as int, low as int, high as int),
            decreases cols - c,
        {
            proof {
                assert((r + 1) * cols <= rows * cols) by (nonlinear_arith)
                    requires
                        r < rows,
                ;
                assert((r * cols + c) / cols as int == r && (r * cols + c) % cols as int == c)
                    by (nonlinear_arith)
                    requires
                        c < cols,
                ;
            }
            let chance = random_in(0, 100);
            let state = initial_state(difficulty, chance);
            let node_difficulty = random_in(low, high) as u8;
            nodes.push(FirewallNode { coord: (r, c), state, difficulty: node_difficulty });
            c += 1;
        }
        proof {
            assert(r * cols + cols == (r + 1) * cols) by (nonlinear_arith);
        }
        r += 1;
    }
    nodes
}

/// Resolves a hack on `node` with both draws given: `roll` decides success,
/// `explode_roll` decides whether a miss explodes the node.
pub fn resolve_hack(player: &mut Player, node: &mut FirewallNode, roll: u32, explode_roll: u32) -> (e:
    HackEvent)
    requires
        old(node).state == NodeState::Secure || old(node).state == NodeState::Vulnerable ==> old(
            node,
        ).difficulty < 100 && old(player).hacks_done < u32::MAX,
    ensures
        hack_effect(*old(player), *old(node), roll, explode_roll, *final(player), *final(node), e),
{
    match node.state {
        NodeState::Compromised => {
            return HackEvent::AlreadyCompromised;
        },
        NodeState::Exploded => {
            return HackEvent::AlreadyExploded;
        },
        _ => {},
    }
    let cost: i32 = (node.difficulty / 10) as i32 + 5;
    if player.energy < cost {
        return HackEvent::NotEnoughEnergy { cost };
    }
    player.energy = player.energy - cost;
    player.hacks_done = player.hacks_done + 1;
    let base: u32 = if node.state == NodeState::Vulnerable {
        50
    } else {
        20
    };
    let energy_bonus = clamp_generic(player.energy, 0i32, 50i32) as u32;
    let threshold: u32 = base + energy_bonus / 2 + ((100 - node.difficulty) / 5) as u32;
    if roll < threshold {
        node.state = NodeState::Compromised;
        HackEvent::Attempted { cost, roll, threshold, success: true, exploded: false }
    } else {
        let exploded = explode_roll > 85;
        if exploded {
            node.state = NodeState::Exploded;
        }
        HackEvent::Attempted { cost, roll, threshold, success: false, exploded }
    }
}

/// Hacks `node`: a compromised node reports success and an exploded one
/// failure, both at no cost; otherwise the cost is paid if it can be and the
/// attempt is resolved with two fresh rolls in `[0, 100)`.
pub fn attempt_hack_node(player: &mut Player, node: &mut FirewallNode) -> (e: HackEvent)
    requires
        old(node).state == NodeState::Secure || old(node).state == NodeState::Vulnerable ==> old(
            node,
        ).difficulty < 100 && old(player).hacks_done < u32::MAX,
    ensures
        exists|roll: u32, explode_roll: u32|
            roll < 100 && explode_roll < 100 && hack_effect(
                *old(player),
                *old(node),
                roll,
                explode_roll,
                *final(player),
                *final(node),
                e,
            ),
        old(node).state == NodeState::Compromised ==> e.spec_succeeded() && *final(player)
            == *old(player) && *final(node) == *old(node),
        old(node).state == NodeState::Exploded ==> !e.spec_succeeded() && *final(player)
            == *old(player) && *final(node) == *old(node),
{
    let roll = random_in(0, 100);
    let explode_roll = random_in(0, 100);
    resolve_hack(player, node, roll, explode_roll)
}

} // verus!

use crate::security::Difficulty;
use vstd::prelude::*;

verus! {

/// The operator: energy that pays for actions, two informational counters,
/// and the items carried.
#[derive(Debug)]
pub struct Player {
    pub name: String,
    pub energy: i32,
    pub hacks_done: u32,
    pub brute_force_used: u8,
    pub inventory: Vec<String>,
}

/// Energy at the start of a session.
pub open spec fn starting_energy(difficulty: Difficulty) -> i32 {
    match difficulty {
        Difficulty::Easy => 120,
        Difficulty::Normal => 100,
        Difficulty::Hard => 80,
    }
}

impl Player {
    /// A fresh player carrying one "USB exploit".
    pub fn new(name: &str, difficulty: Difficulty) -> (p: Player)
        ensures
            p.name@ == name@,
            p.energy == starting_energy(difficulty),
            p.hacks_done == 0,
            p.brute_force_used == 0,
            p.inventory@.len() == 1,
            p.inventory@[0]@ == "USB exploit"@,
    {
        let energy: i32 = match difficulty {
            Difficulty::Easy => 120,
            Difficulty::Normal => 100,
            Difficulty::Hard => 80,
        };
        let item = "USB exploit".to_owned();
        let mut inventory: Vec<String> = Vec::new();
        inventory.push(item);
        Player { name: name.to_owned(), energy, hacks_done: 0, brute_force_used: 0, inventory }
    }
}

} // verus!

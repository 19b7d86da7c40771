//! The recorder process that follows one game: which in-game events become
//! markers of the recording, and how the game's result is found.

use vstd::prelude::*;

verus! {

/// The kinds of dragons the in-game API reports.
#[derive(Debug, Clone, Copy, PartialEq, Eq, Structural)]
pub enum DragonKind {
    Infernal,
    Ocean,
    Mountain,
    Cloud,
    Hextech,
    Chemtech,
    Elder,
}

/// Who killed a champion.
pub enum Killer {
    /// A summoner, by name.
    Summoner(String),
    /// A turret, minion or monster.
    Other,
}

/// An event of the in-game API.
pub enum IngameEvent {
    BaronKill,
    ChampionKill { killer: Killer, victim_name: String, assisters: Vec<String> },
    DragonKill { dragon: DragonKind },
    GameEnd { win: bool },
    HeraldKill,
    InhibKilled,
    TurretKilled,
    Other,
}

/// The marker name of a dragon kill.
pub open spec fn dragon_marker(d: DragonKind) -> Seq<char> {
    match d {
        DragonKind::Infernal => "InfernalDragon"@,
        DragonKind::Ocean => "OceanDragon"@,
        DragonKind::Mountain => "MountainDragon"@,
        DragonKind::Cloud => "CloudDragon"@,
        DragonKind::Hextech => "HextechDragon"@,
        DragonKind::Chemtech => "ChemtechDragon"@,
        DragonKind::Elder => "ElderDragon"@,
    }
}

/// The marker an event gives in a recording of `summoner`'s game: a kill
/// by the summoner, else the summoner's death, else an assist of the
/// summoner; every objective; nothing for other events.
pub open spec fn marker_of(e: IngameEvent, summoner: Seq<char>) -> Option<Seq<char>> {
    match e {
        IngameEvent::BaronKill => Some("Baron"@),
        IngameEvent::ChampionKill { killer, victim_name, assisters } => {
            if killer matches Killer::Summoner(k) && k@ == summoner {
                Some("Kill"@)
            } else if victim_name@ == summoner {
                Some("Death"@)
            } else if exists|i: int| 0 <= i < assisters@.len() && #[trigger] assisters@[i]@ == summoner {
                Some("Assist"@)
            } else {
                None
            }
        },
        IngameEvent::DragonKill { dragon } => Some(dragon_marker(dragon)),
        IngameEvent::GameEnd { .. } => None,
        IngameEvent::HeraldKill => Some("Herald"@),
        IngameEvent::InhibKilled => Some("Inhibitor"@),
        IngameEvent::TurretKilled => Some("Turret"@),
        IngameEvent::Other => None,
    }
}

fn contains_name(names: &Vec<String>, name: &str) -> (r: bool)
    ensures
        r == exists|i: int| 0 <= i < names@.len() && #[trigger] names@[i]@ == name@,
{
    let mut i: usize = 0;
    while i < names.len()
        invariant
            i <= names.len(),
            forall|j: int| 0 <= j < i ==> #[trigger] names@[j]@ != name@,
        decreases names.len() - i,
    {
        if crate::text::str_eq(names[i].as_str(), name) {
            return true;
        }
        i = i + 1;
    }
    false
}

/// The marker name an in-game event gives in a recording of `summoner`'s game.
pub fn marker_name(event: &IngameEvent, summoner: &str) -> (r: Option<&'static str>)
    ensures
        match r {
            Some(n) => marker_of(*event, summoner@) == Some(n@),
            None => marker_of(*event, summoner@) is None,
        },
{
    match event {
        IngameEvent::BaronKill => Some("Baron"),
        IngameEvent::ChampionKill { killer, victim_name, assisters } => {
            let by_summoner = match killer {
                Killer::Summoner(k) => crate::text::str_eq(k.as_str(), summoner),
                Killer::Other => false,
            };
            if by_summoner {
                Some("Kill")
            } else if crate::text::str_eq(victim_name.as_str(), summoner) {
                Some("Death")
            } else if contains_name(assisters, summoner) {
                Some("Assist")
            } else {
                None
            }
        },
        IngameEvent::DragonKill { dragon } => Some(
            match dragon {
                DragonKind::Infernal => "InfernalDragon",
                DragonKind::Ocean => "OceanDragon",
                DragonKind::Mountain => "MountainDragon",
                DragonKind::Cloud => "CloudDragon",
                DragonKind::Hextech => "HextechDragon",
                DragonKind::Chemtech => "ChemtechDragon",
                DragonKind::Elder => "ElderDragon",
            },
        ),
        IngameEvent::GameEnd { .. } => None,
        IngameEvent::HeraldKill => Some("Herald"),
        IngameEvent::InhibKilled => Some("Inhibitor"),
        IngameEvent::TurretKilled => Some("Turret"),
        IngameEvent::Other => None,
    }
}

/// The game's result after an event: the end of the game tells it, any
/// other event leaves it as it was.
pub fn result_after(win: Option<bool>, event: &IngameEvent) -> (r: Option<bool>)
    ensures
        r == (match event {
            IngameEvent::GameEnd { win: w } => Some(*w),
            _ => win,
        }),
{
    match event {
        IngameEvent::GameEnd { win: w } => Some(*w),
        _ => win,
    }
}

/// The game's result once the end-of-game statistics arrived: a result
/// already known stays; else a "WIN" entry means a win and a "LOSE" entry
/// a loss.
pub fn result_from_end_of_game(win: Option<bool>, has_win_entry: bool, has_lose_entry: bool) -> (r: Option<bool>)
    ensures
        r == (if win is Some {
            win
        } else if has_win_entry {
            Some(true)
        } else if has_lose_entry {
            Some(false)
        } else {
            None::<bool>
        }),
{
    if win.is_some() {
        win
    } else if has_win_entry {
        Some(true)
    } else if has_lose_entry {
        Some(false)
    } else {
        None
    }
}

/// Markers of a champion kill in `summoner`'s recording: a kill by the
/// summoner is a "Kill" marker, whoever died and assisted; else the
/// summoner's death is a "Death" marker; else the kill is an "Assist" marker
/// when the summoner's name stands anywhere among the assisters, and gives no
/// marker when it stands nowhere there.
pub proof fn lemma_champion_kill_markers(killer: Killer, victim_name: String, assisters: Vec<String>, summoner: Seq<char>)
    ensures
        (killer matches Killer::Summoner(k) && k@ == summoner) ==> marker_of(
            IngameEvent::ChampionKill { killer, victim_name, assisters },
            summoner,
        ) == Some("Kill"@),
        !(killer matches Killer::Summoner(k) && k@ == summoner) && victim_name@ == summoner ==> marker_of(
            IngameEvent::ChampionKill { killer, victim_name, assisters },
            summoner,
        ) == Some("Death"@),
        forall|i: int| #![trigger assisters@[i]]
            !(killer matches Killer::Summoner(k) && k@ == summoner) && victim_name@ != summoner
            && 0 <= i < assisters@.len() && assisters@[i]@ == summoner ==> marker_of(
                IngameEvent::ChampionKill { killer, victim_name, assisters },
                summoner,
            ) == Some("Assist"@),
        !(killer matches Killer::Summoner(k) && k@ == summoner) && victim_name@ != summoner
            && (forall|i: int| 0 <= i < assisters@.len() ==> #[trigger] assisters@[i]@ != summoner) ==> marker_of(
            IngameEvent::ChampionKill { killer, victim_name, assisters },
            summoner,
        ) is None,
{
    assert forall|i: int| #![trigger assisters@[i]]
        !(killer matches Killer::Summoner(k) && k@ == summoner) && victim_name@ != summoner
        && 0 <= i < assisters@.len() && assisters@[i]@ == summoner implies marker_of(
            IngameEvent::ChampionKill { killer, victim_name, assisters },
            summoner,
        ) == Some("Assist"@) by {
        let e = IngameEvent::ChampionKill { killer, victim_name, assisters };
        assert(!(e->killer matches Killer::Summoner(k) && k@ == summoner));
        assert(e->assisters@[i]@ == summoner);
        assert(exists|j: int| 0 <= j < e->assisters@.len() && #[trigger] e->assisters@[j]@ == summoner);
        assert(marker_of(e, summoner) == Some("Assist"@));
    }
}

} // verus!

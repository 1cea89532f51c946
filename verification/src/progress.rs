use vstd::prelude::*;
use vstd::string::*;

use crate::game::topdown::TopdownMapIndex;

verus! {

/// Milestones of a playthrough.
#[derive(Debug, Clone, Copy, PartialEq, Eq, Hash, Structural)]
pub enum ProgressFlag {
    Blank,
    CrackOpen,
}

impl ProgressFlag {
    /// The value the flag is hashed as.
    pub fn hash_key(&self) -> (k: usize)
        ensures
            k == (match *self {
                ProgressFlag::Blank => 0usize,
                ProgressFlag::CrackOpen => 1usize,
            }),
    {
        match self {
            ProgressFlag::Blank => 0,
            ProgressFlag::CrackOpen => 1,
        }
    }
}

/// The three save slots.
#[derive(Debug, Clone, Copy, PartialEq, Eq, Structural)]
pub enum SaveSlot {
    SlotA,
    SlotB,
    SlotC,
}

/// Number of save slots.
pub const SAVE_SLOTS: usize = 3;

impl SaveSlot {
    pub open spec fn spec_index(self) -> nat {
        match self {
            SaveSlot::SlotA => 0,
            SaveSlot::SlotB => 1,
            SaveSlot::SlotC => 2,
        }
    }

    /// Position of the slot in the save storage.
    pub fn index(&self) -> (i: usize)
        ensures
            i == self.spec_index(),
            i < SAVE_SLOTS,
    {
        match self {
            SaveSlot::SlotA => 0,
            SaveSlot::SlotB => 1,
            SaveSlot::SlotC => 2,
        }
    }

    /// The name the slot is shown with.
    pub fn to_display_string(&self) -> (s: String)
        ensures
            s@ == (match *self {
                SaveSlot::SlotA => "SlotA"@,
                SaveSlot::SlotB => "SlotB"@,
                SaveSlot::SlotC => "SlotC"@,
            }),
    {
        match self {
            SaveSlot::SlotA => String::from_str("SlotA"),
            SaveSlot::SlotB => String::from_str("SlotB"),
            SaveSlot::SlotC => String::from_str("SlotC"),
        }
    }

    /// The slots, in the order they are shown.
    pub fn all() -> (slots: Vec<SaveSlot>)
        ensures
            slots@ == seq![SaveSlot::SlotA, SaveSlot::SlotB, SaveSlot::SlotC],
    {
        let mut slots: Vec<SaveSlot> = Vec::new();
        slots.push(SaveSlot::SlotA);
        slots.push(SaveSlot::SlotB);
        slots.push(SaveSlot::SlotC);
        slots
    }
}

/// Bit pattern of the x coordinate of the first spawn point, 832.0 as an `f32`.
pub const FIRST_SPAWN_X_BITS: u32 = 0x4450_0000;
/// Bit pattern of the y coordinate of the first spawn point, 1024.0 as an `f32`.
pub const FIRST_SPAWN_Y_BITS: u32 = 0x4480_0000;

/// The plain-value picture of a playthrough.
pub struct ProgressView {
    pub time_played_secs: u64,
    pub time_played_nanos: u32,
    pub flags: Set<ProgressFlag>,
    pub map: TopdownMapIndex,
    pub position_bits: (u32, u32),
}

/// A playthrough: time played, milestones reached, and where the player stands.
#[derive(Debug)]
pub struct Progress {
    /// Whole seconds played.
    pub time_played_secs: u64,
    /// Nanoseconds played beyond the whole seconds.
    pub time_played_nanos: u32,
    flags: Vec<ProgressFlag>,
    /// The map the player is on.
    pub map: TopdownMapIndex,
    /// The player's position on the map, as the bit patterns of its `f32` coordinates.
    pub position_bits: (u32, u32),
}

impl Progress {
    pub closed spec fn view(&self) -> ProgressView {
        ProgressView {
            time_played_secs: self.time_played_secs,
            time_played_nanos: self.time_played_nanos,
            flags: self.flags@.to_set(),
            map: self.map,
            position_bits: self.position_bits,
        }
    }

    /// No flag is stored twice.
    pub closed spec fn wf(&self) -> bool {
        self.flags@.no_duplicates()
    }

    /// The picture of a fresh playthrough.
    pub open spec fn new_view() -> ProgressView {
        ProgressView {
            time_played_secs: 0,
            time_played_nanos: 0,
            flags: Set::<ProgressFlag>::empty(),
            map: TopdownMapIndex::Mountain,
            position_bits: (FIRST_SPAWN_X_BITS, FIRST_SPAWN_Y_BITS),
        }
    }

    /// A fresh playthrough: nothing played, no milestone, on the first map at the first
    /// spawn point.
    pub fn new() -> (p: Progress)
        ensures
            p.wf(),
            p.view() == Progress::new_view(),
    {
        let p = Progress {
            time_played_secs: 0,
            time_played_nanos: 0,
            flags: Vec::new(),
            map: TopdownMapIndex::Mountain,
            position_bits: (FIRST_SPAWN_X_BITS, FIRST_SPAWN_Y_BITS),
        };
        proof {
            assert(p.flags@.to_set() =~= Set::<ProgressFlag>::empty());
        }
        p
    }

    /// Whole seconds played.
    pub fn time_played_secs(&self) -> (s: u64)
        ensures
            s == self.view().time_played_secs,
    {
        self.time_played_secs
    }

    /// Whether the milestone was reached.
    pub fn contains(&self, flag: &ProgressFlag) -> (r: bool)
        ensures
            r == self.view().flags.contains(*flag),
    {
        let mut i: usize = 0;
        while i < self.flags.len()
            invariant
                i <= self.flags@.len(),
                forall|j: int| 0 <= j < i ==> self.flags@[j] != *flag,
            decreases self.flags@.len() - i,
        {
            if self.flags[i] == *flag {
                proof {
                    assert(self.flags@.to_set().contains(self.flags@[i as int]));
                }
                return true;
            }
            i = i + 1;
        }
        proof {
            if self.flags@.to_set().contains(*flag) {
                let k = choose|k: int| 0 <= k < self.flags@.len() && self.flags@[k] == *flag;
                assert(self.flags@[k] == *flag);
            }
        }
        false
    }

    /// Records the milestone; returns whether it was new.
    pub fn insert(&mut self, flag: ProgressFlag) -> (added: bool)
        requires
            old(self).wf(),
        ensures
            final(self).wf(),
            added == !old(self).view().flags.contains(flag),
            final(self).view() == (ProgressView { flags: old(self).view().flags.insert(flag), ..old(self).view() }),
    {
        if self.contains(&flag) {
            proof {
                assert(self.flags@.to_set().insert(flag) =~= self.flags@.to_set());
            }
            false
        } else {
            let ghost before = self.flags@;
            self.flags.push(flag);
            proof {
                assert(self.flags@ == before.push(flag));
                assert forall|x: ProgressFlag| self.flags@.to_set().contains(x) <==> before.to_set().insert(flag).contains(x) by {
                    if self.flags@.to_set().contains(x) {
                        let k = choose|k: int| 0 <= k < self.flags@.len() && self.flags@[k] == x;
                        if k < before.len() {
                            assert(before[k] == x);
                        }
                    }
                    if before.to_set().contains(x) {
                        let k = choose|k: int| 0 <= k < before.len() && before[k] == x;
                        assert(self.flags@[k] == x);
                    }
                    if x == flag {
                        assert(self.flags@[before.len() as int] == x);
                    }
                }
                assert(self.flags@.to_set() =~= before.to_set().insert(flag));
                assert forall|a: int, b: int| 0 <= a < b < self.flags@.len() implies self.flags@[a] != self.flags@[b] by {
                    if b == before.len() {
                        assert(before.to_set().contains(before[a]));
                    }
                }
            }
            true
        }
    }

    /// A copy of the playthrough.
    pub fn duplicate(&self) -> (c: Progress)
        requires
            self.wf(),
        ensures
            c.wf(),
            c.view() == self.view(),
    {
        let mut flags: Vec<ProgressFlag> = Vec::new();
        let mut i: usize = 0;
        while i < self.flags.len()
            invariant
                i <= self.flags@.len(),
                flags@ == self.flags@.take(i as int),
            decreases self.flags@.len() - i,
        {
            flags.push(self.flags[i]);
            proof {
                assert(self.flags@.take(i + 1) =~= self.flags@.take(i as int).push(self.flags@[i as int]));
            }
            i = i + 1;
        }
        proof {
            assert(self.flags@.take(i as int) =~= self.flags@);
        }
        Progress {
            time_played_secs: self.time_played_secs,
            time_played_nanos: self.time_played_nanos,
            flags,
            map: self.map,
            position_bits: self.position_bits,
        }
    }
}

/// Whether the playthrough reached the milestone (the run condition of the same name).
pub fn has_progress_flag(progress: &Progress, flag: ProgressFlag) -> (r: bool)
    ensures
        r == progress.view().flags.contains(flag),
{
    progress.contains(&flag)
}

/// The saved playthroughs, one per save slot.
#[derive(Debug)]
pub struct ProgressStorage {
    slots: Vec<Option<Progress>>,
}

/// The plain-value picture of a slot.
pub open spec fn slot_view(s: Option<Progress>) -> Option<ProgressView> {
    match s {
        Some(p) => Some(p.view()),
        None => None,
    }
}

impl ProgressStorage {
    /// What each save slot holds.
    pub closed spec fn view(&self) -> Seq<Option<ProgressView>> {
        self.slots@.map_values(|s: Option<Progress>| slot_view(s))
    }

    /// One entry per save slot, each a well-formed playthrough.
    pub closed spec fn wf(&self) -> bool {
        &&& self.slots@.len() == SAVE_SLOTS
        &&& forall|i: int| 0 <= i < SAVE_SLOTS ==> (#[trigger] self.slots@[i] matches Some(p) ==> p.wf())
    }

    /// A well-formed storage has one entry per save slot.
    pub proof fn lemma_one_entry_per_slot(&self)
        requires
            self.wf(),
        ensures
            self.view().len() == SAVE_SLOTS,
    {
    }

    /// Empty save slots.
    pub fn new() -> (s: ProgressStorage)
        ensures
            s.wf(),
            s.view() == seq![None::<ProgressView>, None, None],
    {
        let mut slots: Vec<Option<Progress>> = Vec::new();
        slots.push(None);
        slots.push(None);
        slots.push(None);
        let s = ProgressStorage { slots };
        proof {
            assert(s.view() =~= seq![None::<ProgressView>, None, None]);
        }
        s
    }

    /// The playthrough saved in `slot`, if any.
    pub fn get_slot(&self, slot: SaveSlot) -> (p: Option<&Progress>)
        requires
            self.wf(),
        ensures
            self.view().len() == SAVE_SLOTS,
            slot_view(match p { Some(x) => Some(*x), None => None }) == self.view()[slot.spec_index() as int],
            p matches Some(x) ==> x.wf(),
    {
        let i = slot.index();
        match &self.slots[i] {
            Some(p) => Some(p),
            None => None,
        }
    }
}

/// Saves the current playthrough into its slot; the other slots keep what they hold.
pub fn save_progress_to_disk(save_slot: SaveSlot, progress: &Progress, storage: &mut ProgressStorage)
    requires
        old(storage).wf(),
        progress.wf(),
    ensures
        final(storage).wf(),
        old(storage).view().len() == SAVE_SLOTS,
        final(storage).view().len() == SAVE_SLOTS,
        final(storage).view() == old(storage).view().update(save_slot.spec_index() as int, Some(progress.view())),
        final(storage).view()[save_slot.spec_index() as int] == Some(progress.view()),
        forall|other: SaveSlot| other != save_slot ==> final(storage).view()[other.spec_index() as int]
            == old(storage).view()[other.spec_index() as int],
{
    let i = save_slot.index();
    let copy = progress.duplicate();
    storage.slots.set(i, Some(copy));
    proof {
        assert(storage.view() =~= old(storage).view().update(i as int, Some(progress.view())));
    }
}

/// What a slot gives back is what was last saved into it; saving into one slot leaves the
/// others as they were.
pub proof fn lemma_save_then_load(before: Seq<Option<ProgressView>>, slot: SaveSlot, other: SaveSlot, saved: ProgressView)
    requires
        before.len() == SAVE_SLOTS,
    ensures
        before.update(slot.spec_index() as int, Some(saved))[slot.spec_index() as int] == Some(saved),
        other != slot ==> before.update(slot.spec_index() as int, Some(saved))[other.spec_index() as int]
            == before[other.spec_index() as int],
{
}

} // verus!

//! The ledger: one player record per identity.
//!
//! Records are created and replaced, never removed. The ledger is seen as a
//! map from an identity, the characters of its name, to the player's record.

use vstd::prelude::*;
use vstd::string::StringExecFns;

use crate::player::{Player, PlayerState};

verus! {

struct Entry {
    id: String,
    player: Player,
}

/// The records of all players, by identity.
pub struct PlayerLedger {
    entries: Vec<Entry>,
}

/// The map that a row of entries stands for.
spec fn entries_map(entries: Seq<Entry>) -> Map<Seq<char>, PlayerState>
    decreases entries.len(),
{
    if entries.len() == 0 {
        Map::empty()
    } else {
        entries_map(entries.drop_last()).insert(entries.last().id@, entries.last().player@)
    }
}

/// No identity stands in two entries.
spec fn distinct_ids(entries: Seq<Entry>) -> bool {
    forall|i: int, j: int|
        0 <= i < j < entries.len() ==> (#[trigger] entries[i]).id@ != (#[trigger] entries[j]).id@
}

proof fn lemma_entry_is_mapped(entries: Seq<Entry>, i: int)
    requires
        distinct_ids(entries),
        0 <= i < entries.len(),
    ensures
        entries_map(entries).contains_key(entries[i].id@),
        entries_map(entries)[entries[i].id@] == entries[i].player@,
    decreases entries.len(),
{
    if i < entries.len() - 1 {
        let front = entries.drop_last();
        assert(front[i] == entries[i]);
        assert(distinct_ids(front)) by {
            assert forall|a: int, b: int| 0 <= a < b < front.len() implies (#[trigger] front[a]).id@
                != (#[trigger] front[b]).id@ by {
                assert(front[a] == entries[a]);
                assert(front[b] == entries[b]);
            }
        }
        lemma_entry_is_mapped(front, i);
        assert(entries[i].id@ != entries[entries.len() - 1].id@);
    }
}

proof fn lemma_unlisted_is_unmapped(entries: Seq<Entry>, id: Seq<char>)
    requires
        forall|i: int| 0 <= i < entries.len() ==> (#[trigger] entries[i]).id@ != id,
    ensures
        !entries_map(entries).contains_key(id),
    decreases entries.len(),
{
    if entries.len() > 0 {
        let front = entries.drop_last();
        assert forall|i: int| 0 <= i < front.len() implies (#[trigger] front[i]).id@ != id by {
            assert(front[i] == entries[i]);
        }
        lemma_unlisted_is_unmapped(front, id);
        assert(entries[entries.len() - 1].id@ != id);
    }
}

proof fn lemma_replaced_entry(entries: Seq<Entry>, i: int, entry: Entry)
    requires
        distinct_ids(entries),
        0 <= i < entries.len(),
        entry.id@ == entries[i].id@,
    ensures
        distinct_ids(entries.update(i, entry)),
        entries_map(entries.update(i, entry)) == entries_map(entries).insert(
            entry.id@,
            entry.player@,
        ),
    decreases entries.len(),
{
    let replaced = entries.update(i, entry);
    assert(distinct_ids(replaced)) by {
        assert forall|a: int, b: int| 0 <= a < b < replaced.len() implies (
        #[trigger] replaced[a]).id@ != (#[trigger] replaced[b]).id@ by {
            assert(replaced[a].id@ == entries[a].id@);
            assert(replaced[b].id@ == entries[b].id@);
        }
    }
    let front = entries.drop_last();
    let last = entries.last();
    if i == entries.len() - 1 {
        assert(replaced.drop_last() =~= front);
        assert(entries_map(replaced) =~= entries_map(entries).insert(entry.id@, entry.player@));
    } else {
        assert(front[i] == entries[i]);
        assert(distinct_ids(front)) by {
            assert forall|a: int, b: int| 0 <= a < b < front.len() implies (#[trigger] front[a]).id@
                != (#[trigger] front[b]).id@ by {
                assert(front[a] == entries[a]);
                assert(front[b] == entries[b]);
            }
        }
        lemma_replaced_entry(front, i, entry);
        assert(replaced.drop_last() =~= front.update(i, entry));
        assert(replaced.last() == last);
        assert(entries[i].id@ != entries[entries.len() - 1].id@);
        assert(entries_map(replaced) =~= entries_map(entries).insert(entry.id@, entry.player@));
    }
}

impl View for PlayerLedger {
    type V = Map<Seq<char>, PlayerState>;

    closed spec fn view(&self) -> Map<Seq<char>, PlayerState> {
        entries_map(self.entries@)
    }
}

impl PlayerLedger {
    /// No identity is stored twice.
    pub closed spec fn unique(&self) -> bool {
        distinct_ids(self.entries@)
    }

    /// The ledger is well formed: no identity is stored twice, and every
    /// record is a well-formed player that fits its stored fields.
    pub open spec fn wf(&self) -> bool {
        &&& self.unique()
        &&& forall|id: Seq<char>| #[trigger]
            self@.contains_key(id) ==> self@[id].wf() && self@[id].fits()
    }

    /// A ledger without records.
    pub fn new() -> (ledger: PlayerLedger)
        ensures
            ledger@ == Map::<Seq<char>, PlayerState>::empty(),
            ledger.wf(),
    {
        PlayerLedger { entries: Vec::new() }
    }

    fn position(&self, key: &String) -> (found: Option<usize>)
        requires
            self.unique(),
        ensures
            match found {
                Some(i) => i < self.entries@.len() && self.entries@[i as int].id@ == key@
                    && self@.contains_key(key@) && self@[key@] == self.entries@[i as int].player@,
                None => !self@.contains_key(key@),
            },
    {
        let mut i: usize = 0;
        while i < self.entries.len()
            invariant
                i <= self.entries@.len(),
                self.unique(),
                forall|j: int| 0 <= j < i ==> (#[trigger] self.entries@[j]).id@ != key@,
            decreases self.entries@.len() - i,
        {
            if self.entries[i].id == *key {
                proof {
                    lemma_entry_is_mapped(self.entries@, i as int);
                }
                return Some(i);
            }
            i = i + 1;
        }
        proof {
            lemma_unlisted_is_unmapped(self.entries@, key@);
        }
        None
    }

    /// The record stored for `id`, if there is one.
    pub fn get(&self, id: &str) -> (found: Option<Player>)
        requires
            self.wf(),
        ensures
            match found {
                Some(player) => self@.contains_key(id@) && player@ == self@[id@] && player.wf(),
                None => !self@.contains_key(id@),
            },
    {
        let key = String::from_str(id);
        match self.position(&key) {
            Some(i) => Some(self.entries[i].player),
            None => None,
        }
    }

    /// Stores `player` as the record of `id`, in place of any earlier one.
    pub fn put(&mut self, id: &str, player: Player)
        requires
            old(self).wf(),
            player.wf(),
        ensures
            final(self)@ == old(self)@.insert(id@, player@),
            final(self).wf(),
    {
        let key = String::from_str(id);
        let entry = Entry { id: key, player };
        match self.position(&entry.id) {
            Some(i) => {
                proof {
                    lemma_replaced_entry(self.entries@, i as int, entry);
                }
                self.entries.set(i, entry);
            },
            None => {
                proof {
                    let grown = self.entries@.push(entry);
                    assert(grown.drop_last() =~= self.entries@);
                    assert(distinct_ids(grown)) by {
                        assert forall|a: int, b: int| 0 <= a < b < grown.len() implies (
                        #[trigger] grown[a]).id@ != (#[trigger] grown[b]).id@ by {
                            if b == grown.len() - 1 {
                                lemma_entry_is_mapped(self.entries@, a);
                            }
                        }
                    }
                }
                self.entries.push(entry);
            },
        }
    }

    /// The record of `id`, created with a new player's values and the claim
    /// gate at `current_time` where there was none.
    pub fn get_or_create(&mut self, id: &str, current_time: u64) -> (player: Player)
        requires
            old(self).wf(),
        ensures
            old(self)@.contains_key(id@) ==> player@ == old(self)@[id@]
                && final(self)@ == old(self)@,
            !old(self)@.contains_key(id@) ==> player@ == PlayerState::initial(current_time as int)
                && final(self)@ == old(self)@.insert(id@, player@),
            player.wf(),
            final(self).wf(),
    {
        match self.get(id) {
            Some(player) => player,
            None => {
                let player = Player::new(current_time);
                self.put(id, player);
                player
            },
        }
    }
}

} // verus!

//! The approvals that the app-server waits for.
use vstd::prelude::*;

use crate::json::{Json, JsonView};
use crate::text::same_text;

verus! {

/// A request of the app-server that the user has not answered yet.
#[derive(Debug)]
pub struct PendingServerApproval {
    pub method: String,
    pub params: Json,
    pub request_id: Json,
}

/// What an unanswered request holds.
#[verifier::ext_equal]
pub struct PendingView {
    pub method: Seq<char>,
    pub params: JsonView,
    pub request_id: JsonView,
}

impl View for PendingServerApproval {
    type V = PendingView;

    open spec fn view(&self) -> PendingView {
        PendingView { method: self.method@, params: self.params@, request_id: self.request_id@ }
    }
}

/// The unanswered requests, each under the identifier of its approval.
#[derive(Debug)]
pub struct ApprovalTable {
    pub entries: Vec<(String, PendingServerApproval)>,
}

/// The map that a list of requests stands for; a later one replaces an earlier one of its name.
pub open spec fn table_map(entries: Seq<(String, PendingServerApproval)>) -> Map<
    Seq<char>,
    PendingView,
>
    decreases entries.len(),
{
    if entries.len() == 0 {
        Map::empty()
    } else {
        table_map(entries.drop_last()).insert(entries.last().0@, entries.last().1@)
    }
}

impl View for ApprovalTable {
    type V = Map<Seq<char>, PendingView>;

    open spec fn view(&self) -> Map<Seq<char>, PendingView> {
        table_map(self.entries@)
    }
}

/// Whether no identifier occurs twice in a list of requests.
pub open spec fn distinct(entries: Seq<(String, PendingServerApproval)>) -> bool {
    forall|i: int, j: int|
        0 <= i < j < entries.len() ==> (#[trigger] entries[i]).0@ != (#[trigger] entries[j]).0@
}

/// A list without a certain identifier makes a map without it.
pub proof fn lemma_absent(entries: Seq<(String, PendingServerApproval)>, id: Seq<char>)
    requires
        forall|i: int| 0 <= i < entries.len() ==> (#[trigger] entries[i]).0@ != id,
    ensures
        !table_map(entries).contains_key(id),
    decreases entries.len(),
{
    if entries.len() > 0 {
        assert(entries[entries.len() - 1].0@ != id);
        assert forall|i: int| 0 <= i < entries.drop_last().len() implies (
        #[trigger] entries.drop_last()[i]).0@ != id by {
            assert(entries[i].0@ != id);
        }
        lemma_absent(entries.drop_last(), id);
    }
}

/// Taking out the only entry with an identifier takes that identifier out of the map.
pub proof fn lemma_removed(entries: Seq<(String, PendingServerApproval)>, place: int)
    requires
        distinct(entries),
        0 <= place < entries.len(),
    ensures
        table_map(entries.remove(place)) == table_map(entries).remove(entries[place].0@),
        table_map(entries).contains_key(entries[place].0@),
        table_map(entries)[entries[place].0@] == entries[place].1@,
    decreases entries.len(),
{
    let id = entries[place].0@;
    let front = entries.drop_last();
    let last = entries[entries.len() - 1];
    if place == entries.len() - 1 {
        assert(entries.remove(place) =~= front);
        assert forall|i: int| 0 <= i < front.len() implies (#[trigger] front[i]).0@ != id by {
            assert(entries[i].0@ != last.0@);
        }
        lemma_absent(front, id);
        assert(table_map(entries).remove(id) =~= table_map(front));
    } else {
        assert(distinct(front)) by {
            assert forall|i: int, j: int| 0 <= i < j < front.len() implies (#[trigger] front[i]).0@
                != (#[trigger] front[j]).0@ by {
                assert(entries[i].0@ != entries[j].0@);
            }
        }
        lemma_removed(front, place);
        assert(entries[place].0@ != last.0@);
        assert(entries.remove(place).drop_last() =~= front.remove(place));
        assert(entries.remove(place).last() == last);
        assert(table_map(entries).remove(id) =~= table_map(front).remove(id).insert(
            last.0@,
            last.1@,
        ));
    }
}

impl ApprovalTable {
    /// Whether no identifier occurs twice.
    pub open spec fn well_formed(&self) -> bool {
        distinct(self.entries@)
    }

    /// A table without entries.
    pub fn new() -> (table: ApprovalTable)
        ensures
            table.well_formed(),
            table@ == Map::<Seq<char>, PendingView>::empty(),
    {
        ApprovalTable { entries: Vec::new() }
    }

    /// Takes every entry out.
    pub fn clear(&mut self)
        ensures
            final(self).well_formed(),
            final(self)@ == Map::<Seq<char>, PendingView>::empty(),
    {
        self.entries.clear();
    }

    /// Takes out the entry with an identifier.
    pub fn remove(&mut self, id: &str) -> (pending: Option<PendingServerApproval>)
        requires
            old(self).well_formed(),
        ensures
            final(self).well_formed(),
            final(self)@ == old(self)@.remove(id@),
            match pending {
                Some(p) => old(self)@.contains_key(id@) && old(self)@[id@] == p@,
                None => !old(self)@.contains_key(id@),
            },
    {
        let mut i: usize = 0;
        while i < self.entries.len()
            invariant
                i <= self.entries@.len(),
                self.entries@ == old(self).entries@,
                distinct(self.entries@),
                forall|k: int| 0 <= k < i ==> (#[trigger] self.entries@[k]).0@ != id@,
            decreases self.entries@.len() - i,
        {
            if same_text(self.entries[i].0.as_str(), id) {
                proof {
                    lemma_removed(self.entries@, i as int);
                }
                let ghost before = self.entries@;
                let entry = self.entries.remove(i);
                assert(self.entries@ =~= before.remove(i as int));
                assert(distinct(self.entries@)) by {
                    assert forall|a: int, b: int| 0 <= a < b < self.entries@.len() implies (
                    #[trigger] self.entries@[a]).0@ != (#[trigger] self.entries@[b]).0@ by {
                        let a0 = if a < i {
                            a
                        } else {
                            a + 1
                        };
                        let b0 = if b < i {
                            b
                        } else {
                            b + 1
                        };
                        assert(before[a0].0@ != before[b0].0@);
                    }
                }
                return Some(entry.1);
            }
            i += 1;
        }
        proof {
            lemma_absent(self.entries@, id@);
            assert(self@.remove(id@) =~= self@);
        }
        None
    }

    /// Puts an entry in, in the place of one with its identifier.
    pub fn insert(&mut self, id: String, pending: PendingServerApproval)
        requires
            old(self).well_formed(),
        ensures
            final(self).well_formed(),
            final(self)@ == old(self)@.insert(id@, pending@),
    {
        let _ = self.remove(id.as_str());
        let ghost before = self.entries@;
        proof {
            assert forall|i: int| 0 <= i < before.len() implies (#[trigger] before[i]).0@ != id@ by {
                lemma_removed(before, i);
            }
        }
        self.entries.push((id, pending));
        proof {
            assert(self.entries@.drop_last() =~= before);
            assert(self@ =~= old(self)@.insert(id@, pending@));
            assert forall|a: int, b: int| 0 <= a < b < self.entries@.len() implies (
            #[trigger] self.entries@[a]).0@ != (#[trigger] self.entries@[b]).0@ by {
                assert(self.entries@[a] == before[a]);
                if b < before.len() {
                    assert(self.entries@[b] == before[b]);
                    assert(before[a].0@ != before[b].0@);
                }
            }
        }
    }
}

}

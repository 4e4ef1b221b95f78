//! The packets that have arrived at the device, by transaction and source.

use vstd::prelude::*;

use crate::satman::packet::Payload;
use crate::satman::transaction::{IncomingTransaction, IncomingTransactionState};

verus! {

/// A packet with its place among the others.
#[derive(Clone, Copy, Debug)]
struct Entry {
    transaction_id: u8,
    source: u8,
    transaction: IncomingTransaction,
}

/// At most one packet for each transaction and source, in their order.
#[derive(Debug)]
pub struct Inbox {
    entries: Vec<Entry>,
}

/// The place of a transaction and source among the others: they are ordered
/// by transaction, then by source.
pub open spec fn place(key: (u8, u8)) -> int {
    key.0 * 256 + key.1
}

/// The packet has not been handed out.
pub open spec fn is_waiting(packets: Map<(u8, u8), IncomingTransaction>, key: (u8, u8)) -> bool {
    packets.contains_key(key) && packets[key].state is Received
}

/// The packet is the next to be handed out: it waits, and none before it does.
pub open spec fn is_next(packets: Map<(u8, u8), IncomingTransaction>, key: (u8, u8)) -> bool {
    &&& is_waiting(packets, key)
    &&& forall|other: (u8, u8)| #[trigger]
        is_waiting(packets, other) ==> place(key) <= place(other)
}

/// The packets once one has been handed out.
pub open spec fn after_handing_out(
    packets: Map<(u8, u8), IncomingTransaction>,
    key: (u8, u8),
) -> Map<(u8, u8), IncomingTransaction> {
    packets.insert(
        key,
        IncomingTransaction { state: IncomingTransactionState::Handled, ..packets[key] },
    )
}

/// The packets that have not been handed out.
pub open spec fn waiting(
    packets: Map<(u8, u8), IncomingTransaction>,
) -> Map<(u8, u8), IncomingTransaction> {
    packets.filter_keys(|key: (u8, u8)| packets[key].state is Received)
}

/// What is handed out of the packets, and what becomes of them.
pub open spec fn handed_out(
    before: Map<(u8, u8), IncomingTransaction>,
    after: Map<(u8, u8), IncomingTransaction>,
    handed: Option<(u8, u8, Payload)>,
) -> bool {
    match handed {
        Some((transaction_id, source, payload)) => {
            &&& is_next(before, (transaction_id, source))
            &&& payload == before[(transaction_id, source)].payload
            &&& after == after_handing_out(before, (transaction_id, source))
        },
        None => {
            &&& forall|key: (u8, u8)| !#[trigger] is_waiting(before, key)
            &&& after == before
        },
    }
}

impl Entry {
    spec fn key(self) -> (u8, u8) {
        (self.transaction_id, self.source)
    }
}

/// The entries are in strictly ascending order.
spec fn is_sorted(entries: Seq<Entry>) -> bool {
    forall|i: int, j: int|
        0 <= i < j < entries.len() ==> place(#[trigger] entries[i].key()) < place(
            #[trigger] entries[j].key(),
        )
}

/// There is an entry for the transaction and source.
spec fn has_key(entries: Seq<Entry>, key: (u8, u8)) -> bool {
    exists|i: int| 0 <= i < entries.len() && #[trigger] entries[i].key() == key
}

/// Where the entry for the transaction and source is.
spec fn index_of(entries: Seq<Entry>, key: (u8, u8)) -> int {
    choose|i: int| 0 <= i < entries.len() && #[trigger] entries[i].key() == key
}

/// The entries by transaction and source.
spec fn to_map(entries: Seq<Entry>) -> Map<(u8, u8), IncomingTransaction> {
    Map::new(
        |key: (u8, u8)| has_key(entries, key),
        |key: (u8, u8)| entries[index_of(entries, key)].transaction,
    )
}

/// The map holds each entry under its key.
proof fn lemma_entry_in_map(entries: Seq<Entry>, i: int)
    requires
        is_sorted(entries),
        0 <= i < entries.len(),
    ensures
        to_map(entries).contains_key(entries[i].key()),
        to_map(entries)[entries[i].key()] == entries[i].transaction,
{
    let key = entries[i].key();
    assert(has_key(entries, key));
    let j = index_of(entries, key);
    if j < i {
        assert(place(entries[j].key()) < place(entries[i].key()));
    } else if i < j {
        assert(place(entries[i].key()) < place(entries[j].key()));
    }
}

/// The map holds nothing but entries.
proof fn lemma_map_entry(entries: Seq<Entry>, key: (u8, u8)) -> (i: int)
    requires
        is_sorted(entries),
        to_map(entries).contains_key(key),
    ensures
        0 <= i < entries.len(),
        entries[i].key() == key,
        to_map(entries)[key] == entries[i].transaction,
{
    index_of(entries, key)
}

/// An entry that takes the place of one with its key replaces it in the map.
proof fn lemma_update(entries: Seq<Entry>, i: int, entry: Entry)
    requires
        is_sorted(entries),
        0 <= i < entries.len(),
        entry.key() == entries[i].key(),
    ensures
        is_sorted(entries.update(i, entry)),
        to_map(entries.update(i, entry)) == to_map(entries).insert(entry.key(), entry.transaction),
{
    let after = entries.update(i, entry);
    assert(forall|j: int|
        0 <= j < after.len() ==> (#[trigger] after[j]).key() == entries[j].key());
    assert forall|k: (u8, u8)|
        to_map(after).contains_key(k) == to_map(entries).insert(
            entry.key(),
            entry.transaction,
        ).contains_key(k) by {
        if has_key(after, k) {
            let j = index_of(after, k);
            assert(entries[j].key() == k);
        }
        if has_key(entries, k) {
            let j = index_of(entries, k);
            assert(after[j].key() == k);
        }
        assert(after[i].key() == entry.key());
    }
    assert forall|k: (u8, u8)| to_map(after).contains_key(k) implies to_map(after)[k] == to_map(
        entries,
    ).insert(entry.key(), entry.transaction)[k] by {
        let j = lemma_map_entry(after, k);
        lemma_entry_in_map(entries, j);
        if j != i {
            if j < i {
                assert(place(after[j].key()) < place(after[i].key()));
            } else {
                assert(place(after[i].key()) < place(after[j].key()));
            }
        }
    }
    assert(to_map(after) =~= to_map(entries).insert(entry.key(), entry.transaction));
}

/// An entry that comes between its neighbours is added to the map.
proof fn lemma_insert(entries: Seq<Entry>, i: int, entry: Entry)
    requires
        is_sorted(entries),
        0 <= i <= entries.len(),
        forall|j: int| 0 <= j < i ==> place((#[trigger] entries[j]).key()) < place(entry.key()),
        i < entries.len() ==> place(entry.key()) < place(entries[i].key()),
    ensures
        is_sorted(entries.insert(i, entry)),
        to_map(entries.insert(i, entry)) == to_map(entries).insert(entry.key(), entry.transaction),
{
    let after = entries.insert(i, entry);
    assert forall|a: int, b: int| 0 <= a < b < after.len() implies place(
        #[trigger] after[a].key(),
    ) < place(#[trigger] after[b].key()) by {
        let a0 = if a < i { a } else { a - 1 };
        let b0 = if b < i { b } else { b - 1 };
        if a == i {
            if i < b0 {
                assert(place(entries[i].key()) < place(entries[b0].key()));
            }
        } else if b != i {
            assert(place(entries[a0].key()) < place(entries[b0].key()));
        }
    }
    assert forall|k: (u8, u8)|
        to_map(after).contains_key(k) == to_map(entries).insert(
            entry.key(),
            entry.transaction,
        ).contains_key(k) by {
        if has_key(after, k) {
            let j = index_of(after, k);
            if j < i {
                assert(entries[j].key() == k);
            } else if j > i {
                assert(entries[j - 1].key() == k);
            }
        }
        if has_key(entries, k) {
            let j = index_of(entries, k);
            if j < i {
                assert(after[j].key() == k);
            } else {
                assert(after[j + 1].key() == k);
            }
        }
        assert(after[i].key() == entry.key());
    }
    assert forall|k: (u8, u8)| to_map(after).contains_key(k) implies to_map(after)[k] == to_map(
        entries,
    ).insert(entry.key(), entry.transaction)[k] by {
        let j = lemma_map_entry(after, k);
        if j < i {
            assert(place(after[j].key()) < place(after[i].key()));
            lemma_entry_in_map(entries, j);
        } else if j > i {
            assert(place(after[i].key()) < place(after[j].key()));
            lemma_entry_in_map(entries, j - 1);
        }
    }
    assert(to_map(after) =~= to_map(entries).insert(entry.key(), entry.transaction));
}

/// An entry that is taken out is taken out of the map.
proof fn lemma_remove(entries: Seq<Entry>, i: int)
    requires
        is_sorted(entries),
        0 <= i < entries.len(),
    ensures
        is_sorted(entries.remove(i)),
        to_map(entries.remove(i)) == to_map(entries).remove(entries[i].key()),
{
    let after = entries.remove(i);
    let key = entries[i].key();
    assert forall|a: int, b: int| 0 <= a < b < after.len() implies place(
        #[trigger] after[a].key(),
    ) < place(#[trigger] after[b].key()) by {
        let a0 = if a < i { a } else { a + 1 };
        let b0 = if b < i { b } else { b + 1 };
        assert(place(entries[a0].key()) < place(entries[b0].key()));
    }
    assert forall|k: (u8, u8)|
        to_map(after).contains_key(k) == to_map(entries).remove(key).contains_key(k) by {
        if has_key(after, k) {
            let j = index_of(after, k);
            if j < i {
                assert(place(entries[j].key()) < place(entries[i].key()));
            } else {
                assert(place(entries[i].key()) < place(entries[j + 1].key()));
            }
        }
        if has_key(entries, k) && k != key {
            let j = index_of(entries, k);
            if j < i {
                assert(after[j].key() == k);
            } else {
                assert(after[j - 1].key() == k);
            }
        }
    }
    assert forall|k: (u8, u8)| to_map(after).contains_key(k) implies to_map(after)[k] == to_map(
        entries,
    ).remove(key)[k] by {
        let j = lemma_map_entry(after, k);
        lemma_entry_in_map(entries, if j < i { j } else { j + 1 });
    }
    assert(to_map(after) =~= to_map(entries).remove(key));
}

impl View for Inbox {
    type V = Map<(u8, u8), IncomingTransaction>;

    closed spec fn view(&self) -> Map<(u8, u8), IncomingTransaction> {
        to_map(self.entries@)
    }
}

impl Inbox {
    /// The packets are kept in order.
    pub closed spec fn wf(&self) -> bool {
        is_sorted(self.entries@)
    }

    /// No packets.
    pub fn new() -> (inbox: Inbox)
        ensures
            inbox.wf(),
            inbox@ == Map::<(u8, u8), IncomingTransaction>::empty(),
    {
        let inbox = Inbox { entries: Vec::new() };
        assert(inbox@ =~= Map::<(u8, u8), IncomingTransaction>::empty());
        inbox
    }

    /// Takes in a packet, in place of one of the same transaction and source.
    pub fn insert(&mut self, transaction_id: u8, source: u8, transaction: IncomingTransaction)
        requires
            old(self).wf(),
        ensures
            final(self).wf(),
            final(self)@ == old(self)@.insert((transaction_id, source), transaction),
    {
        let ghost before = self.entries@;
        let entry = Entry { transaction_id, source, transaction };
        let mut i: usize = 0;
        while i < self.entries.len() && (self.entries[i].transaction_id < transaction_id || (
        self.entries[i].transaction_id == transaction_id && self.entries[i].source < source))
            invariant
                self.entries@ == before,
                i <= before.len(),
                entry.key() == (transaction_id, source),
                forall|j: int|
                    0 <= j < i ==> place((#[trigger] before[j]).key()) < place(entry.key()),
            decreases before.len() - i,
        {
            i = i + 1;
        }
        if i < self.entries.len() && self.entries[i].transaction_id == transaction_id
            && self.entries[i].source == source {
            proof {
                lemma_update(before, i as int, entry);
            }
            self.entries[i] = entry;
        } else {
            proof {
                lemma_insert(before, i as int, entry);
            }
            self.entries.insert(i, entry);
        }
    }

    /// Hands out the first packet that waits, if one does.
    pub fn take_next(&mut self) -> (handed: Option<(u8, u8, Payload)>)
        requires
            old(self).wf(),
        ensures
            final(self).wf(),
            handed_out(old(self)@, final(self)@, handed),
    {
        let ghost before = self.entries@;
        let n: usize = self.entries.len();
        for i in 0..n
            invariant
                self.entries@ == before,
                n == before.len(),
                is_sorted(before),
                old(self)@ == to_map(before),
                forall|j: int|
                    0 <= j < i ==> !((#[trigger] before[j]).transaction.state is Received),
        {
            let entry = self.entries[i];
            if let IncomingTransactionState::Received = entry.transaction.state {
                let handled = Entry {
                    transaction_id: entry.transaction_id,
                    source: entry.source,
                    transaction: IncomingTransaction {
                        payload: entry.transaction.payload,
                        state: IncomingTransactionState::Handled,
                    },
                };
                proof {
                    lemma_entry_in_map(before, i as int);
                    lemma_update(before, i as int, handled);
                    assert forall|other: (u8, u8)| #[trigger]
                        is_waiting(to_map(before), other) implies place(entry.key()) <= place(
                        other,
                    ) by {
                        let j = lemma_map_entry(before, other);
                        if j > i {
                            assert(place(before[i as int].key()) < place(before[j].key()));
                        }
                    }
                }
                self.entries[i] = handled;
                return Some((entry.transaction_id, entry.source, entry.transaction.payload));
            }
        }
        proof {
            assert forall|key: (u8, u8)| !#[trigger] is_waiting(to_map(before), key) by {
                if to_map(before).contains_key(key) {
                    let j = lemma_map_entry(before, key);
                }
            }
        }
        None
    }

    /// Forgets the packets that have been handed out.
    pub fn drop_handled(&mut self)
        requires
            old(self).wf(),
        ensures
            final(self).wf(),
            final(self)@ == waiting(old(self)@),
    {
        let ghost before = self@;
        let mut i: usize = 0;
        while i < self.entries.len()
            invariant
                i <= self.entries.len(),
                is_sorted(self.entries@),
                waiting(self@) == waiting(before),
                forall|j: int|
                    0 <= j < i ==> (#[trigger] self.entries@[j]).transaction.state is Received,
            decreases self.entries.len() - i,
        {
            match self.entries[i].transaction.state {
                IncomingTransactionState::Received => {
                    i = i + 1;
                },
                IncomingTransactionState::Handled => {
                    proof {
                        lemma_entry_in_map(self.entries@, i as int);
                        lemma_remove(self.entries@, i as int);
                        let key = self.entries@[i as int].key();
                        assert(waiting(self@.remove(key)) =~= waiting(self@));
                    }
                    let _ = self.entries.remove(i);
                },
            }
        }
        proof {
            assert forall|key: (u8, u8)| self@.contains_key(key) implies waiting(
                self@,
            ).contains_key(key) by {
                let j = lemma_map_entry(self.entries@, key);
            }
            assert(waiting(self@) =~= self@);
        }
    }
}

/// What is handed out is a packet that has arrived and was not handed out, with
/// what it says, and none of a lower transaction, or of the same and a lower
/// source, waits. It is handled from then on, and no other packet changes.
pub proof fn law_the_first_that_waits_is_handed_out(
    before: Map<(u8, u8), IncomingTransaction>,
    after: Map<(u8, u8), IncomingTransaction>,
    transaction_id: u8,
    source: u8,
    payload: Payload,
    other: (u8, u8),
)
    requires
        handed_out(before, after, Some((transaction_id, source, payload))),
    ensures
        before.contains_key((transaction_id, source)),
        before[(transaction_id, source)] == (IncomingTransaction {
            payload,
            state: IncomingTransactionState::Received,
        }),
        before.contains_key(other) && before[other].state is Received ==> transaction_id < other.0
            || (transaction_id == other.0 && source <= other.1),
        after.contains_key((transaction_id, source)),
        after[(transaction_id, source)] == (IncomingTransaction {
            payload,
            state: IncomingTransactionState::Handled,
        }),
        other != (transaction_id, source) ==> after.contains_key(other) == before.contains_key(
            other,
        ),
        other != (transaction_id, source) && before.contains_key(other) ==> after[other]
            == before[other],
{
    if before.contains_key(other) && before[other].state is Received {
        assert(is_waiting(before, other));
    }
}

/// Nothing is handed out only if everything that has arrived was handed out, and
/// then nothing changes.
pub proof fn law_nothing_waits_if_nothing_is_handed_out(
    before: Map<(u8, u8), IncomingTransaction>,
    after: Map<(u8, u8), IncomingTransaction>,
    key: (u8, u8),
)
    requires
        handed_out(before, after, None),
    ensures
        after == before,
        before.contains_key(key) ==> before[key].state is Handled,
{
    assert(!is_waiting(before, key));
}

/// Just the packets that were not handed out are kept, as they are.
pub proof fn law_only_handled_packets_are_forgotten(
    packets: Map<(u8, u8), IncomingTransaction>,
    key: (u8, u8),
)
    ensures
        waiting(packets).contains_key(key) <==> (packets.contains_key(key) && packets[key].state
            is Received),
        waiting(packets).contains_key(key) ==> waiting(packets)[key] == packets[key],
{
}

} // verus!

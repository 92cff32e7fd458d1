//! The trust store: which receivers this host is registered with, and the
//! credentials it holds for each.

use vstd::prelude::*;

verus! {

/// The credentials of this host for one receiver.
#[derive(Debug, PartialEq, Eq)]
pub struct ServerSpec {
    /// Identifier of this host, unique to the registration.
    pub uuid: String,
    /// Private key, generated locally.
    pub private_key: String,
    /// Certificate that the receiver issued during pairing.
    pub certificate: String,
    /// Root of trust, pinned at registration.
    pub root_cert: String,
}

/// Mathematical model of a [`ServerSpec`].
pub struct ServerSpecView {
    pub uuid: Seq<char>,
    pub private_key: Seq<char>,
    pub certificate: Seq<char>,
    pub root_cert: Seq<char>,
}

impl View for ServerSpec {
    type V = ServerSpecView;

    open spec fn view(&self) -> ServerSpecView {
        ServerSpecView {
            uuid: self.uuid@,
            private_key: self.private_key@,
            certificate: self.certificate@,
            root_cert: self.root_cert@,
        }
    }
}

impl Clone for ServerSpec {
    fn clone(&self) -> (r: Self)
        ensures
            r@ == self@,
    {
        ServerSpec {
            uuid: self.uuid.clone(),
            private_key: self.private_key.clone(),
            certificate: self.certificate.clone(),
            root_cert: self.root_cert.clone(),
        }
    }
}

/// One entry of the trust store: a receiver address and the credentials for it.
#[derive(Debug, PartialEq, Eq)]
pub struct StoreEntry {
    pub address: String,
    pub record: ServerSpec,
}

/// Mathematical model of a [`StoreEntry`].
pub struct StoreEntryView {
    pub address: Seq<char>,
    pub record: ServerSpecView,
}

impl View for StoreEntry {
    type V = StoreEntryView;

    open spec fn view(&self) -> StoreEntryView {
        StoreEntryView { address: self.address@, record: self.record@ }
    }
}

impl Clone for StoreEntry {
    fn clone(&self) -> (r: Self)
        ensures
            r@ == self@,
    {
        StoreEntry { address: self.address.clone(), record: self.record.clone() }
    }
}

/// The models of a sequence of entries, in the same order.
pub open spec fn entry_views(entries: Seq<StoreEntry>) -> Seq<StoreEntryView> {
    Seq::new(entries.len(), |i: int| entries[i]@)
}

/// No receiver address occurs twice.
pub open spec fn distinct_addresses(entries: Seq<StoreEntryView>) -> bool {
    forall|i: int, j: int|
        0 <= i < j < entries.len() ==> (#[trigger] entries[i]).address != (
        #[trigger] entries[j]).address
}

/// Some entry is for `address`.
pub open spec fn has_address(entries: Seq<StoreEntryView>, address: Seq<char>) -> bool {
    exists|i: int| 0 <= i < entries.len() && (#[trigger] entries[i]).address == address
}

/// The position of an entry for `address`, where there is one.
pub open spec fn position_of(entries: Seq<StoreEntryView>, address: Seq<char>) -> int {
    choose|i: int| 0 <= i < entries.len() && (#[trigger] entries[i]).address == address
}

/// The entries for other receivers than `address`, in their order.
pub open spec fn without(entries: Seq<StoreEntryView>, address: Seq<char>) -> Seq<StoreEntryView>
    decreases entries.len(),
{
    if entries.len() == 0 {
        entries
    } else if entries.last().address == address {
        without(entries.drop_last(), address)
    } else {
        without(entries.drop_last(), address).push(entries.last())
    }
}

/// The entries after a registration with `address`: an earlier entry for the
/// same receiver is gone, and the new one is the most recent.
pub open spec fn with_record(
    entries: Seq<StoreEntryView>,
    address: Seq<char>,
    record: ServerSpecView,
) -> Seq<StoreEntryView> {
    without(entries, address).push(StoreEntryView { address, record })
}

/// The mapping from receiver address to credentials that the entries stand
/// for. Where an address occurs more than once, the later entry counts.
pub open spec fn as_map(entries: Seq<StoreEntryView>) -> Map<Seq<char>, ServerSpecView>
    decreases entries.len(),
{
    if entries.len() == 0 {
        Map::empty()
    } else {
        as_map(entries.drop_last()).insert(entries.last().address, entries.last().record)
    }
}

/// The entries that a list of registrations leaves, applied first to last.
pub open spec fn collected(entries: Seq<StoreEntryView>) -> Seq<StoreEntryView>
    decreases entries.len(),
{
    if entries.len() == 0 {
        entries
    } else {
        with_record(collected(entries.drop_last()), entries.last().address, entries.last().record)
    }
}

/// An entry of the front is an entry of the whole: what the front has an
/// address for, the whole has too, and where the whole has distinct
/// addresses, the front has, and none of them is that of the last entry.
pub proof fn lemma_front(entries: Seq<StoreEntryView>)
    requires
        entries.len() > 0,
    ensures
        forall|a: Seq<char>| #[trigger]
            has_address(entries.drop_last(), a) ==> has_address(entries, a),
        has_address(entries, entries.last().address),
        forall|a: Seq<char>| #[trigger]
            has_address(entries, a) ==> a == entries.last().address || has_address(
                entries.drop_last(),
                a,
            ),
        distinct_addresses(entries) ==> distinct_addresses(entries.drop_last()) && !has_address(
            entries.drop_last(),
            entries.last().address,
        ),
{
    let front = entries.drop_last();
    let end = entries.len() - 1;
    assert(entries[end] == entries.last());
    assert forall|a: Seq<char>| #[trigger] has_address(front, a) implies has_address(entries, a) by {
        assert(entries[position_of(front, a)] == front[position_of(front, a)]);
    }
    assert forall|a: Seq<char>| #[trigger] has_address(entries, a) implies a
        == entries.last().address || has_address(front, a) by {
        let at = position_of(entries, a);
        if at < end {
            assert(front[at] == entries[at]);
        }
    }
    if distinct_addresses(entries) {
        assert forall|i: int, j: int| 0 <= i < j < front.len() implies (#[trigger] front[i]).address
            != (#[trigger] front[j]).address by {
            assert(entries[i].address != entries[j].address);
        }
        if has_address(front, entries.last().address) {
            let at = position_of(front, entries.last().address);
            assert(entries[at].address != entries[end].address);
        }
    }
}

/// Taking an address out leaves no entry for it and invents none, keeps
/// distinct addresses distinct, changes nothing where the address does not
/// occur, and takes the address out of the mapping.
pub proof fn lemma_without(entries: Seq<StoreEntryView>, address: Seq<char>)
    ensures
        !has_address(without(entries, address), address),
        forall|a: Seq<char>| #[trigger]
            has_address(without(entries, address), a) ==> has_address(entries, a),
        distinct_addresses(entries) ==> distinct_addresses(without(entries, address)),
        !has_address(entries, address) ==> without(entries, address) == entries,
        as_map(without(entries, address)) == as_map(entries).remove(address),
    decreases entries.len(),
{
    let out = without(entries, address);
    if entries.len() == 0 {
        assert(as_map(entries).remove(address) =~= as_map(entries));
    } else {
        let front = entries.drop_last();
        let last = entries.last();
        let inner = without(front, address);
        lemma_without(front, address);
        lemma_front(entries);
        if last.address == address {
            assert(as_map(out) =~= as_map(entries).remove(address));
        } else {
            assert(out.drop_last() =~= inner);
            assert(out.last() == last);
            lemma_front(out);
            assert(as_map(out) =~= as_map(entries).remove(address));
            if distinct_addresses(entries) {
                assert forall|i: int, j: int| 0 <= i < j < out.len() implies (
                #[trigger] out[i]).address != (#[trigger] out[j]).address by {
                    if j < inner.len() {
                        assert(inner[i].address != inner[j].address);
                    } else {
                        assert(out[i] == inner[i]);
                        assert(has_address(inner, out[i].address));
                    }
                }
            }
            if !has_address(entries, address) {
                assert(out =~= entries);
            }
        }
    }
}

/// Among distinct addresses, taking an address out removes the one entry
/// that holds it.
pub proof fn lemma_without_at(entries: Seq<StoreEntryView>, index: int)
    requires
        distinct_addresses(entries),
        0 <= index < entries.len(),
    ensures
        without(entries, entries[index].address) == entries.remove(index),
    decreases entries.len(),
{
    let address = entries[index].address;
    let front = entries.drop_last();
    lemma_front(entries);
    if index == entries.len() - 1 {
        lemma_without(front, address);
        assert(entries.remove(index) =~= front);
    } else {
        assert(front[index] == entries[index]);
        assert(has_address(front, address));
        lemma_without_at(front, index);
        assert(entries.remove(index) =~= front.remove(index).push(entries.last()));
    }
}

/// A registration keeps the addresses distinct, puts its entry last, and
/// changes the mapping at the one address only.
pub proof fn lemma_with_record(
    entries: Seq<StoreEntryView>,
    address: Seq<char>,
    record: ServerSpecView,
)
    ensures
        distinct_addresses(entries) ==> distinct_addresses(with_record(entries, address, record)),
        as_map(with_record(entries, address, record)) == as_map(entries).insert(address, record),
        with_record(entries, address, record).len() > 0,
        with_record(entries, address, record).last() == (StoreEntryView { address, record }),
{
    let kept = without(entries, address);
    let out = with_record(entries, address, record);
    lemma_without(entries, address);
    assert(out.drop_last() =~= kept);
    assert(as_map(out) =~= as_map(entries).insert(address, record));
    if distinct_addresses(entries) {
        assert forall|i: int, j: int| 0 <= i < j < out.len() implies (#[trigger] out[i]).address
            != (#[trigger] out[j]).address by {
            if j < kept.len() {
                assert(kept[i].address != kept[j].address);
            } else {
                assert(out[i] == kept[i]);
                assert(has_address(kept, kept[i].address));
            }
        }
    }
}

/// The entries that a list of registrations leaves have distinct addresses
/// and stand for the mapping that the list stands for. A list that has
/// distinct addresses already is left as it is.
pub proof fn lemma_collected(entries: Seq<StoreEntryView>)
    ensures
        distinct_addresses(collected(entries)),
        as_map(collected(entries)) == as_map(entries),
        distinct_addresses(entries) ==> collected(entries) == entries,
    decreases entries.len(),
{
    if entries.len() > 0 {
        let front = entries.drop_last();
        lemma_collected(front);
        lemma_with_record(collected(front), entries.last().address, entries.last().record);
        if distinct_addresses(entries) {
            lemma_front(entries);
            lemma_without(front, entries.last().address);
            assert(collected(entries) =~= entries);
        }
    }
}

/// Among distinct addresses, the mapping holds each entry under its address
/// and nothing else.
pub proof fn lemma_map_of_distinct(entries: Seq<StoreEntryView>)
    requires
        distinct_addresses(entries),
    ensures
        forall|a: Seq<char>| #[trigger]
            as_map(entries).contains_key(a) <==> has_address(entries, a),
        forall|i: int|
            0 <= i < entries.len() ==> as_map(entries)[(#[trigger] entries[i]).address]
                == entries[i].record,
    decreases entries.len(),
{
    if entries.len() > 0 {
        let front = entries.drop_last();
        lemma_front(entries);
        lemma_map_of_distinct(front);
        assert forall|a: Seq<char>| #[trigger]
            as_map(entries).contains_key(a) <==> has_address(entries, a) by {
            if a != entries.last().address {
                assert(as_map(front).contains_key(a) <==> has_address(front, a));
            }
        }
        assert forall|i: int| 0 <= i < entries.len() implies as_map(entries)[(
        #[trigger] entries[i]).address] == entries[i].record by {
            if i < front.len() {
                assert(front[i] == entries[i]);
                assert(has_address(front, front[i].address));
            }
        }
    }
}

/// The trust store: the receivers this host is registered with, oldest
/// registration first, at most one entry for each receiver address.
#[derive(Debug, PartialEq, Eq)]
pub struct RegistrationState {
    entries: Vec<StoreEntry>,
}

impl View for RegistrationState {
    type V = Seq<StoreEntryView>;

    closed spec fn view(&self) -> Seq<StoreEntryView> {
        entry_views(self.entries@)
    }
}

impl RegistrationState {
    #[verifier::type_invariant]
    closed spec fn well_formed(&self) -> bool {
        distinct_addresses(entry_views(self.entries@))
    }

    /// The mapping from receiver address to credentials.
    pub open spec fn mapping(&self) -> Map<Seq<char>, ServerSpecView> {
        as_map(self@)
    }

    /// A trust store without registrations.
    pub fn new() -> (r: Self)
        ensures
            r@ == Seq::<StoreEntryView>::empty(),
    {
        let r = RegistrationState { entries: Vec::new() };
        assert(entry_views(r.entries@) =~= Seq::<StoreEntryView>::empty());
        r
    }

    /// The number of receivers. No address occurs twice among them.
    pub fn len(&self) -> (r: usize)
        ensures
            r == self@.len(),
            distinct_addresses(self@),
    {
        proof {
            use_type_invariant(self);
        }
        self.entries.len()
    }

    /// Whether this host is registered nowhere.
    pub fn is_empty(&self) -> (r: bool)
        ensures
            r == (self@.len() == 0),
    {
        self.entries.len() == 0
    }

    /// The entry at position `index`, counted from the oldest registration.
    pub fn entry(&self, index: usize) -> (r: &StoreEntry)
        requires
            index < self@.len(),
        ensures
            r@ == self@[index as int],
    {
        &self.entries[index]
    }

    /// The most recent registration, if there is one.
    pub fn latest(&self) -> (r: Option<&StoreEntry>)
        ensures
            match r {
                Some(entry) => self@.len() > 0 && entry@ == self@.last(),
                None => self@.len() == 0,
            },
    {
        let n: usize = self.entries.len();
        if n == 0 {
            None
        } else {
            Some(&self.entries[n - 1])
        }
    }

    /// The entries, oldest registration first.
    pub fn into_entries(self) -> (r: Vec<StoreEntry>)
        ensures
            entry_views(r@) == self@,
            distinct_addresses(entry_views(r@)),
    {
        proof {
            use_type_invariant(&self);
        }
        self.entries
    }

    /// The position of the entry for `address`.
    pub fn position(&self, address: &String) -> (r: Option<usize>)
        ensures
            match r {
                Some(index) => index < self@.len() && self@[index as int].address == address@,
                None => !has_address(self@, address@),
            },
    {
        let mut index: usize = 0;
        while index < self.entries.len()
            invariant
                index <= self.entries.len(),
                forall|k: int| 0 <= k < index ==> (#[trigger] self@[k]).address != address@,
            decreases self.entries.len() - index,
        {
            if self.entries[index].address == *address {
                return Some(index);
            }
            index = index + 1;
        }
        None
    }

    /// The credentials for `address`, if this host is registered there.
    pub fn get(&self, address: &String) -> (r: Option<&ServerSpec>)
        ensures
            match r {
                Some(record) => self.mapping().contains_key(address@) && record@
                    == self.mapping()[address@],
                None => !self.mapping().contains_key(address@),
            },
    {
        proof {
            use_type_invariant(self);
            lemma_map_of_distinct(self@);
        }
        match self.position(address) {
            Some(index) => Some(&self.entries[index].record),
            None => None,
        }
    }

    /// Registers with `address`: the record replaces an earlier one for the
    /// same address, and becomes the most recent registration.
    pub fn insert(&mut self, address: String, record: ServerSpec)
        ensures
            final(self)@ == with_record(old(self)@, address@, record@),
            final(self).mapping() == old(self).mapping().insert(address@, record@),
    {
        proof {
            use_type_invariant(&*self);
            lemma_without(self@, address@);
            lemma_with_record(self@, address@, record@);
        }
        let ghost before = self@;
        let found = self.position(&address);
        let mut entries: Vec<StoreEntry> = Vec::new();
        std::mem::swap(&mut entries, &mut self.entries);
        match found {
            Some(index) => {
                proof {
                    lemma_without_at(before, index as int);
                }
                entries.remove(index);
            },
            None => {},
        }
        assert(entry_views(entries@) =~= without(before, address@));
        entries.push(StoreEntry { address, record });
        assert(entry_views(entries@) =~= with_record(before, address@, record@));
        self.entries = entries;
    }
}

/// Builds the trust store from registrations as they were read, first to
/// last: a later entry replaces an earlier one for the same address. Where
/// no address occurs twice, the store holds the entries as they were read.
pub fn get_reg_state(entries: Vec<StoreEntry>) -> (r: RegistrationState)
    ensures
        r@ == collected(entry_views(entries@)),
        r.mapping() == as_map(entry_views(entries@)),
        distinct_addresses(entry_views(entries@)) ==> r@ == entry_views(entries@),
{
    let ghost all = entry_views(entries@);
    let mut state = RegistrationState::new();
    assert(all.take(0) =~= Seq::<StoreEntryView>::empty());
    for entry in each: entries
        invariant
            each.seq().len() == all.len(),
            forall|k: int| 0 <= k < all.len() ==> (#[trigger] each.seq()[k])@ == all[k],
            state@ == collected(all.take(each.index() as int)),
    {
        proof {
            assert(all.take(each.index() + 1).drop_last() =~= all.take(each.index() as int));
            assert(all.take(each.index() + 1).last() == entry@);
        }
        state.insert(entry.address, entry.record);
    }
    proof {
        assert(all.take(all.len() as int) =~= all);
        lemma_collected(all);
    }
    state
}

} // verus!

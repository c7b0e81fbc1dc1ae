//! The item catalog: one entry per registered tray item, keyed by address,
//! holding the resolved icon and the UI-local hover flag.
//!
//! Entries are created by the first Add for an address, replaced in place
//! by Updates (the hover flag survives icon churn), and deleted by the
//! matching Remove. Addresses stay unique throughout.

use vstd::prelude::*;

use crate::engine::OutputEvent;
use crate::engine::OutputModel;
use crate::icon::resolve_icon;
use crate::icon::resolves_to;
use crate::item::IconModel;
use crate::item::ResolvedIcon;
use crate::item::opt_icon_model;

verus! {

/// One catalog slot: the item's address, its resolved icon (`None` renders
/// as an empty slot), and whether the pointer is over it.
#[derive(PartialEq, Debug)]
pub struct CatalogEntry {
    pub address: String,
    pub icon: Option<ResolvedIcon>,
    pub hovered: bool,
}

/// Model of a [`CatalogEntry`].
pub struct EntryModel {
    pub address: Seq<char>,
    pub icon: Option<IconModel>,
    pub hovered: bool,
}

impl View for CatalogEntry {
    type V = EntryModel;

    open spec fn view(&self) -> EntryModel {
        EntryModel { address: self.address@, icon: opt_icon_model(self.icon), hovered: self.hovered }
    }
}

/// No two entries share an address.
pub open spec fn distinct_addresses(s: Seq<EntryModel>) -> bool {
    forall|i: int, j: int| 0 <= i < j < s.len() ==> s[i].address != s[j].address
}

pub open spec fn has_address(s: Seq<EntryModel>, a: Seq<char>) -> bool {
    exists|i: int| 0 <= i < s.len() && s[i].address == a
}

pub open spec fn address_index(s: Seq<EntryModel>, a: Seq<char>) -> int {
    choose|i: int| 0 <= i < s.len() && s[i].address == a
}

proof fn lemma_address_index_unique(s: Seq<EntryModel>, a: Seq<char>, i: int)
    requires
        distinct_addresses(s),
        0 <= i < s.len(),
        s[i].address == a,
    ensures
        has_address(s, a),
        address_index(s, a) == i,
{
    assert(has_address(s, a));
    let k = address_index(s, a);
    assert(0 <= k < s.len() && s[k].address == a);
    if k < i {
        assert(s[k].address != s[i].address);
    }
    if i < k {
        assert(s[i].address != s[k].address);
    }
}

/// Creating or replacing the entry for `a`: an existing entry keeps its
/// place and hover flag and only its icon is replaced; a new address is
/// appended with the hover flag down.
pub open spec fn spec_upsert(s: Seq<EntryModel>, a: Seq<char>, icon: Option<IconModel>) -> Seq<
    EntryModel,
> {
    if has_address(s, a) {
        s.update(
            address_index(s, a),
            EntryModel { address: a, icon, hovered: s[address_index(s, a)].hovered },
        )
    } else {
        s.push(EntryModel { address: a, icon, hovered: false })
    }
}

/// Deleting the entry for `a`, if present.
pub open spec fn spec_remove(s: Seq<EntryModel>, a: Seq<char>) -> Seq<EntryModel> {
    if has_address(s, a) {
        s.remove(address_index(s, a))
    } else {
        s
    }
}

/// Setting the hover flag of the entry for `a`, if present.
pub open spec fn spec_set_hovered(s: Seq<EntryModel>, a: Seq<char>, hovered: bool) -> Seq<
    EntryModel,
> {
    if has_address(s, a) {
        s.update(
            address_index(s, a),
            EntryModel { address: a, icon: s[address_index(s, a)].icon, hovered },
        )
    } else {
        s
    }
}

/// The catalog itself. Its model is the sequence of entry models, in
/// insertion order.
pub struct Catalog {
    entries: Vec<CatalogEntry>,
}

impl View for Catalog {
    type V = Seq<EntryModel>;

    closed spec fn view(&self) -> Seq<EntryModel> {
        self.entries@.map_values(|e: CatalogEntry| e@)
    }
}

impl Catalog {
    #[verifier::type_invariant]
    spec fn inv(&self) -> bool {
        distinct_addresses(self@)
    }

    /// An empty catalog.
    pub fn new() -> (r: Catalog)
        ensures
            r@ == Seq::<EntryModel>::empty(),
    {
        let r = Catalog { entries: Vec::new() };
        proof {
            assert(r@ =~= Seq::<EntryModel>::empty());
        }
        r
    }

    /// How many items the catalog currently holds.
    pub fn len(&self) -> (r: usize)
        ensures
            r == self@.len(),
    {
        self.entries.len()
    }

    /// The entry at position `i`, in insertion order.
    pub fn get(&self, i: usize) -> (r: &CatalogEntry)
        requires
            i < self@.len(),
        ensures
            r@ == self@[i as int],
    {
        &self.entries[i]
    }

    /// Position of the entry for `address`, if present.
    fn find_index(&self, address: &String) -> (r: Option<usize>)
        ensures
            match r {
                Some(i) => i < self@.len() && self@[i as int].address == address@,
                None => !has_address(self@, address@),
            },
    {
        let n = self.entries.len();
        let mut i: usize = 0;
        while i < n
            invariant
                n == self.entries@.len(),
                i <= n,
                forall|j: int| 0 <= j < i ==> self@[j].address != address@,
            decreases n - i,
        {
            assert(self@[i as int] == self.entries@[i as int]@);
            if self.entries[i].address == *address {
                return Some(i);
            }
            i += 1;
        }
        None
    }

    /// Whether the catalog holds an entry for `address`.
    pub fn contains(&self, address: &String) -> (r: bool)
        ensures
            r == has_address(self@, address@),
    {
        match self.find_index(address) {
            Some(i) => {
                proof {
                    assert(has_address(self@, address@));
                }
                true
            },
            None => false,
        }
    }

    /// Creates or replaces the entry for `address`: the icon is replaced,
    /// the hover flag of an existing entry survives, a new entry starts
    /// not hovered.
    pub fn upsert(&mut self, address: String, icon: Option<ResolvedIcon>)
        ensures
            final(self)@ == spec_upsert(old(self)@, address@, opt_icon_model(icon)),
    {
        proof {
            use_type_invariant(&*self);
        }
        match self.find_index(&address) {
            Some(i) => {
                proof {
                    lemma_address_index_unique(self@, address@, i as int);
                }
                let hovered = self.entries[i].hovered;
                let ghost before = self@;
                let mut entries: Vec<CatalogEntry> = Vec::new();
                core::mem::swap(&mut entries, &mut self.entries);
                entries[i] = CatalogEntry { address, icon, hovered };
                proof {
                    let updated = entries@.map_values(|e: CatalogEntry| e@);
                    assert(updated =~= spec_upsert(before, before[i as int].address, opt_icon_model(icon))) by {
                        assert forall|j: int| 0 <= j < updated.len() implies updated[j]
                            == spec_upsert(
                            before,
                            before[i as int].address,
                            opt_icon_model(icon),
                        )[j] by {
                            assert(updated[j] == entries@[j]@);
                        }
                    }
                    assert forall|p: int, q: int|
                        0 <= p < q < updated.len() implies updated[p].address
                        != updated[q].address by {
                        assert(updated[p].address == before[p].address);
                        assert(updated[q].address == before[q].address);
                    }
                }
                self.entries = entries;
            },
            None => {
                let ghost before = self@;
                let ghost a = address@;
                let mut entries: Vec<CatalogEntry> = Vec::new();
                core::mem::swap(&mut entries, &mut self.entries);
                entries.push(CatalogEntry { address, icon, hovered: false });
                proof {
                    assert(entries@.map_values(|e: CatalogEntry| e@) =~= before.push(
                        EntryModel { address: a, icon: opt_icon_model(icon), hovered: false },
                    )) by {
                        assert forall|j: int| 0 <= j < entries@.len() implies entries@.map_values(
                            |e: CatalogEntry| e@,
                        )[j] == before.push(
                            EntryModel { address: a, icon: opt_icon_model(icon), hovered: false },
                        )[j] by {
                            assert(entries@.map_values(|e: CatalogEntry| e@)[j] == entries@[j]@);
                        }
                    }
                    let pushed = before.push(
                        EntryModel { address: a, icon: opt_icon_model(icon), hovered: false },
                    );
                    assert forall|p: int, q: int|
                        0 <= p < q < pushed.len() implies pushed[p].address != pushed[q].address by {
                        if q == before.len() as int {
                            assert(!(before[p].address == a));
                        }
                    }
                }
                self.entries = entries;
            },
        }
    }

    /// Deletes the entry for `address`, if present.
    pub fn remove(&mut self, address: &String)
        ensures
            final(self)@ == spec_remove(old(self)@, address@),
    {
        proof {
            use_type_invariant(&*self);
        }
        match self.find_index(address) {
            Some(i) => {
                proof {
                    lemma_address_index_unique(self@, address@, i as int);
                }
                let ghost before = self@;
                let mut entries: Vec<CatalogEntry> = Vec::new();
                core::mem::swap(&mut entries, &mut self.entries);
                entries.remove(i);
                proof {
                    let shrunk = entries@.map_values(|e: CatalogEntry| e@);
                    assert(shrunk =~= before.remove(i as int)) by {
                        assert forall|j: int| 0 <= j < shrunk.len() implies shrunk[j]
                            == before.remove(i as int)[j] by {
                            assert(shrunk[j] == entries@[j]@);
                        }
                    }
                    assert forall|p: int, q: int|
                        0 <= p < q < shrunk.len() implies shrunk[p].address != shrunk[q].address by {
                        let p0 = if p < i { p } else { p + 1 };
                        let q0 = if q < i { q } else { q + 1 };
                        assert(before[p0].address != before[q0].address);
                    }
                }
                self.entries = entries;
            },
            None => {},
        }
    }

    /// Sets the hover flag of the entry for `address`, if present; nothing
    /// else changes.
    pub fn set_hovered(&mut self, address: &String, hovered: bool)
        ensures
            final(self)@ == spec_set_hovered(old(self)@, address@, hovered),
    {
        proof {
            use_type_invariant(&*self);
        }
        match self.find_index(address) {
            Some(i) => {
                proof {
                    lemma_address_index_unique(self@, address@, i as int);
                }
                let ghost before = self@;
                let mut entries: Vec<CatalogEntry> = Vec::new();
                core::mem::swap(&mut entries, &mut self.entries);
                entries[i].hovered = hovered;
                proof {
                    let updated = entries@.map_values(|e: CatalogEntry| e@);
                    assert(updated =~= spec_set_hovered(before, before[i as int].address, hovered))
                        by {
                        assert forall|j: int| 0 <= j < updated.len() implies updated[j]
                            == spec_set_hovered(before, before[i as int].address, hovered)[j] by {
                            assert(updated[j] == entries@[j]@);
                        }
                    }
                    assert forall|p: int, q: int|
                        0 <= p < q < updated.len() implies updated[p].address
                        != updated[q].address by {
                        assert(updated[p].address == before[p].address);
                        assert(updated[q].address == before[q].address);
                    }
                }
                self.entries = entries;
            },
            None => {},
        }
    }

    /// Applies one engine output: Add and Update resolve the descriptor's
    /// icon and create or replace the entry, Remove deletes it, Tick is a
    /// no-op.
    pub fn apply(&mut self, event: OutputEvent)
        ensures
            event@ matches OutputModel::Add { address, icon } ==> exists|ic: Option<IconModel>|
                #[trigger] resolves_to(icon, ic) && final(self)@ == spec_upsert(
                    old(self)@,
                    address,
                    ic,
                ),
            event@ matches OutputModel::Update { address, icon } ==> exists|ic: Option<IconModel>|
                #[trigger] resolves_to(icon, ic) && final(self)@ == spec_upsert(
                    old(self)@,
                    address,
                    ic,
                ),
            event@ matches OutputModel::Remove { address } ==> final(self)@ == spec_remove(
                old(self)@,
                address,
            ),
            event@ is Tick ==> final(self)@ == old(self)@,
    {
        match event {
            OutputEvent::Add { address, icon } => {
                let resolved = resolve_icon(&icon);
                proof {
                    assert(resolves_to(icon@, opt_icon_model(resolved)));
                }
                self.upsert(address, resolved);
            },
            OutputEvent::Update { address, icon } => {
                let resolved = resolve_icon(&icon);
                proof {
                    assert(resolves_to(icon@, opt_icon_model(resolved)));
                }
                self.upsert(address, resolved);
            },
            OutputEvent::Remove { address } => {
                self.remove(&address);
            },
            OutputEvent::Tick => {},
        }
    }
}

/// Processing the same Add twice for one address equals processing it once:
/// the second pass writes back the same icon and preserves the hover flag
/// the first pass left in place.
pub proof fn lemma_upsert_idempotent(s: Seq<EntryModel>, a: Seq<char>, icon: Option<IconModel>)
    requires
        distinct_addresses(s),
    ensures
        spec_upsert(spec_upsert(s, a, icon), a, icon) == spec_upsert(s, a, icon),
{
    let s1 = spec_upsert(s, a, icon);
    if has_address(s, a) {
        let i = address_index(s, a);
        assert(0 <= i < s.len() && s[i].address == a);
        assert forall|p: int, q: int|
            0 <= p < q < s1.len() implies s1[p].address != s1[q].address by {
            assert(s1[p].address == s[p].address);
            assert(s1[q].address == s[q].address);
        }
        lemma_address_index_unique(s1, a, i);
        assert(s1[i] == (EntryModel { address: a, icon, hovered: s[i].hovered }));
        assert(spec_upsert(s1, a, icon) =~= s1);
    } else {
        let n = s.len() as int;
        assert(s1[n].address == a);
        assert forall|p: int, q: int|
            0 <= p < q < s1.len() implies s1[p].address != s1[q].address by {
            if q < n {
                assert(s1[p].address == s[p].address);
                assert(s1[q].address == s[q].address);
            } else {
                assert(s1[q].address == a);
                if p < n {
                    assert(s1[p].address == s[p].address);
                    assert(!(s[p].address == a));
                }
            }
        }
        lemma_address_index_unique(s1, a, n);
        assert(s1[n] == (EntryModel { address: a, icon, hovered: false }));
        assert(spec_upsert(s1, a, icon) =~= s1);
    }
}

} // verus!

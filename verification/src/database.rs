//! The link table and its repository contract.
//!
//! `LinkStore` is the model of the persistent store that the resolver
//! and the administrative handlers are written against: one row per link,
//! names unique, identifiers assigned by the store and never reused within
//! a run, and a usage counter that only the resolver's increment operation
//! may touch. Every operation is single-row, as the pipeline requires.

use vstd::prelude::*;

verus! {

/// Mathematical view of a stored link row.
#[verifier::ext_equal]
pub ghost struct LinkV {
    pub id: int,
    pub name: Seq<char>,
    pub link: Seq<char>,
    pub enabled: bool,
    pub times_used: int,
}

/// Mathematical view of the whole table, plus the next identifier the
/// store will assign.
#[verifier::ext_equal]
pub ghost struct StoreV {
    pub links: Seq<LinkV>,
    pub next_id: int,
}

/// A persisted link row.
pub struct Link {
    pub id: i32,
    pub name: String,
    pub link: String,
    pub enabled: bool,
    pub times_used: i32,
}

impl View for Link {
    type V = LinkV;

    open spec fn view(&self) -> LinkV {
        LinkV {
            id: self.id as int,
            name: self.name@,
            link: self.link@,
            enabled: self.enabled,
            times_used: self.times_used as int,
        }
    }
}

impl Link {
    /// An identical copy of the row.
    pub fn duplicate(&self) -> (r: Link)
        ensures
            r@ == self@,
    {
        Link {
            id: self.id,
            name: self.name.clone(),
            link: self.link.clone(),
            enabled: self.enabled,
            times_used: self.times_used,
        }
    }
}

/// Input for creating a link: the short name and the destination.
pub struct NewLink {
    pub name: String,
    pub link: String,
}

/// Mathematical view of a partial changeset.
#[verifier::ext_equal]
pub ghost struct UpdatableLinkV {
    pub name: Option<Seq<char>>,
    pub link: Option<Seq<char>>,
    pub enabled: Option<bool>,
}

/// A partial changeset: only the fields that are present are applied.
pub struct UpdatableLink {
    pub name: Option<String>,
    pub link: Option<String>,
    pub enabled: Option<bool>,
}

impl View for UpdatableLink {
    type V = UpdatableLinkV;

    open spec fn view(&self) -> UpdatableLinkV {
        UpdatableLinkV {
            name: match self.name {
                Some(n) => Some(n@),
                None => None,
            },
            link: match self.link {
                Some(l) => Some(l@),
                None => None,
            },
            enabled: self.enabled,
        }
    }
}

/// View of a sequence of rows.
pub open spec fn links_seq_view(s: Seq<Link>) -> Seq<LinkV> {
    Seq::new(s.len(), |i: int| s[i]@)
}

/// Row `i` of `s` carries the short name `name`.
pub open spec fn name_at(s: Seq<LinkV>, name: Seq<char>, i: int) -> bool {
    0 <= i < s.len() && s[i].name == name
}

/// Some row of `s` carries the short name `name`.
pub open spec fn has_name(s: Seq<LinkV>, name: Seq<char>) -> bool {
    exists|i: int| #[trigger] name_at(s, name, i)
}

/// Row `i` of `s` carries the identifier `id`.
pub open spec fn id_at(s: Seq<LinkV>, id: int, i: int) -> bool {
    0 <= i < s.len() && s[i].id == id
}

/// Some row of `s` carries the identifier `id`.
pub open spec fn has_id(s: Seq<LinkV>, id: int) -> bool {
    exists|i: int| #[trigger] id_at(s, id, i)
}

/// The position of the row carrying `id`; meaningful only when
/// `has_id(s, id)` holds and identifiers are unique.
pub open spec fn idx_of_id(s: Seq<LinkV>, id: int) -> int {
    choose|i: int| #[trigger] id_at(s, id, i)
}

/// The position of the row named `name`; meaningful only when
/// `has_name(s, name)` holds and names are unique.
pub open spec fn idx_of_name(s: Seq<LinkV>, name: Seq<char>) -> int {
    choose|i: int| #[trigger] name_at(s, name, i)
}

/// Some row other than the one with identifier `id` carries `name`.
pub open spec fn name_taken_by_other(s: Seq<LinkV>, name: Seq<char>, id: int) -> bool {
    exists|j: int| 0 <= j < s.len() && #[trigger] s[j].name == name && s[j].id != id
}

/// The store's invariant: names unique, identifiers unique and below the
/// next one to be assigned, counters within machine bounds.
pub open spec fn store_wf(s: StoreV) -> bool {
    &&& forall|i: int, j: int|
        0 <= i < j < s.links.len() ==> #[trigger] s.links[i].name != #[trigger] s.links[j].name
    &&& forall|i: int, j: int|
        0 <= i < j < s.links.len() ==> #[trigger] s.links[i].id != #[trigger] s.links[j].id
    &&& forall|i: int|
        0 <= i < s.links.len() ==> 1 <= (#[trigger] s.links[i]).id < s.next_id && 0
            <= s.links[i].times_used <= i32::MAX
    &&& 1 <= s.next_id <= i32::MAX
}

/// Creation succeeds exactly when the name is free and an identifier can
/// still be assigned.
pub open spec fn can_insert(s: StoreV, name: Seq<char>) -> bool {
    !has_name(s.links, name) && s.next_id < i32::MAX
}

/// The row a successful creation appends: enabled, never used.
pub open spec fn fresh_link(s: StoreV, name: Seq<char>, link: Seq<char>) -> LinkV {
    LinkV { id: s.next_id, name: name, link: link, enabled: true, times_used: 0 }
}

/// The store after a successful creation.
pub open spec fn insert_effect(s: StoreV, name: Seq<char>, link: Seq<char>) -> StoreV {
    StoreV { links: s.links.push(fresh_link(s, name, link)), next_id: s.next_id + 1 }
}

/// One store-atomic usage increment, saturating at the machine bound.
pub open spec fn bump(t: int) -> int {
    if t < i32::MAX {
        t + 1
    } else {
        t
    }
}

/// The store after the row at `i` had its usage counter incremented.
pub open spec fn bump_at(s: StoreV, i: int) -> StoreV {
    StoreV {
        links: s.links.update(
            i,
            LinkV { times_used: bump(s.links[i].times_used), ..s.links[i] },
        ),
        next_id: s.next_id,
    }
}

/// The row `l` with the present fields of changeset `c` applied; the
/// identifier and the usage counter are never touched by an update.
pub open spec fn apply_changeset(l: LinkV, c: UpdatableLinkV) -> LinkV {
    LinkV {
        id: l.id,
        name: match c.name {
            Some(n) => n,
            None => l.name,
        },
        link: match c.link {
            Some(k) => k,
            None => l.link,
        },
        enabled: match c.enabled {
            Some(e) => e,
            None => l.enabled,
        },
        times_used: l.times_used,
    }
}

/// The store after the row at `i` was replaced by `l`.
pub open spec fn set_at(s: StoreV, i: int, l: LinkV) -> StoreV {
    StoreV { links: s.links.update(i, l), next_id: s.next_id }
}

/// The store after the row at `i` was removed.
pub open spec fn remove_at(s: StoreV, i: int) -> StoreV {
    StoreV { links: s.links.remove(i), next_id: s.next_id }
}

/// A failure of a single-row store operation, as the pipeline sees it.
#[derive(Debug)]
pub enum StoreError {
    /// No row carries the given identifier or name.
    NotFound,
    /// The name is already taken by another row.
    UniqueViolation,
    /// The store itself failed (for this model: no identifier left).
    Storage,
}

/// The link table.
pub struct LinkStore {
    links: Vec<Link>,
    next_id: i32,
}

impl View for LinkStore {
    type V = StoreV;

    closed spec fn view(&self) -> StoreV {
        StoreV { links: links_seq_view(self.links@), next_id: self.next_id as int }
    }
}

impl LinkStore {
    /// An empty table; the first assigned identifier is 1.
    pub fn new() -> (r: LinkStore)
        ensures
            r@.links =~= Seq::<LinkV>::empty(),
            r@.next_id == 1,
            store_wf(r@),
    {
        let r = LinkStore { links: Vec::new(), next_id: 1 };
        proof {
            assert(r@.links =~= Seq::<LinkV>::empty());
        }
        r
    }

    /// The number of rows.
    pub fn len(&self) -> (r: usize)
        ensures
            r == self@.links.len(),
    {
        self.links.len()
    }

    /// The position of the row named `name`, if any.
    pub fn find_index_by_name(&self, name: &String) -> (r: Option<usize>)
        ensures
            match r {
                Some(i) => name_at(self@.links, name@, i as int),
                None => !has_name(self@.links, name@),
            },
    {
        let mut idx: usize = 0;
        while idx < self.links.len()
            invariant
                idx <= self.links.len(),
                forall|k: int| 0 <= k < idx ==> !name_at(self@.links, name@, k),
            decreases self.links.len() - idx,
        {
            if self.links[idx].name == *name {
                return Some(idx);
            }
            idx = idx + 1;
        }
        proof {
            assert forall|i: int| !name_at(self@.links, name@, i) by {
                if 0 <= i < self@.links.len() {
                    assert(!name_at(self@.links, name@, i));
                }
            }
        }
        None
    }

    /// The position of the row with identifier `link_id`, if any.
    pub fn find_index_by_id(&self, link_id: i32) -> (r: Option<usize>)
        ensures
            match r {
                Some(i) => id_at(self@.links, link_id as int, i as int),
                None => !has_id(self@.links, link_id as int),
            },
    {
        let mut idx: usize = 0;
        while idx < self.links.len()
            invariant
                idx <= self.links.len(),
                forall|k: int| 0 <= k < idx ==> !id_at(self@.links, link_id as int, k),
            decreases self.links.len() - idx,
        {
            if self.links[idx].id == link_id {
                return Some(idx);
            }
            idx = idx + 1;
        }
        proof {
            assert forall|i: int| !id_at(self@.links, link_id as int, i) by {
                if 0 <= i < self@.links.len() {
                    assert(!id_at(self@.links, link_id as int, i));
                }
            }
        }
        None
    }

    /// A copy of the row at position `i`.
    pub fn link_at(&self, i: usize) -> (r: Link)
        requires
            i < self@.links.len(),
        ensures
            r@ == self@.links[i as int],
    {
        self.links[i].duplicate()
    }

    /// A copy of the row named `name`, if any: the lookup every redirect
    /// attempt performs.
    pub fn find_by_name(&self, name: &String) -> (r: Option<Link>)
        ensures
            match r {
                Some(l) => exists|i: int| #[trigger] name_at(self@.links, name@, i)
                    && self@.links[i] == l@,
                None => !has_name(self@.links, name@),
            },
    {
        match self.find_index_by_name(name) {
            Some(i) => Some(self.links[i].duplicate()),
            None => None,
        }
    }

    /// Copies of all rows, in table order: what a listing returns.
    pub fn list(&self) -> (r: Vec<Link>)
        ensures
            links_seq_view(r@) =~= self@.links,
    {
        let mut out: Vec<Link> = Vec::new();
        let mut idx: usize = 0;
        while idx < self.links.len()
            invariant
                idx <= self.links.len(),
                links_seq_view(out@) =~= self@.links.subrange(0, idx as int),
            decreases self.links.len() - idx,
        {
            let ghost prev_out = out@;
            let copy = self.links[idx].duplicate();
            out.push(copy);
            proof {
                assert(links_seq_view(prev_out).len() == prev_out.len());
                assert(prev_out.len() == idx as int);
                assert(out@ == prev_out.push(copy));
                assert forall|k: int| 0 <= k < out@.len() implies links_seq_view(out@)[k]
                    == self@.links.subrange(0, idx as int + 1)[k] by {
                    assert(links_seq_view(out@)[k] == out@[k]@);
                    if k < idx as int {
                        assert(out@[k] == prev_out[k]);
                        assert(links_seq_view(prev_out)[k] == prev_out[k]@);
                    } else {
                        assert(out@[k] == copy);
                        assert(self@.links[idx as int] == self.links@[idx as int]@);
                    }
                }
                assert(links_seq_view(out@) =~= self@.links.subrange(0, idx as int + 1));
            }
            idx = idx + 1;
        }
        proof {
            assert(self@.links.subrange(0, self@.links.len() as int) =~= self@.links);
        }
        out
    }

    /// Insert a new row. The store enforces name uniqueness and assigns
    /// the identifier; a fresh row is enabled and never used.
    pub fn insert(&mut self, new_link: NewLink) -> (r: Result<Link, StoreError>)
        requires
            store_wf(old(self)@),
        ensures
            store_wf(final(self)@),
            match r {
                Ok(l) => can_insert(old(self)@, new_link.name@) && final(self)@ == insert_effect(
                    old(self)@,
                    new_link.name@,
                    new_link.link@,
                ) && l@ == fresh_link(old(self)@, new_link.name@, new_link.link@),
                Err(StoreError::UniqueViolation) => has_name(old(self)@.links, new_link.name@)
                    && final(self)@ == old(self)@,
                Err(StoreError::Storage) => !has_name(old(self)@.links, new_link.name@) && old(self)@.next_id == i32::MAX && final(self)@ == old(self)@,
                Err(StoreError::NotFound) => false,
            },
    {
        if self.find_index_by_name(&new_link.name).is_some() {
            return Err(StoreError::UniqueViolation);
        }
        if self.next_id == i32::MAX {
            return Err(StoreError::Storage);
        }
        let row = Link {
            id: self.next_id,
            name: new_link.name,
            link: new_link.link,
            enabled: true,
            times_used: 0,
        };
        let copy = row.duplicate();
        let ghost prev = self@;
        self.links.push(row);
        self.next_id = self.next_id + 1;
        proof {
            assert(self@.links =~= prev.links.push(copy@));
            assert(self@ =~= insert_effect(prev, copy@.name, copy@.link));
            assert forall|i: int, j: int|
                0 <= i < j < self@.links.len() implies #[trigger] self@.links[i].name
                != #[trigger] self@.links[j].name by {
                if j == prev.links.len() {
                    assert(!name_at(prev.links, copy@.name, i));
                }
            }
            assert forall|i: int, j: int|
                0 <= i < j < self@.links.len() implies #[trigger] self@.links[i].id
                != #[trigger] self@.links[j].id by {
                if j == prev.links.len() {
                    assert(prev.links[i].id < prev.next_id);
                }
            }
        }
        Ok(copy)
    }

    /// Apply a changeset to the row with identifier `link_id`. Only the
    /// present fields change; the usage counter is never touched. Renaming
    /// onto a name held by another row is a uniqueness conflict.
    pub fn update(&mut self, link_id: i32, changeset: UpdatableLink) -> (r: Result<
        (),
        StoreError,
    >)
        requires
            store_wf(old(self)@),
        ensures
            store_wf(final(self)@),
            match r {
                Ok(()) => has_id(old(self)@.links, link_id as int) && (match changeset@.name {
                    Some(n) => !name_taken_by_other(old(self)@.links, n, link_id as int),
                    None => true,
                }) && final(self)@ == set_at(
                    old(self)@,
                    idx_of_id(old(self)@.links, link_id as int),
                    apply_changeset(
                        old(self)@.links[idx_of_id(old(self)@.links, link_id as int)],
                        changeset@,
                    ),
                ),
                Err(StoreError::NotFound) => !has_id(old(self)@.links, link_id as int) && final(self)@ == old(self)@,
                Err(StoreError::UniqueViolation) => has_id(old(self)@.links, link_id as int) && (
                match changeset@.name {
                    Some(n) => name_taken_by_other(old(self)@.links, n, link_id as int),
                    None => false,
                }) && final(self)@ == old(self)@,
                Err(StoreError::Storage) => false,
            },
    {
        let idx = match self.find_index_by_id(link_id) {
            Some(i) => i,
            None => {
                return Err(StoreError::NotFound);
            },
        };
        proof {
            assert(id_at(self@.links, link_id as int, idx as int));
            assert forall|k: int| id_at(self@.links, link_id as int, k) implies k
                == idx as int by {
                if k != idx as int {
                    if k < idx as int {
                        assert(self@.links[k].id != self@.links[idx as int].id);
                    } else {
                        assert(self@.links[idx as int].id != self@.links[k].id);
                    }
                }
            }
            assert(idx_of_id(self@.links, link_id as int) == idx as int);
        }
        if let Some(n) = &changeset.name {
            match self.find_index_by_name(n) {
                Some(j) => {
                    if self.links[j].id != link_id {
                        proof {
                            assert(self@.links[j as int].name == n@ && self@.links[j as int].id
                                != link_id as int);
                        }
                        return Err(StoreError::UniqueViolation);
                    }
                    proof {
                        assert forall|k: int|
                            0 <= k < self@.links.len() && #[trigger] self@.links[k].name == n@
                            implies self@.links[k].id == link_id as int by {
                            if k != j as int {
                                if k < j as int {
                                    assert(self@.links[k].name != self@.links[j as int].name);
                                } else {
                                    assert(self@.links[j as int].name != self@.links[k].name);
                                }
                            }
                        }
                    }
                },
                None => {
                    proof {
                        assert forall|k: int|
                            0 <= k < self@.links.len() && #[trigger] self@.links[k].name == n@
                            implies false by {
                            assert(name_at(self@.links, n@, k));
                        }
                    }
                },
            }
        }
        let ghost prev = self@;
        let row = self.links.remove(idx);
        let new_row = Link {
            id: row.id,
            name: match changeset.name {
                Some(n) => n,
                None => row.name,
            },
            link: match changeset.link {
                Some(l) => l,
                None => row.link,
            },
            enabled: match changeset.enabled {
                Some(e) => e,
                None => row.enabled,
            },
            times_used: row.times_used,
        };
        self.links.insert(idx, new_row);
        proof {
            let updated = apply_changeset(prev.links[idx as int], changeset@);
            assert(self@.links =~= prev.links.update(idx as int, updated));
            assert(self@ =~= set_at(prev, idx as int, updated));
            assert forall|i: int, j: int|
                0 <= i < j < self@.links.len() implies #[trigger] self@.links[i].name
                != #[trigger] self@.links[j].name by {
                if i == idx as int || j == idx as int {
                    let other = if i == idx as int { j } else { i };
                    assert(self@.links[other] == prev.links[other]);
                    if changeset@.name is None {
                        assert(updated.name == prev.links[idx as int].name);
                    }
                }
            }
        }
        Ok(())
    }

    /// Remove the row with identifier `link_id`.
    pub fn delete(&mut self, link_id: i32) -> (r: Result<(), StoreError>)
        requires
            store_wf(old(self)@),
        ensures
            store_wf(final(self)@),
            match r {
                Ok(()) => has_id(old(self)@.links, link_id as int) && final(self)@ == remove_at(
                    old(self)@,
                    idx_of_id(old(self)@.links, link_id as int),
                ),
                Err(StoreError::NotFound) => !has_id(old(self)@.links, link_id as int) && final(self)@ == old(self)@,
                _ => false,
            },
    {
        let idx = match self.find_index_by_id(link_id) {
            Some(i) => i,
            None => {
                return Err(StoreError::NotFound);
            },
        };
        proof {
            assert forall|k: int| id_at(self@.links, link_id as int, k) implies k
                == idx as int by {
                if k != idx as int {
                    if k < idx as int {
                        assert(self@.links[k].id != self@.links[idx as int].id);
                    } else {
                        assert(self@.links[idx as int].id != self@.links[k].id);
                    }
                }
            }
            assert(idx_of_id(self@.links, link_id as int) == idx as int);
        }
        let ghost prev = self@;
        self.links.remove(idx);
        proof {
            assert(self@.links =~= prev.links.remove(idx as int));
            assert(self@ =~= remove_at(prev, idx as int));
        }
        Ok(())
    }

    /// Increment the usage counter of the row with identifier `link_id`:
    /// one store-atomic `times_used + 1`, saturating only at the machine
    /// bound. This is the sole operation that ever changes the counter.
    pub fn increment_usage(&mut self, link_id: i32) -> (r: Result<(), StoreError>)
        requires
            store_wf(old(self)@),
        ensures
            store_wf(final(self)@),
            match r {
                Ok(()) => has_id(old(self)@.links, link_id as int) && final(self)@ == bump_at(
                    old(self)@,
                    idx_of_id(old(self)@.links, link_id as int),
                ),
                Err(StoreError::NotFound) => !has_id(old(self)@.links, link_id as int) && final(self)@ == old(self)@,
                _ => false,
            },
    {
        let idx = match self.find_index_by_id(link_id) {
            Some(i) => i,
            None => {
                return Err(StoreError::NotFound);
            },
        };
        proof {
            assert forall|k: int| id_at(self@.links, link_id as int, k) implies k
                == idx as int by {
                if k != idx as int {
                    if k < idx as int {
                        assert(self@.links[k].id != self@.links[idx as int].id);
                    } else {
                        assert(self@.links[idx as int].id != self@.links[k].id);
                    }
                }
            }
            assert(idx_of_id(self@.links, link_id as int) == idx as int);
        }
        let ghost prev = self@;
        let row = self.links.remove(idx);
        let new_times: i32 = if row.times_used < i32::MAX {
            row.times_used + 1
        } else {
            row.times_used
        };
        let new_row = Link {
            id: row.id,
            name: row.name,
            link: row.link,
            enabled: row.enabled,
            times_used: new_times,
        };
        self.links.insert(idx, new_row);
        proof {
            let updated = LinkV {
                times_used: bump(prev.links[idx as int].times_used),
                ..prev.links[idx as int]
            };
            assert(self@.links =~= prev.links.update(idx as int, updated));
            assert(self@ =~= bump_at(prev, idx as int));
            assert forall|i: int, j: int|
                0 <= i < j < self@.links.len() implies #[trigger] self@.links[i].name
                != #[trigger] self@.links[j].name by {}
        }
        Ok(())
    }
}

} // verus!

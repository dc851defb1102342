//! The incremental filter: which site identifiers are already fully stored,
//! and which are stored but still lack their photo.

use crate::text::texts;
use vstd::prelude::*;
use vstd::seq_lib::seq_to_set_is_finite;

verus! {

/// What the store knows of one recently stored person: the identity of the
/// row, the site identifier and the address of the stored photo.
#[derive(Debug)]
pub struct RecentRow {
    pub id: i32,
    pub scil_sysid: Option<String>,
    pub img_url: Option<String>,
}

/// What a `RecentRow` is, with its texts as sequences of characters.
pub ghost struct RecentRowModel {
    pub id: i32,
    pub scil_sysid: Option<Seq<char>>,
    pub img_url: Option<Seq<char>>,
}

impl View for RecentRow {
    type V = RecentRowModel;

    open spec fn view(&self) -> RecentRowModel {
        RecentRowModel {
            id: self.id,
            scil_sysid: self.scil_sysid.deep_view(),
            img_url: self.img_url.deep_view(),
        }
    }
}

/// The views of a list of rows.
pub open spec fn row_models(rows: Seq<RecentRow>) -> Seq<RecentRowModel> {
    Seq::new(rows.len(), |i: int| rows[i]@)
}

/// Whether a row has a photo address that is not empty.
pub open spec fn has_image(row: RecentRowModel) -> bool {
    row.img_url is Some && row.img_url->Some_0.len() > 0
}

/// The site identifiers that need nothing more: those of the rows that have
/// a photo. A row without a site identifier contributes nothing.
pub open spec fn synchronized_keys(rows: Seq<RecentRowModel>) -> Set<Seq<char>>
    decreases rows.len(),
{
    if rows.len() == 0 {
        Set::<Seq<char>>::empty()
    } else {
        let row = rows.last();
        if row.scil_sysid is Some && has_image(row) {
            synchronized_keys(rows.drop_last()).insert(row.scil_sysid->Some_0)
        } else {
            synchronized_keys(rows.drop_last())
        }
    }
}

/// The site identifiers that still need their photo, each with the identity
/// of its row: those of the rows that have no photo. A row without a site
/// identifier contributes nothing; of two rows with one site identifier the
/// later one of the list gives the identity.
pub open spec fn backfill_ids(rows: Seq<RecentRowModel>) -> Map<Seq<char>, i32>
    decreases rows.len(),
{
    if rows.len() == 0 {
        Map::<Seq<char>, i32>::empty()
    } else {
        let row = rows.last();
        if row.scil_sysid is Some && !has_image(row) {
            backfill_ids(rows.drop_last()).insert(row.scil_sysid->Some_0, row.id)
        } else {
            backfill_ids(rows.drop_last())
        }
    }
}

/// The site identifiers that are already fully stored and are skipped.
pub struct Blacklist {
    keys: Vec<String>,
}

impl View for Blacklist {
    type V = Set<Seq<char>>;

    closed spec fn view(&self) -> Set<Seq<char>> {
        Set::new(|k: Seq<char>| exists|i: int| 0 <= i < self.keys@.len() && self.keys@[i]@ == k)
    }
}

impl Blacklist {
    /// No identifier is held twice.
    #[verifier::type_invariant]
    spec fn distinct(&self) -> bool {
        forall|i: int, j: int| 0 <= i < j < self.keys@.len() ==> self.keys@[i]@ != self.keys@[j]@
    }

    /// A list that holds nothing.
    pub fn new() -> (list: Blacklist)
        ensures
            list@ == Set::<Seq<char>>::empty(),
    {
        let list = Blacklist { keys: Vec::new() };
        assert(list@ =~= Set::<Seq<char>>::empty());
        list
    }

    /// Whether the list holds an identifier.
    pub fn contains(&self, key: &str) -> (held: bool)
        ensures
            held == self@.contains(key@),
    {
        let wanted = key.to_string();
        let mut i: usize = 0;
        while i < self.keys.len()
            invariant
                i <= self.keys.len(),
                wanted@ == key@,
                forall|k: int| 0 <= k < i ==> self.keys@[k]@ != key@,
            decreases self.keys.len() - i,
        {
            if self.keys[i].eq(&wanted) {
                return true;
            }
            i += 1;
        }
        false
    }

    /// The list with one more identifier; one that is already held changes
    /// nothing.
    pub fn insert(self, key: String) -> (list: Blacklist)
        ensures
            list@ == self@.insert(key@),
    {
        if self.contains(key.as_str()) {
            assert(self@.insert(key@) =~= self@);
            return self;
        }
        proof {
            use_type_invariant(&self);
        }
        let ghost before = self.keys@;
        let mut keys = self.keys;
        keys.push(key);
        let list = Blacklist { keys };
        assert(list@ =~= self@.insert(key@)) by {
            assert forall|k: Seq<char>| list@.contains(k) <==> self@.insert(key@).contains(k) by {
                if list@.contains(k) {
                    let i = choose|i: int| 0 <= i < list.keys@.len() && list.keys@[i]@ == k;
                    if i < before.len() {
                        assert(before[i]@ == k);
                    }
                }
                if self@.contains(k) {
                    let i = choose|i: int| 0 <= i < before.len() && before[i]@ == k;
                    assert(list.keys@[i]@ == k);
                }
                if k == key@ {
                    assert(list.keys@[before.len() as int]@ == k);
                }
            }
        }
        list
    }

    /// How many identifiers the list holds.
    pub fn count(&self) -> (n: usize)
        ensures
            self@.finite(),
            n == self@.len(),
    {
        proof {
            use_type_invariant(self);
            let names = texts(self.keys@);
            assert(self@ =~= names.to_set()) by {
                assert forall|k: Seq<char>| self@.contains(k) <==> names.to_set().contains(k) by {
                    if self@.contains(k) {
                        let i = choose|i: int| 0 <= i < self.keys@.len() && self.keys@[i]@ == k;
                        assert(names[i] == k);
                    }
                    if names.contains(k) {
                        let i = choose|i: int| 0 <= i < names.len() && names[i] == k;
                        assert(self.keys@[i]@ == k);
                    }
                }
            }
            assert(names.no_duplicates());
            names.unique_seq_to_set();
            seq_to_set_is_finite(names);
        }
        self.keys.len()
    }
}

/// The site identifiers that are stored without their photo, each with the
/// identity of its row.
pub struct Updatelist {
    entries: Vec<(String, i32)>,
}

impl View for Updatelist {
    type V = Map<Seq<char>, i32>;

    closed spec fn view(&self) -> Map<Seq<char>, i32> {
        Map::new(
            |k: Seq<char>| exists|i: int| 0 <= i < self.entries@.len() && self.entries@[i].0@ == k,
            |k: Seq<char>|
                self.entries@[choose|i: int|
                    0 <= i < self.entries@.len() && self.entries@[i].0@ == k].1,
        )
    }
}

impl Updatelist {
    /// No identifier is held twice.
    #[verifier::type_invariant]
    spec fn distinct(&self) -> bool {
        forall|i: int, j: int|
            0 <= i < j < self.entries@.len() ==> self.entries@[i].0@ != self.entries@[j].0@
    }

    /// A list that holds nothing.
    pub fn new() -> (list: Updatelist)
        ensures
            list@ == Map::<Seq<char>, i32>::empty(),
    {
        let list = Updatelist { entries: Vec::new() };
        assert(list@ =~= Map::<Seq<char>, i32>::empty());
        list
    }

    /// Where an identifier stands in the list, if it is held.
    fn position(&self, key: &str) -> (at: Option<usize>)
        ensures
            match at {
                Some(i) => i < self.entries@.len() && self.entries@[i as int].0@ == key@,
                None => forall|k: int| 0 <= k < self.entries@.len() ==> self.entries@[k].0@ != key@,
            },
    {
        let wanted = key.to_string();
        let mut i: usize = 0;
        while i < self.entries.len()
            invariant
                i <= self.entries.len(),
                wanted@ == key@,
                forall|k: int| 0 <= k < i ==> self.entries@[k].0@ != key@,
            decreases self.entries.len() - i,
        {
            if self.entries[i].0.eq(&wanted) {
                return Some(i);
            }
            i += 1;
        }
        None
    }

    /// The row identity held for an identifier, if any.
    pub fn get(&self, key: &str) -> (id: Option<i32>)
        ensures
            id == if self@.dom().contains(key@) {
                Some(self@[key@])
            } else {
                None
            },
    {
        proof {
            use_type_invariant(self);
        }
        match self.position(key) {
            Some(i) => {
                proof {
                    let j = choose|j: int|
                        0 <= j < self.entries@.len() && self.entries@[j].0@ == key@;
                    assert(j == i);
                }
                Some(self.entries[i].1)
            },
            None => None,
        }
    }

    /// The list with a row identity held for an identifier, in place of any
    /// that was held for it before.
    pub fn insert(self, key: String, id: i32) -> (list: Updatelist)
        ensures
            list@ == self@.insert(key@, id),
    {
        proof {
            use_type_invariant(&self);
        }
        let ghost before = self.entries@;
        let at = self.position(key.as_str());
        let mut entries = self.entries;
        match at {
            Some(i) => {
                entries.set(i, (key, id));
            },
            None => {
                entries.push((key, id));
            },
        }
        let list = Updatelist { entries };
        proof {
            let after = list.entries@;
            assert forall|k: Seq<char>| #[trigger]
                list@.dom().contains(k) <==> self@.insert(key@, id).dom().contains(k) by {
                if list@.dom().contains(k) {
                    let i = choose|i: int| 0 <= i < after.len() && after[i].0@ == k;
                    if k != key@ {
                        assert(before[i].0@ == k);
                    }
                }
                if self@.dom().contains(k) {
                    let i = choose|i: int| 0 <= i < before.len() && before[i].0@ == k;
                    assert(after[i].0@ == k);
                }
                if k == key@ {
                    if at is Some {
                        assert(after[at->Some_0 as int].0@ == k);
                    } else {
                        assert(after[before.len() as int].0@ == k);
                    }
                }
            }
            assert forall|k: Seq<char>| #[trigger]
                list@.dom().contains(k) implies list@[k] == self@.insert(key@, id)[k] by {
                let i = choose|i: int| 0 <= i < after.len() && after[i].0@ == k;
                if k != key@ {
                    let j = choose|j: int| 0 <= j < before.len() && before[j].0@ == k;
                    assert(before[i].0@ == k);
                    assert(i == j);
                }
            }
            assert(list@ =~= self@.insert(key@, id));
        }
        list
    }

    /// Whether the list holds nothing.
    pub fn is_empty(&self) -> (empty: bool)
        ensures
            empty == (self@ == Map::<Seq<char>, i32>::empty()),
    {
        proof {
            if self.entries@.len() > 0 {
                assert(self@.dom().contains(self.entries@[0].0@));
            } else {
                assert(self@ =~= Map::<Seq<char>, i32>::empty());
            }
        }
        self.entries.len() == 0
    }
}

/// Sorts the site identifiers of the most recently stored rows into those
/// that are fully stored and those that still need their photo.
///
/// A row whose photo address is present and not empty puts its identifier on
/// the blacklist: its page need not be fetched again. A row without a photo
/// address puts its identifier, with the identity of the row, on the
/// updatelist, so that a later pass can supply the photo without storing the
/// person twice. A row without a site identifier is on neither list.
pub fn get_blacklist_and_updatelist(recent_records: &Vec<RecentRow>) -> (lists: (
    Blacklist,
    Updatelist,
))
    ensures
        lists.0@ == synchronized_keys(row_models(recent_records@)),
        lists.1@ == backfill_ids(row_models(recent_records@)),
{
    let mut blacklist = Blacklist::new();
    let mut updatelist = Updatelist::new();
    let mut i: usize = 0;
    let ghost rows = row_models(recent_records@);
    assert(rows.take(0) =~= Seq::<RecentRowModel>::empty());
    while i < recent_records.len()
        invariant
            i <= recent_records.len(),
            rows == row_models(recent_records@),
            blacklist@ == synchronized_keys(rows.take(i as int)),
            updatelist@ == backfill_ids(rows.take(i as int)),
        decreases recent_records.len() - i,
    {
        let record = &recent_records[i];
        proof {
            let next = rows.take(i + 1);
            assert(next.drop_last() =~= rows.take(i as int));
            assert(next.last() == record@);
        }
        match &record.scil_sysid {
            Some(sys_id) => {
                let has_image = match &record.img_url {
                    None => false,
                    Some(url) => !url.as_str().is_empty(),
                };
                if has_image {
                    blacklist = blacklist.insert(sys_id.clone());
                } else {
                    updatelist = updatelist.insert(sys_id.clone(), record.id);
                }
            },
            None => {},
        }
        i += 1;
    }
    assert(rows.take(recent_records.len() as int) =~= rows);
    (blacklist, updatelist)
}

/// Whether a row carries a site identifier.
pub open spec fn carries(row: RecentRowModel, key: Seq<char>) -> bool {
    row.scil_sysid == Some(key)
}

/// An identifier is on the blacklist exactly if a row with a photo carries
/// it.
pub proof fn lemma_synchronized_keys(rows: Seq<RecentRowModel>, key: Seq<char>)
    ensures
        synchronized_keys(rows).contains(key) <==> exists|i: int|
            0 <= i < rows.len() && carries(#[trigger] rows[i], key) && has_image(rows[i]),
    decreases rows.len(),
{
    if rows.len() > 0 {
        let front = rows.drop_last();
        lemma_synchronized_keys(front, key);
        if synchronized_keys(rows).contains(key) {
            if synchronized_keys(front).contains(key) {
                let i = choose|i: int|
                    0 <= i < front.len() && carries(#[trigger] front[i], key) && has_image(
                        front[i],
                    );
                assert(carries(rows[i], key) && has_image(rows[i]));
            } else {
                assert(carries(rows[rows.len() - 1], key) && has_image(rows[rows.len() - 1]));
            }
        }
        if exists|i: int|
            0 <= i < rows.len() && carries(#[trigger] rows[i], key) && has_image(rows[i]) {
            let i = choose|i: int|
                0 <= i < rows.len() && carries(#[trigger] rows[i], key) && has_image(rows[i]);
            if i < rows.len() - 1 {
                assert(carries(front[i], key) && has_image(front[i]));
            }
        }
    }
}

/// An identifier is on the updatelist exactly if a row without a photo
/// carries it, and the identity held for it is that of such a row.
pub proof fn lemma_backfill_ids(rows: Seq<RecentRowModel>, key: Seq<char>)
    ensures
        backfill_ids(rows).dom().contains(key) <==> exists|i: int|
            0 <= i < rows.len() && carries(#[trigger] rows[i], key) && !has_image(rows[i]),
        backfill_ids(rows).dom().contains(key) ==> exists|i: int|
            0 <= i < rows.len() && carries(#[trigger] rows[i], key) && !has_image(rows[i])
                && rows[i].id == backfill_ids(rows)[key],
    decreases rows.len(),
{
    if rows.len() > 0 {
        let front = rows.drop_last();
        let last = rows.len() - 1;
        lemma_backfill_ids(front, key);
        if backfill_ids(rows).dom().contains(key) {
            if carries(rows[last], key) && !has_image(rows[last]) {
                assert(rows[last].id == backfill_ids(rows)[key]);
            } else {
                let i = choose|i: int|
                    0 <= i < front.len() && carries(#[trigger] front[i], key) && !has_image(
                        front[i],
                    ) && front[i].id == backfill_ids(front)[key];
                assert(carries(rows[i], key) && !has_image(rows[i]) && rows[i].id == backfill_ids(
                    rows,
                )[key]);
            }
        }
        if exists|i: int|
            0 <= i < rows.len() && carries(#[trigger] rows[i], key) && !has_image(rows[i]) {
            let i = choose|i: int|
                0 <= i < rows.len() && carries(#[trigger] rows[i], key) && !has_image(rows[i]);
            if i < last {
                assert(carries(front[i], key) && !has_image(front[i]));
            }
        }
    }
}

/// Where no two rows carry the same site identifier, the two lists part the
/// rows: a row that carries an identifier and has a photo is on the
/// blacklist and not on the updatelist; one that carries an identifier and
/// has no photo is on the updatelist, with its own identity, and not on the
/// blacklist; and nothing else is on either list, so a row without an
/// identifier is on neither.
pub proof fn lemma_filter_parts_rows(rows: Seq<RecentRowModel>)
    requires
        forall|i: int, j: int|
            0 <= i < j < rows.len() && (#[trigger] rows[i]).scil_sysid is Some
                ==> rows[i].scil_sysid != (#[trigger] rows[j]).scil_sysid,
    ensures
        synchronized_keys(rows).disjoint(backfill_ids(rows).dom()),
        forall|i: int|
            0 <= i < rows.len() && (#[trigger] rows[i]).scil_sysid is Some && has_image(rows[i])
                ==> synchronized_keys(rows).contains(rows[i].scil_sysid->Some_0),
        forall|i: int|
            0 <= i < rows.len() && (#[trigger] rows[i]).scil_sysid is Some && !has_image(rows[i])
                ==> backfill_ids(rows).dom().contains(rows[i].scil_sysid->Some_0) && backfill_ids(
                rows,
            )[rows[i].scil_sysid->Some_0] == rows[i].id,
        forall|key: Seq<char>|
            synchronized_keys(rows).contains(key) || backfill_ids(rows).dom().contains(key)
                ==> exists|i: int| 0 <= i < rows.len() && carries(#[trigger] rows[i], key),
{
    assert forall|key: Seq<char>|
        !(synchronized_keys(rows).contains(key) && backfill_ids(rows).dom().contains(key)) by {
        lemma_synchronized_keys(rows, key);
        lemma_backfill_ids(rows, key);
        if synchronized_keys(rows).contains(key) && backfill_ids(rows).dom().contains(key) {
            let i = choose|i: int|
                0 <= i < rows.len() && carries(#[trigger] rows[i], key) && has_image(rows[i]);
            let j = choose|j: int|
                0 <= j < rows.len() && carries(#[trigger] rows[j], key) && !has_image(rows[j]);
            if i < j {
                assert(rows[i].scil_sysid != rows[j].scil_sysid);
            } else {
                assert(rows[j].scil_sysid != rows[i].scil_sysid);
            }
        }
    }
    assert forall|i: int|
        0 <= i < rows.len() && (#[trigger] rows[i]).scil_sysid is Some && has_image(
            rows[i],
        ) implies synchronized_keys(rows).contains(rows[i].scil_sysid->Some_0) by {
        let key = rows[i].scil_sysid->Some_0;
        lemma_synchronized_keys(rows, key);
        assert(carries(rows[i], key));
    }
    assert forall|i: int|
        0 <= i < rows.len() && (#[trigger] rows[i]).scil_sysid is Some && !has_image(
            rows[i],
        ) implies backfill_ids(rows).dom().contains(rows[i].scil_sysid->Some_0) && backfill_ids(
        rows,
    )[rows[i].scil_sysid->Some_0] == rows[i].id by {
        let key = rows[i].scil_sysid->Some_0;
        lemma_backfill_ids(rows, key);
        assert(carries(rows[i], key));
        let j = choose|j: int|
            0 <= j < rows.len() && carries(#[trigger] rows[j], key) && !has_image(rows[j])
                && rows[j].id == backfill_ids(rows)[key];
        if i < j {
            assert(rows[i].scil_sysid != rows[j].scil_sysid);
        } else if j < i {
            assert(rows[j].scil_sysid != rows[i].scil_sysid);
        }
    }
    assert forall|key: Seq<char>|
        synchronized_keys(rows).contains(key) || backfill_ids(rows).dom().contains(
            key,
        ) implies exists|i: int| 0 <= i < rows.len() && carries(#[trigger] rows[i], key) by {
        lemma_synchronized_keys(rows, key);
        lemma_backfill_ids(rows, key);
        if synchronized_keys(rows).contains(key) {
            let i = choose|i: int|
                0 <= i < rows.len() && carries(#[trigger] rows[i], key) && has_image(rows[i]);
            assert(carries(rows[i], key));
        } else {
            let i = choose|i: int|
                0 <= i < rows.len() && carries(#[trigger] rows[i], key) && !has_image(rows[i]);
            assert(carries(rows[i], key));
        }
    }
}

} // verus!

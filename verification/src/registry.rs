//! The application registry.
//!
//! One reserved, singleton backend collection holds a record per registered
//! application: its generated id, its mutable display name, and the ordered
//! list of shard numbers it owns.  This module is the verified model of that
//! collection's contents and of every operation the layer performs on it;
//! the transport layer moves the same state over the wire.
//!
//! Every operation takes the health gate's verdict first and, when the
//! backend is down, short-circuits without touching anything.

use vstd::prelude::*;

use crate::ErrorKind;

verus! {

/// The mathematical image of one application record.
pub struct AppRecordModel {
    /// The generated application id.
    pub id: Seq<char>,
    /// The mutable display name.
    pub name: Seq<char>,
    /// The shard numbers this application owns, in allocation order.
    pub shards: Seq<u64>,
}

/// One application's record: its unique generated id, its display name, and
/// the shard numbers it owns.
pub struct ApplicationRecord {
    /// The generated id; unique, immutable, never reused.
    pub id: String,
    /// The display name; mutable.
    pub name: String,
    /// The shard numbers currently allocated to this application.
    pub shard_index_list: Vec<u64>,
}

impl View for ApplicationRecord {
    type V = AppRecordModel;

    open spec fn view(&self) -> AppRecordModel {
        AppRecordModel { id: self.id@, name: self.name@, shards: self.shard_index_list@ }
    }
}

impl ApplicationRecord {
    /// An owned copy of this record, equal in the model.
    pub fn duplicate(&self) -> (r: ApplicationRecord)
        ensures
            r@ == self@,
    {
        let r = ApplicationRecord {
            id: self.id.clone(),
            name: self.name.clone(),
            shard_index_list: copy_shards(&self.shard_index_list),
        };
        proof {
            assert(r@ == self@);
        }
        r
    }
}

/// An element-wise copy of a shard list.
fn copy_shards(v: &Vec<u64>) -> (r: Vec<u64>)
    ensures
        r@ == v@,
{
    let mut r: Vec<u64> = Vec::new();
    let mut i: usize = 0;
    while i < v.len()
        invariant
            i <= v@.len(),
            r@ == v@.subrange(0, i as int),
        decreases v@.len() - i,
    {
        r.push(v[i]);
        i = i + 1;
        proof {
            assert(r@ =~= v@.subrange(0, i as int));
        }
    }
    proof {
        assert(r@ =~= v@);
    }
    r
}

/// Character-wise string equality.
pub fn str_eq(a: &str, b: &str) -> (r: bool)
    ensures
        r == (a@ == b@),
{
    let n = a.unicode_len();
    let m = b.unicode_len();
    if n != m {
        proof {
            if a@ == b@ {
                assert(a@.len() == b@.len());
            }
        }
        return false;
    }
    let mut i: usize = 0;
    while i < n
        invariant
            n == a@.len(),
            n == b@.len(),
            i <= n,
            forall|k: int| 0 <= k < i ==> a@[k] == b@[k],
        decreases n - i,
    {
        if a.get_char(i) != b.get_char(i) {
            proof {
                if a@ == b@ {
                    assert(a@[i as int] == b@[i as int]);
                }
            }
            return false;
        }
        i = i + 1;
    }
    proof {
        assert(a@ =~= b@);
    }
    true
}

/// The position of the record with this id, or `-1` when there is none.
pub open spec fn idx_of(rs: Seq<AppRecordModel>, id: Seq<char>) -> int
    decreases rs.len(),
{
    if rs.len() == 0 {
        -1
    } else if rs[0].id == id {
        0
    } else {
        let r = idx_of(rs.drop_first(), id);
        if r < 0 {
            -1
        } else {
            r + 1
        }
    }
}

/// True when some record carries this id.
pub open spec fn contains_id(rs: Seq<AppRecordModel>, id: Seq<char>) -> bool {
    idx_of(rs, id) >= 0
}

/// No two records share an id.
pub open spec fn unique_ids(rs: Seq<AppRecordModel>) -> bool {
    forall|i: int, j: int| 0 <= i < j < rs.len() ==> (#[trigger] rs[i]).id != (#[trigger] rs[j]).id
}

/// What `idx_of` finds: the first record with the id, if any; `-1` exactly
/// when no record carries it.
pub proof fn lemma_idx_of(rs: Seq<AppRecordModel>, id: Seq<char>)
    ensures
        idx_of(rs, id) == -1 || 0 <= idx_of(rs, id) < rs.len(),
        idx_of(rs, id) >= 0 ==> rs[idx_of(rs, id)].id == id,
        forall|k: int|
            0 <= k < rs.len() && (#[trigger] rs[k]).id == id ==> idx_of(rs, id) >= 0 && idx_of(
                rs,
                id,
            ) <= k,
    decreases rs.len(),
{
    if rs.len() > 0 && rs[0].id != id {
        lemma_idx_of(rs.drop_first(), id);
        assert forall|k: int|
            0 <= k < rs.len() && (#[trigger] rs[k]).id == id implies idx_of(rs, id) >= 0 && idx_of(
            rs,
            id,
        ) <= k by {
            assert(k >= 1);
            assert(rs.drop_first()[k - 1] == rs[k]);
        }
    }
}

/// The singleton registry: the contents of the reserved backend collection
/// that maps application ids to their records.
pub struct Registry {
    records: Vec<ApplicationRecord>,
}

impl View for Registry {
    type V = Seq<AppRecordModel>;

    closed spec fn view(&self) -> Seq<AppRecordModel> {
        self.records@.map_values(|r: ApplicationRecord| r@)
    }
}

impl Registry {
    /// Well-formed: ids are unique, so a record is addressed unambiguously.
    pub open spec fn wf(&self) -> bool {
        unique_ids(self@)
    }

    /// The empty registry, as the reserved collection is created on first
    /// use.
    pub fn new() -> (r: Registry)
        ensures
            r@ == Seq::<AppRecordModel>::empty(),
            r.wf(),
    {
        let r = Registry { records: Vec::new() };
        proof {
            assert(r@ =~= Seq::<AppRecordModel>::empty());
        }
        r
    }

    /// How many applications are registered.
    pub fn count(&self) -> (n: usize)
        ensures
            n == self@.len(),
    {
        self.records.len()
    }

    /// The position of the record with this id.
    fn find(&self, id: &str) -> (r: Option<usize>)
        ensures
            match r {
                Option::Some(i) => 0 <= i < self@.len() && idx_of(self@, id@) == i as int,
                Option::None => idx_of(self@, id@) == -1,
            },
    {
        proof {
            lemma_idx_of(self@, id@);
        }
        let mut i: usize = 0;
        while i < self.records.len()
            invariant
                self@.len() == self.records@.len(),
                i <= self@.len(),
                forall|k: int| 0 <= k < i ==> (#[trigger] self@[k]).id != id@,
                idx_of(self@, id@) == -1 || 0 <= idx_of(self@, id@) < self@.len(),
                idx_of(self@, id@) >= 0 ==> self@[idx_of(self@, id@)].id == id@,
                forall|k: int|
                    0 <= k < self@.len() && (#[trigger] self@[k]).id == id@ ==> idx_of(
                        self@,
                        id@,
                    ) >= 0 && idx_of(self@, id@) <= k,
            decreases self@.len() - i,
        {
            assert(self@[i as int] == self.records@[i as int]@);
            if str_eq(self.records[i].id.as_str(), id) {
                return Some(i);
            }
            i = i + 1;
        }
        None
    }

    /// Registers a new application under a freshly generated id: inserts a
    /// record with the given display name and no shards.  Returns
    /// `Conflict`, and changes nothing, when the id is already taken --
    /// practically unreachable under correct id generation, but a real
    /// backend answer that is surfaced, never papered over.
    pub fn register(&mut self, server_up: bool, new_id: &str, name: &str) -> (r: Result<
        (),
        ErrorKind,
    >)
        requires
            old(self).wf(),
        ensures
            final(self).wf(),
            !server_up ==> r == Result::<(), ErrorKind>::Err(ErrorKind::BackendUnavailable)
                && final(self)@ == old(self)@,
            server_up && contains_id(old(self)@, new_id@) ==> r == Result::<(), ErrorKind>::Err(
                ErrorKind::Conflict,
            ) && final(self)@ == old(self)@,
            server_up && !contains_id(old(self)@, new_id@) ==> r is Ok && final(self)@ == old(
                self,
            )@.push(AppRecordModel { id: new_id@, name: name@, shards: Seq::empty() }),
    {
        if !server_up {
            return Err(ErrorKind::BackendUnavailable);
        }
        if self.find(new_id).is_some() {
            return Err(ErrorKind::Conflict);
        }
        let rec = ApplicationRecord {
            id: new_id.to_owned(),
            name: name.to_owned(),
            shard_index_list: Vec::new(),
        };
        proof {
            lemma_idx_of(self@, new_id@);
        }
        let ghost old_view = self@;
        self.records.push(rec);
        proof {
            let m = AppRecordModel { id: new_id@, name: name@, shards: Seq::empty() };
            assert(self@ =~= old_view.push(m));
            assert forall|i: int, j: int| 0 <= i < j < self@.len() implies (#[trigger] self@[i]).id != (
            #[trigger] self@[j]).id by {
                if j == self@.len() - 1 {
                    assert(self@[i] == old_view[i]);
                }
            }
        }
        Ok(())
    }

    /// Point lookup of one application's record.
    pub fn get(&self, server_up: bool, id: &str) -> (r: Result<ApplicationRecord, ErrorKind>)
        ensures
            !server_up ==> (r matches Err(e) && e == ErrorKind::BackendUnavailable),
            server_up && !contains_id(self@, id@) ==> (r matches Err(e) && e
                matches ErrorKind::NotFound(ent) && ent@ == id@),
            server_up && contains_id(self@, id@) ==> (r matches Ok(rec) && rec@ == self@[idx_of(
                self@,
                id@,
            )]),
    {
        if !server_up {
            return Err(ErrorKind::BackendUnavailable);
        }
        match self.find(id) {
            Some(i) => {
                assert(self@[i as int] == self.records@[i as int]@);
                Ok(self.records[i].duplicate())
            },
            None => Err(ErrorKind::NotFound(id.to_owned())),
        }
    }

    /// Updates only the display name of one application; the shard list and
    /// every other record stay untouched.
    pub fn update_name(&mut self, server_up: bool, id: &str, new_name: &str) -> (r: Result<
        (),
        ErrorKind,
    >)
        requires
            old(self).wf(),
        ensures
            final(self).wf(),
            !server_up ==> r == Result::<(), ErrorKind>::Err(ErrorKind::BackendUnavailable)
                && final(self)@ == old(self)@,
            server_up && !contains_id(old(self)@, id@) ==> (r matches Err(e) && e
                matches ErrorKind::NotFound(ent) && ent@ == id@) && final(self)@ == old(self)@,
            server_up && contains_id(old(self)@, id@) ==> r is Ok && final(self)@ == old(
                self,
            )@.update(
                idx_of(old(self)@, id@),
                AppRecordModel { name: new_name@, ..old(self)@[idx_of(old(self)@, id@)] },
            ),
    {
        if !server_up {
            return Err(ErrorKind::BackendUnavailable);
        }
        match self.find(id) {
            Some(i) => {
                let ghost old_view = self@;
                let ghost target = idx_of(old_view, id@);
                assert(self@[i as int] == self.records@[i as int]@);
                self.records[i].name = new_name.to_owned();
                proof {
                    assert(self@ =~= old_view.update(
                        target,
                        AppRecordModel { name: new_name@, ..old_view[target] },
                    ));
                    assert forall|x: int, y: int| 0 <= x < y < self@.len() implies (#[trigger] self@[x]).id != (
                    #[trigger] self@[y]).id by {
                        assert(old_view[x].id != old_view[y].id);
                        assert(self@[x].id == old_view[x].id);
                        assert(self@[y].id == old_view[y].id);
                    }
                }
                Ok(())
            },
            None => Err(ErrorKind::NotFound(id.to_owned())),
        }
    }

    /// The shard numbers one application owns.  A present record with an
    /// empty shard list answers `Ok` with the empty list; only a missing
    /// record is `NotFound`.
    pub fn list_owned_shards(&self, server_up: bool, id: &str) -> (r: Result<Vec<u64>, ErrorKind>)
        ensures
            !server_up ==> (r matches Err(e) && e == ErrorKind::BackendUnavailable),
            server_up && !contains_id(self@, id@) ==> (r matches Err(e) && e
                matches ErrorKind::NotFound(ent) && ent@ == id@),
            server_up && contains_id(self@, id@) ==> (r matches Ok(v) && v@ == self@[idx_of(
                self@,
                id@,
            )].shards),
    {
        if !server_up {
            return Err(ErrorKind::BackendUnavailable);
        }
        match self.find(id) {
            Some(i) => {
                assert(self@[i as int] == self.records@[i as int]@);
                Ok(copy_shards(&self.records[i].shard_index_list))
            },
            None => Err(ErrorKind::NotFound(id.to_owned())),
        }
    }

    /// Allocates one shard number to an application: appends it to the
    /// record's shard list unless the application already owns it.
    pub fn add_shard(&mut self, server_up: bool, id: &str, shard: u64) -> (r: Result<
        (),
        ErrorKind,
    >)
        requires
            old(self).wf(),
        ensures
            final(self).wf(),
            !server_up ==> r == Result::<(), ErrorKind>::Err(ErrorKind::BackendUnavailable)
                && final(self)@ == old(self)@,
            server_up && !contains_id(old(self)@, id@) ==> (r matches Err(e) && e
                matches ErrorKind::NotFound(ent) && ent@ == id@) && final(self)@ == old(self)@,
            server_up && contains_id(old(self)@, id@) ==> r is Ok && final(self)@ == old(
                self,
            )@.update(
                idx_of(old(self)@, id@),
                AppRecordModel {
                    shards: if old(self)@[idx_of(old(self)@, id@)].shards.contains(shard) {
                        old(self)@[idx_of(old(self)@, id@)].shards
                    } else {
                        old(self)@[idx_of(old(self)@, id@)].shards.push(shard)
                    },
                    ..old(self)@[idx_of(old(self)@, id@)]
                },
            ),
    {
        if !server_up {
            return Err(ErrorKind::BackendUnavailable);
        }
        match self.find(id) {
            Some(i) => {
                let ghost old_view = self@;
                let ghost target = idx_of(old_view, id@);
                assert(self@[i as int] == self.records@[i as int]@);
                let owned = contains_u64(&self.records[i].shard_index_list, shard);
                if !owned {
                    self.records[i].shard_index_list.push(shard);
                }
                proof {
                    let updated = AppRecordModel {
                        shards: if old_view[target].shards.contains(shard) {
                            old_view[target].shards
                        } else {
                            old_view[target].shards.push(shard)
                        },
                        ..old_view[target]
                    };
                    if owned {
                        assert(self@ =~= old_view.update(target, updated));
                    } else {
                        assert(self@ =~= old_view.update(target, updated));
                    }
                    assert forall|x: int, y: int| 0 <= x < y < self@.len() implies (#[trigger] self@[x]).id != (
                    #[trigger] self@[y]).id by {
                        assert(old_view[x].id != old_view[y].id);
                        assert(self@[x].id == old_view[x].id);
                        assert(self@[y].id == old_view[y].id);
                    }
                }
                Ok(())
            },
            None => Err(ErrorKind::NotFound(id.to_owned())),
        }
    }

    /// Removes one application's record.  This is the registry half of a
    /// deletion; the orchestrator runs it only after every owned shard's
    /// delete was attempted, so a record is never gone while its shards
    /// linger unreachable.
    pub fn delete_record(&mut self, server_up: bool, id: &str) -> (r: Result<(), ErrorKind>)
        requires
            old(self).wf(),
        ensures
            final(self).wf(),
            !server_up ==> r == Result::<(), ErrorKind>::Err(ErrorKind::BackendUnavailable)
                && final(self)@ == old(self)@,
            server_up && !contains_id(old(self)@, id@) ==> (r matches Err(e) && e
                matches ErrorKind::NotFound(ent) && ent@ == id@) && final(self)@ == old(self)@,
            server_up && contains_id(old(self)@, id@) ==> r is Ok && final(self)@ == old(
                self,
            )@.remove(idx_of(old(self)@, id@)),
    {
        if !server_up {
            return Err(ErrorKind::BackendUnavailable);
        }
        match self.find(id) {
            Some(i) => {
                let ghost old_view = self@;
                let ghost target = idx_of(old_view, id@);
                self.records.remove(i);
                proof {
                    assert(self@ =~= old_view.remove(target));
                    assert forall|x: int, y: int| 0 <= x < y < self@.len() implies (#[trigger] self@[x]).id != (
                    #[trigger] self@[y]).id by {
                        let ox = if x < target {
                            x
                        } else {
                            x + 1
                        };
                        let oy = if y < target {
                            y
                        } else {
                            y + 1
                        };
                        assert(self@[x].id == old_view[ox].id);
                        assert(self@[y].id == old_view[oy].id);
                        assert(old_view[ox].id != old_view[oy].id);
                    }
                }
                Ok(())
            },
            None => Err(ErrorKind::NotFound(id.to_owned())),
        }
    }
}

/// The registry lifecycle, over the models that the operations' contracts
/// use.  Registering a fresh id appends its record, and a lookup then finds
/// it, carrying the given name and no shards; renaming changes that record's
/// name and nothing else; deleting it afterwards restores the registry to
/// exactly its prior contents, so the id's record is gone.
pub proof fn lemma_registry_lifecycle(
    rs: Seq<AppRecordModel>,
    id: Seq<char>,
    name: Seq<char>,
    name2: Seq<char>,
)
    requires
        unique_ids(rs),
        !contains_id(rs, id),
    ensures
        ({
            let rs1 = rs.push(AppRecordModel { id: id, name: name, shards: Seq::empty() });
            let target = idx_of(rs1, id);
            let rs2 = rs1.update(target, AppRecordModel { name: name2, ..rs1[target] });
            let rs3 = rs2.remove(idx_of(rs2, id));
            &&& target == rs.len()
            &&& rs1[target].name == name
            &&& rs1[target].shards == Seq::<u64>::empty()
            &&& idx_of(rs2, id) == target
            &&& rs2[target].name == name2
            &&& rs2[target].shards == rs1[target].shards
            &&& rs3 == rs
            &&& !contains_id(rs3, id)
        }),
{
    lemma_idx_of(rs, id);
    let rs1 = rs.push(AppRecordModel { id: id, name: name, shards: Seq::empty() });
    lemma_idx_of(rs1, id);
    let l = rs.len() as int;
    assert(rs1[l].id == id);
    assert(idx_of(rs1, id) >= 0 && idx_of(rs1, id) <= l);
    if idx_of(rs1, id) < l {
        assert(rs1[idx_of(rs1, id)] == rs[idx_of(rs1, id)]);
        assert(false);
    }
    let target = idx_of(rs1, id);
    let rs2 = rs1.update(target, AppRecordModel { name: name2, ..rs1[target] });
    lemma_idx_of(rs2, id);
    assert(rs2[l].id == id);
    assert(idx_of(rs2, id) >= 0 && idx_of(rs2, id) <= l);
    if idx_of(rs2, id) < l {
        assert(rs2[idx_of(rs2, id)] == rs[idx_of(rs2, id)]);
        assert(false);
    }
    let rs3 = rs2.remove(idx_of(rs2, id));
    assert(rs3 =~= rs);
}

/// True when the list holds this shard number.
fn contains_u64(v: &Vec<u64>, x: u64) -> (r: bool)
    ensures
        r == v@.contains(x),
{
    let mut i: usize = 0;
    while i < v.len()
        invariant
            i <= v@.len(),
            forall|k: int| 0 <= k < i ==> v@[k] != x,
        decreases v@.len() - i,
    {
        if v[i] == x {
            return true;
        }
        i = i + 1;
    }
    proof {
        if v@.contains(x) {
            let k = choose|k: int| 0 <= k < v@.len() && v@[k] == x;
            assert(v@[k] != x);
        }
    }
    false
}

} // verus!

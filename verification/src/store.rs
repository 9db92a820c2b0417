//! The deduplicated, capacity-bounded history store: one row per distinct
//! content hash, rows ordered newest first, recency-based eviction, and the
//! filtered, paginated read path.

use vstd::prelude::*;
use vstd::pervasive::VecAdditionalExecFns;
use vstd::string::StringExecFns;
use crate::error::ClipManagerError;
use crate::types::{
    ClipboardItem, FilterModel, ItemModel, SearchFilter, access_updated, default_filter,
    filter_matches, item_wf, lemma_default_filter_matches_all, matches_filter, payload_bytes,
};
use crate::clock::now_millis;

verus! {

/// The safety-net retention bound every successful insert enforces,
/// independent of any caller-supplied limit.
pub const DEFAULT_MAX_ITEMS: usize = 1000;

/// The models of a sequence of stored snapshots.
pub open spec fn models(s: Seq<ClipboardItem>) -> Seq<ItemModel> {
    s.map_values(|it: ClipboardItem| it@)
}

/// The identifier of a stored row; every stored row carries one.
pub open spec fn row_id(m: ItemModel) -> int {
    m.id->0
}

/// Strict "more recent" order on stored rows: a later capture time wins,
/// and equal capture times are broken by the store-assigned identifier,
/// which grows in insertion order.
pub open spec fn newer(a: ItemModel, b: ItemModel) -> bool {
    a.created_at > b.created_at || (a.created_at == b.created_at && row_id(a) > row_id(b))
}

/// Rows are ordered newest first.
pub open spec fn sorted_newest_first(s: Seq<ItemModel>) -> bool {
    forall|i: int, j: int| 0 <= i < j < s.len() ==> newer(s[i], s[j])
}

/// No two rows share a content hash: the dedup invariant.
pub open spec fn unique_hashes(s: Seq<ItemModel>) -> bool {
    forall|i: int, j: int|
        0 <= i < j < s.len() ==> (#[trigger] s[i]).content_hash != (#[trigger] s[j]).content_hash
}

/// No two rows share an identifier.
pub open spec fn unique_ids(s: Seq<ItemModel>) -> bool {
    forall|i: int, j: int| 0 <= i < j < s.len() ==> row_id(#[trigger] s[i]) != row_id(#[trigger] s[j])
}

/// Every row carries a positive store-assigned identifier.
pub open spec fn all_assigned(s: Seq<ItemModel>) -> bool {
    forall|i: int| 0 <= i < s.len() ==> (#[trigger] s[i]).id is Some && row_id(s[i]) > 0
}

/// The store's row invariant: ordered newest first, hashes unique,
/// identifiers unique and assigned.
pub open spec fn store_wf(s: Seq<ItemModel>) -> bool {
    &&& sorted_newest_first(s)
    &&& unique_hashes(s)
    &&& unique_ids(s)
    &&& all_assigned(s)
}

/// Some row carries this content hash.
pub open spec fn has_hash(s: Seq<ItemModel>, h: Seq<char>) -> bool {
    exists|i: int| 0 <= i < s.len() && (#[trigger] s[i]).content_hash == h
}

/// Some row carries this identifier.
pub open spec fn has_id(s: Seq<ItemModel>, id: int) -> bool {
    exists|i: int| 0 <= i < s.len() && row_id(#[trigger] s[i]) == id
}

/// `m` with the store-assigned identifier `id`.
pub open spec fn with_id(m: ItemModel, id: int) -> ItemModel {
    ItemModel { id: Option::Some(id), ..m }
}

/// `m` with its favorite flag set to `fav`.
pub open spec fn favorite_updated(m: ItemModel, fav: bool) -> ItemModel {
    ItemModel { is_favorite: fav, ..m }
}

/// Insertion into a newest-first sequence: `m` goes in front of the first
/// row it is more recent than.
pub open spec fn insert_sorted(s: Seq<ItemModel>, m: ItemModel) -> Seq<ItemModel>
    decreases s.len(),
{
    if s.len() == 0 {
        seq![m]
    } else if newer(m, s[0]) {
        seq![m] + s
    } else {
        seq![s[0]] + insert_sorted(s.drop_first(), m)
    }
}

/// The newest `k` rows of a newest-first sequence (all of them when fewer).
pub open spec fn capped(s: Seq<ItemModel>, k: int) -> Seq<ItemModel> {
    if s.len() <= k {
        s
    } else {
        s.take(k)
    }
}

/// Durable, deduplicated, capacity-bounded history of clipboard snapshots,
/// held newest first. Its view is the sequence of stored row models.
pub struct Database {
    items: Vec<ClipboardItem>,
    next_id: i64,
}

impl View for Database {
    type V = Seq<ItemModel>;

    closed spec fn view(&self) -> Seq<ItemModel> {
        models(self.items@)
    }
}

impl Database {
    /// The identifier the next successful insert will assign.
    pub closed spec fn next_id_val(&self) -> int {
        self.next_id as int
    }

    /// The store's internal invariant: the rows satisfy `store_wf` and
    /// every assigned identifier is below the next one.
    pub closed spec fn wf(&self) -> bool {
        &&& store_wf(self@)
        &&& 1 <= self.next_id
        &&& forall|i: int| 0 <= i < self@.len() ==> row_id(#[trigger] self@[i]) < self.next_id
    }

    /// An empty store.
    pub fn new() -> (r: Self)
        ensures
            r.wf(),
            r@ == Seq::<ItemModel>::empty(),
            r.next_id_val() == 1,
    {
        let r = Database { items: Vec::new(), next_id: 1 };
        proof {
            assert(r@ =~= Seq::<ItemModel>::empty());
        }
        r
    }

    /// Total number of stored rows.
    pub fn get_item_count(&self) -> (r: Result<usize, ClipManagerError>)
        ensures
            r is Ok,
            r->Ok_0 == self@.len(),
    {
        Ok(self.items.len())
    }

    /// Remove every row.
    pub fn clear_all(&mut self) -> (r: Result<(), ClipManagerError>)
        requires
            old(self).wf(),
        ensures
            final(self).wf(),
            r is Ok,
            final(self)@ == Seq::<ItemModel>::empty(),
            final(self).next_id_val() == old(self).next_id_val(),
    {
        self.items.clear();
        proof {
            assert(self@ =~= Seq::<ItemModel>::empty());
        }
        Ok(())
    }

    /// Whether a row with this content hash is stored.
    fn hash_exists(&self, hash: &String) -> (r: bool)
        ensures
            r == has_hash(self@, hash@),
    {
        let n = self.items.len();
        let mut i: usize = 0;
        while i < n
            invariant
                n == self.items@.len(),
                i <= n,
                forall|k: int| 0 <= k < i ==> (#[trigger] models(self.items@)[k]).content_hash
                    != hash@,
            decreases n - i,
        {
            if self.items[i].content_hash == *hash {
                proof {
                    assert(models(self.items@)[i as int].content_hash == hash@);
                }
                return true;
            }
            i = i + 1;
        }
        false
    }

    /// Insert a snapshot. If a row with the same content hash exists the
    /// insert is rejected with `DuplicateContent` and nothing is written.
    /// Otherwise the row is stored with a fresh positive identifier, in
    /// newest-first position, and the safety-net retention bound of
    /// `DEFAULT_MAX_ITEMS` rows is enforced at once. The identifier space
    /// is exhausted only after `i64::MAX - 1` inserts, which answers with a
    /// `Database` error and no write.
    pub fn insert_item(&mut self, item: &ClipboardItem) -> (r: Result<i64, ClipManagerError>)
        requires
            old(self).wf(),
        ensures
            final(self).wf(),
            store_wf(final(self)@),
            has_hash(old(self)@, item@.content_hash) ==> {
                &&& r is Err
                &&& r->Err_0 is DuplicateContent
                &&& final(self)@ == old(self)@
                &&& final(self).next_id_val() == old(self).next_id_val()
            },
            !has_hash(old(self)@, item@.content_hash) && old(self).next_id_val() < i64::MAX
                ==> {
                &&& r is Ok
                &&& r->Ok_0 > 0
                &&& r->Ok_0 == old(self).next_id_val()
                &&& !has_id(old(self)@, r->Ok_0 as int)
                &&& final(self)@ == capped(
                    insert_sorted(old(self)@, with_id(item@, r->Ok_0 as int)),
                    DEFAULT_MAX_ITEMS as int,
                )
                &&& final(self).next_id_val() == old(self).next_id_val() + 1
            },
            !has_hash(old(self)@, item@.content_hash) && old(self).next_id_val() == i64::MAX
                ==> {
                &&& r is Err
                &&& r->Err_0 is Database
                &&& final(self)@ == old(self)@
            },
    {
        if self.hash_exists(&item.content_hash) {
            return Err(ClipManagerError::DuplicateContent);
        }
        if self.next_id == i64::MAX {
            return Err(ClipManagerError::Database(String::from_str(
                "identifier space exhausted",
            )));
        }
        let ghost pre = self@;
        let id = self.next_id;
        self.next_id = self.next_id + 1;
        let mut row = item.duplicate();
        row.id = Some(id);
        proof {
            assert(row@ == with_id(item@, id as int));
        }

        let ghost m = with_id(item@, id as int);
        let mut pos: usize = 0;
        while pos < self.items.len() && !item_newer(&row, &self.items[pos])
            invariant
                models(self.items@) == pre,
                store_wf(pre),
                row@ == m,
                m == with_id(item@, id as int),
                pos <= self.items@.len(),
                forall|k: int| 0 <= k < pos ==> !newer(row@, #[trigger] pre[k]),
            decreases self.items@.len() - pos,
        {
            proof {
                assert(pre[pos as int] == self.items@[pos as int]@);
                assert(pre[pos as int].id is Some);
                assert(row@.id is Some);
            }
            pos = pos + 1;
        }
        let ghost full = pre.insert(pos as int, m);
        proof {
            assert(pos < pre.len() ==> newer(m, pre[pos as int])) by {
                if (pos as int) < pre.len() {
                    assert(pre[pos as int] == self.items@[pos as int]@);
                    assert(pre[pos as int].id is Some);
                    assert(row@.id is Some);
                }
            }
            lemma_insert_sorted_at(pre, m, pos as int);
            assert(!has_id(pre, id as int)) by {
                assert(forall|k: int| 0 <= k < pre.len() ==> row_id(#[trigger] pre[k])
                    < id as int);
            }
            lemma_insert_preserves_wf(pre, m, pos as int);
        }
        self.items.insert(pos, row);
        proof {
            assert(models(self.items@) =~= full);
        }
        if self.items.len() > DEFAULT_MAX_ITEMS {
            self.items.truncate(DEFAULT_MAX_ITEMS);
            proof {
                assert(models(self.items@) =~= full.take(DEFAULT_MAX_ITEMS as int));
            }
        }
        proof {
            assert(self@ == capped(full, DEFAULT_MAX_ITEMS as int));
            lemma_capped_wf(full, DEFAULT_MAX_ITEMS as int);
            assert forall|i: int| 0 <= i < self@.len() implies row_id(#[trigger] self@[i])
                < self.next_id by {
                assert(self@[i] == full[i]);
                if i < pos {
                    assert(full[i] == pre[i]);
                } else if i > pos {
                    assert(full[i] == pre[i - 1]);
                }
            }
        }
        Ok(id)
    }
}

/// The rows of `s` that match the filter, in order.
pub open spec fn filtered(s: Seq<ItemModel>, f: FilterModel) -> Seq<ItemModel> {
    s.filter(|m: ItemModel| filter_matches(m, f))
}

/// The page of `s` selected by `limit` and `offset`.
pub open spec fn page(s: Seq<ItemModel>, limit: int, offset: int) -> Seq<ItemModel> {
    if offset >= s.len() {
        Seq::empty()
    } else if offset + limit <= s.len() {
        s.subrange(offset, offset + limit)
    } else {
        s.subrange(offset, s.len() as int)
    }
}

impl Database {
    /// The index of the row carrying `id`, if one is stored.
    fn find_id(&self, id: i64) -> (r: Option<usize>)
        requires
            self.wf(),
        ensures
            match r {
                Option::Some(j) => j < self@.len() && row_id(self@[j as int]) == id as int,
                Option::None => !has_id(self@, id as int),
            },
    {
        let n = self.items.len();
        let mut i: usize = 0;
        while i < n
            invariant
                self.wf(),
                n == self.items@.len(),
                i <= n,
                forall|k: int| 0 <= k < i ==> row_id(#[trigger] self@[k]) != id as int,
            decreases n - i,
        {
            let found = match self.items[i].id {
                Some(v) => v == id,
                None => false,
            };
            if found {
                proof {
                    assert(self@[i as int] == self.items@[i as int]@);
                }
                return Some(i);
            }
            proof {
                assert(self@[i as int] == self.items@[i as int]@);
            }
            i = i + 1;
        }
        None
    }

    /// Remove the row with this identifier; absent identifiers are a no-op,
    /// not an error.
    pub fn delete_item(&mut self, id: i64) -> (r: Result<(), ClipManagerError>)
        requires
            old(self).wf(),
        ensures
            final(self).wf(),
            r is Ok,
            final(self).next_id_val() == old(self).next_id_val(),
            !has_id(old(self)@, id as int) ==> final(self)@ == old(self)@,
            has_id(old(self)@, id as int) ==> exists|j: int|
                0 <= j < old(self)@.len() && row_id(#[trigger] old(self)@[j]) == id as int && final(self)@ == old(self)@.remove(j),
            !has_id(final(self)@, id as int),
    {
        let ghost pre = self@;
        match self.find_id(id) {
            None => Ok(()),
            Some(j) => {
                self.items.remove(j);
                proof {
                    assert(models(self.items@) =~= pre.remove(j as int));
                    lemma_remove_wf(pre, j as int);
                    assert forall|k: int| 0 <= k < self@.len() implies row_id(
                        #[trigger] self@[k],
                    ) != id as int by {
                        if k < j {
                            assert(self@[k] == pre[k]);
                        } else {
                            assert(self@[k] == pre[k + 1]);
                        }
                    }
                    assert(!has_id(self@, id as int));
                }
                Ok(())
            },
        }
    }

    /// Record one access of the row with this identifier at clock time
    /// `now_ms`: its access count grows by one (saturating) and its access
    /// time never moves backwards. Absent identifiers are a no-op.
    pub fn update_access_at(&mut self, id: i64, now_ms: i64) -> (r: Result<(), ClipManagerError>)
        requires
            old(self).wf(),
        ensures
            final(self).wf(),
            r is Ok,
            final(self).next_id_val() == old(self).next_id_val(),
            !has_id(old(self)@, id as int) ==> final(self)@ == old(self)@,
            has_id(old(self)@, id as int) ==> exists|j: int|
                0 <= j < old(self)@.len() && row_id(#[trigger] old(self)@[j]) == id as int && final(self)@ == old(self)@.update(j, access_updated(old(self)@[j], now_ms as int)),
    {
        let ghost pre = self@;
        match self.find_id(id) {
            None => Ok(()),
            Some(j) => {
                let mut row = self.items[j].duplicate();
                row.update_access_at(now_ms);
                proof {
                    assert(pre[j as int] == self.items@[j as int]@);
                }
                self.items.set(j, row);
                proof {
                    assert(models(self.items@) =~= pre.update(
                        j as int,
                        access_updated(pre[j as int], now_ms as int),
                    ));
                    lemma_row_replace_wf(pre, j as int, access_updated(pre[j as int], now_ms as int));
                }
                Ok(())
            },
        }
    }

    /// Record one access of the row with this identifier now.
    pub fn update_access(&mut self, id: i64) -> (r: Result<(), ClipManagerError>)
        requires
            old(self).wf(),
        ensures
            final(self).wf(),
            r is Ok,
            final(self).next_id_val() == old(self).next_id_val(),
            !has_id(old(self)@, id as int) ==> final(self)@ == old(self)@,
            has_id(old(self)@, id as int) ==> exists|j: int, now: int|
                #![auto]
                0 <= j < old(self)@.len() && row_id(old(self)@[j]) == id as int && now >= 0 && final(self)@ == old(self)@.update(j, access_updated(old(self)@[j], now)),
    {
        let now = now_millis();
        self.update_access_at(id, now)
    }

    /// Set the favorite flag of the row with this identifier. Absent
    /// identifiers are a no-op.
    pub fn update_favorite(&mut self, id: i64, is_favorite: bool) -> (r: Result<
        (),
        ClipManagerError,
    >)
        requires
            old(self).wf(),
        ensures
            final(self).wf(),
            r is Ok,
            final(self).next_id_val() == old(self).next_id_val(),
            !has_id(old(self)@, id as int) ==> final(self)@ == old(self)@,
            has_id(old(self)@, id as int) ==> exists|j: int|
                0 <= j < old(self)@.len() && row_id(#[trigger] old(self)@[j]) == id as int && final(self)@ == old(self)@.update(j, favorite_updated(old(self)@[j], is_favorite)),
    {
        let ghost pre = self@;
        match self.find_id(id) {
            None => Ok(()),
            Some(j) => {
                let mut row = self.items[j].duplicate();
                row.is_favorite = is_favorite;
                proof {
                    assert(pre[j as int] == self.items@[j as int]@);
                    assert(row@ == favorite_updated(pre[j as int], is_favorite));
                }
                self.items.set(j, row);
                proof {
                    assert(models(self.items@) =~= pre.update(
                        j as int,
                        favorite_updated(pre[j as int], is_favorite),
                    ));
                    lemma_row_replace_wf(pre, j as int, favorite_updated(pre[j as int], is_favorite));
                }
                Ok(())
            },
        }
    }

    /// Keep only the `max_items` most recently created rows and delete the
    /// rest: the sole eviction policy, purely recency-based.
    pub fn cleanup_with_limit(&mut self, max_items: usize) -> (r: Result<(), ClipManagerError>)
        requires
            old(self).wf(),
        ensures
            final(self).wf(),
            r is Ok,
            final(self).next_id_val() == old(self).next_id_val(),
            final(self)@ == capped(old(self)@, max_items as int),
    {
        let ghost pre = self@;
        if self.items.len() > max_items {
            self.items.truncate(max_items);
            proof {
                assert(models(self.items@) =~= pre.take(max_items as int));
                lemma_capped_wf(pre, max_items as int);
            }
        }
        Ok(())
    }

    /// The rows matching `filter`, newest first, paginated by `limit` and
    /// `offset`.
    pub fn get_items(&self, filter: &SearchFilter, limit: usize, offset: usize) -> (r: Result<
        Vec<ClipboardItem>,
        ClipManagerError,
    >)
        requires
            self.wf(),
        ensures
            r is Ok,
            models(r->Ok_0@) == page(filtered(self@, filter@), limit as int, offset as int),
    {
        let n = self.items.len();
        let mut selected: Vec<ClipboardItem> = Vec::new();
        let mut i: usize = 0;
        while i < n
            invariant
                n == self.items@.len(),
                i <= n,
                models(selected@) =~= filtered(models(self.items@).take(i as int), filter@),
            decreases n - i,
        {
            let ghost prefix = models(self.items@).take(i as int);
            let ghost pred = |m: ItemModel| filter_matches(m, filter@);
            if matches_filter(&self.items[i], filter) {
                selected.push(self.items[i].duplicate());
            }
            proof {
                assert(models(self.items@).take(i + 1) =~= prefix.push(
                    models(self.items@)[i as int],
                ));
                prefix.lemma_filter_push(models(self.items@)[i as int], pred);
                assert(models(selected@) =~= filtered(
                    models(self.items@).take(i + 1),
                    filter@,
                ));
            }
            i = i + 1;
        }
        let ghost fs = filtered(self@, filter@);
        proof {
            assert(models(self.items@).take(n as int) =~= models(self.items@));
            assert(models(selected@) =~= fs);
        }
        let fl = selected.len();
        let mut out: Vec<ClipboardItem> = Vec::new();
        if offset >= fl {
            proof {
                assert(models(out@) =~= page(fs, limit as int, offset as int));
            }
            return Ok(out);
        }
        let mut j = offset;
        while j < fl && out.len() < limit
            invariant
                fl == selected@.len(),
                models(selected@) == fs,
                offset <= j <= fl,
                out@.len() == j - offset,
                out@.len() <= limit,
                models(out@) =~= fs.subrange(offset as int, j as int),
            decreases fl - j,
        {
            out.push(selected[j].duplicate());
            proof {
                assert(models(out@) =~= fs.subrange(offset as int, j + 1));
            }
            j = j + 1;
        }
        proof {
            assert(models(out@) =~= page(fs, limit as int, offset as int));
        }
        Ok(out)
    }
}

/// Removing a row preserves the store invariant.
proof fn lemma_remove_wf(s: Seq<ItemModel>, j: int)
    requires
        store_wf(s),
        0 <= j < s.len(),
    ensures
        store_wf(s.remove(j)),
{
    let t = s.remove(j);
    assert(forall|i: int|
        0 <= i < t.len() ==> #[trigger] t[i] == (if i < j {
            s[i]
        } else {
            s[i + 1]
        }));
}

/// Replacing a row by one with the same identifier, capture time and hash
/// preserves the store invariant.
proof fn lemma_row_replace_wf(s: Seq<ItemModel>, j: int, m: ItemModel)
    requires
        store_wf(s),
        0 <= j < s.len(),
        m.id == s[j].id,
        m.created_at == s[j].created_at,
        m.content_hash == s[j].content_hash,
    ensures
        store_wf(s.update(j, m)),
{
    let t = s.update(j, m);
    assert(forall|i: int|
        0 <= i < t.len() ==> #[trigger] t[i] == (if i == j {
            m
        } else {
            s[i]
        }));
    assert forall|a: int, b: int| 0 <= a < b < t.len() implies newer(t[a], t[b]) by {
        assert(newer(s[a], s[b]));
    }
}

/// Every insertion adds exactly one row, and the inserted row is present.
proof fn lemma_insert_sorted_member(s: Seq<ItemModel>, m: ItemModel)
    ensures
        insert_sorted(s, m).len() == s.len() + 1,
        has_hash(insert_sorted(s, m), m.content_hash),
    decreases s.len(),
{
    let t = insert_sorted(s, m);
    if s.len() == 0 {
        assert(t[0].content_hash == m.content_hash);
    } else if newer(m, s[0]) {
        assert(t[0].content_hash == m.content_hash);
    } else {
        lemma_insert_sorted_member(s.drop_first(), m);
        let u = insert_sorted(s.drop_first(), m);
        let i = choose|i: int| 0 <= i < u.len() && (#[trigger] u[i]).content_hash
            == m.content_hash;
        assert(t[i + 1].content_hash == m.content_hash);
    }
}

/// Dedup invariant: two snapshots with identical payload bytes carry one
/// and the same content hash, and once the first is stored (below the
/// safety-net bound, so no eviction intervenes) the store holds that hash,
/// which by `insert_item`'s contract makes the second insert fail with
/// `DuplicateContent` and leave the row count unchanged: exactly one row
/// per distinct payload.
pub proof fn lemma_dedup_invariant(s: Seq<ItemModel>, a: ItemModel, b: ItemModel, id: int)
    requires
        item_wf(a),
        item_wf(b),
        payload_bytes(a.content) == payload_bytes(b.content),
        s.len() < DEFAULT_MAX_ITEMS,
    ensures
        a.content_hash == b.content_hash,
        insert_sorted(s, with_id(a, id)).len() == s.len() + 1,
        capped(insert_sorted(s, with_id(a, id)), DEFAULT_MAX_ITEMS as int) == insert_sorted(
            s,
            with_id(a, id),
        ),
        has_hash(
            capped(insert_sorted(s, with_id(a, id)), DEFAULT_MAX_ITEMS as int),
            b.content_hash,
        ),
{
    lemma_insert_sorted_member(s, with_id(a, id));
}

/// Capacity bound: enforcing a bound `k` on more than `k` rows keeps
/// exactly `k` rows, namely the `k` most recently created ones, each more
/// recent than every evicted row.
pub proof fn lemma_capacity_bound(s: Seq<ItemModel>, k: int)
    requires
        store_wf(s),
        0 <= k < s.len(),
    ensures
        capped(s, k).len() == k,
        forall|i: int| 0 <= i < k ==> capped(s, k)[i] == s[i],
        forall|i: int, j: int| 0 <= i < k <= j < s.len() ==> newer(#[trigger] s[i], #[trigger] s[j]),
{
}

/// A filter every row matches filters nothing out.
proof fn lemma_filter_matches_all(s: Seq<ItemModel>, f: FilterModel)
    requires
        forall|i: int| 0 <= i < s.len() ==> filter_matches(#[trigger] s[i], f),
    ensures
        filtered(s, f) == s,
    decreases s.len(),
{
    reveal(Seq::filter);
    if s.len() == 0 {
        assert(filtered(s, f) =~= s);
    } else {
        lemma_filter_matches_all(s.drop_last(), f);
        assert(filter_matches(s.last(), f));
        assert(filtered(s, f) =~= filtered(s.drop_last(), f).push(s.last()));
        assert(filtered(s, f) =~= s);
    }
}

/// Ordering: a query with the default filter, offset zero and a limit at
/// or above the row count returns every row, newest first; rows are in
/// strictly decreasing capture order, with equal capture times broken by
/// strictly decreasing identifier.
pub proof fn lemma_query_ordering(s: Seq<ItemModel>, limit: int)
    requires
        store_wf(s),
        s.len() <= limit,
    ensures
        page(filtered(s, default_filter()), limit, 0) == s,
        forall|i: int, j: int| 0 <= i < j < s.len() ==> (#[trigger] s[i]).created_at
            >= (#[trigger] s[j]).created_at,
        forall|i: int, j: int|
            0 <= i < j < s.len() && (#[trigger] s[i]).created_at != (#[trigger] s[j]).created_at
                ==> s[i].created_at > s[j].created_at,
        forall|i: int, j: int|
            0 <= i < j < s.len() && (#[trigger] s[i]).created_at == (#[trigger] s[j]).created_at
                ==> row_id(s[i]) > row_id(s[j]),
{
    assert forall|i: int| 0 <= i < s.len() implies filter_matches(#[trigger] s[i], default_filter()) by {
        lemma_default_filter_matches_all(s[i]);
    }
    lemma_filter_matches_all(s, default_filter());
    if s.len() == 0 {
        assert(page(filtered(s, default_filter()), limit, 0) =~= s);
    } else {
        assert(page(s, limit, 0) =~= s);
    }
    assert forall|i: int, j: int| 0 <= i < j < s.len() implies (#[trigger] s[i]).created_at
        >= (#[trigger] s[j]).created_at && (s[i].created_at == s[j].created_at ==> row_id(s[i])
        > row_id(s[j])) by {
        assert(newer(s[i], s[j]));
    }
}

/// The row after `t` recorded accesses, at the clock readings `nows`.
pub open spec fn accesses_applied(m: ItemModel, nows: Seq<int>) -> ItemModel
    decreases nows.len(),
{
    if nows.len() == 0 {
        m
    } else {
        accesses_applied(access_updated(m, nows[0]), nows.drop_first())
    }
}

/// Access round-trip: `t` recorded accesses raise the access count by
/// exactly `t` — as long as the counter stays within its width — and the
/// access time never decreases; identity, payload and capture time are
/// untouched.
pub proof fn lemma_access_round_trip(m: ItemModel, nows: Seq<int>)
    requires
        0 <= m.access_count,
        m.access_count + nows.len() <= u32::MAX,
    ensures
        accesses_applied(m, nows).access_count == m.access_count + nows.len(),
        accesses_applied(m, nows).accessed_at >= m.accessed_at,
        accesses_applied(m, nows).created_at == m.created_at,
        accesses_applied(m, nows).id == m.id,
        accesses_applied(m, nows).content == m.content,
        accesses_applied(m, nows).content_hash == m.content_hash,
    decreases nows.len(),
{
    if nows.len() > 0 {
        lemma_access_round_trip(access_updated(m, nows[0]), nows.drop_first());
    }
}

/// Recency comparison on two stored rows.
fn item_newer(a: &ClipboardItem, b: &ClipboardItem) -> (r: bool)
    ensures
        a@.id is Some && b@.id is Some ==> r == newer(a@, b@),
{
    if a.created_at > b.created_at {
        true
    } else if a.created_at == b.created_at {
        let aid = match a.id {
            Some(v) => v,
            None => 0,
        };
        let bid = match b.id {
            Some(v) => v,
            None => 0,
        };
        aid > bid
    } else {
        false
    }
}

/// Where `insert_sorted` puts a row: before the first row it is more
/// recent than.
proof fn lemma_insert_sorted_at(s: Seq<ItemModel>, m: ItemModel, pos: int)
    requires
        0 <= pos <= s.len(),
        forall|k: int| 0 <= k < pos ==> !newer(m, #[trigger] s[k]),
        pos < s.len() ==> newer(m, s[pos]),
    ensures
        insert_sorted(s, m) == s.insert(pos, m),
    decreases pos,
{
    if s.len() == 0 {
        assert(insert_sorted(s, m) =~= s.insert(pos, m));
    } else if pos == 0 {
        assert(newer(m, s[0]));
        assert(insert_sorted(s, m) =~= s.insert(0, m));
    } else {
        assert(!newer(m, s[0]));
        lemma_insert_sorted_at(s.drop_first(), m, pos - 1);
        assert(insert_sorted(s, m) == seq![s[0]] + s.drop_first().insert(pos - 1, m));
        assert(seq![s[0]] + s.drop_first().insert(pos - 1, m) =~= s.insert(pos, m));
    }
}

/// Inserting a fresh, unseen row at its newest-first position preserves
/// the store invariant.
proof fn lemma_insert_preserves_wf(s: Seq<ItemModel>, m: ItemModel, pos: int)
    requires
        store_wf(s),
        m.id is Some,
        row_id(m) > 0,
        !has_id(s, row_id(m)),
        !has_hash(s, m.content_hash),
        0 <= pos <= s.len(),
        forall|k: int| 0 <= k < pos ==> !newer(m, #[trigger] s[k]),
        pos < s.len() ==> newer(m, s[pos]),
    ensures
        store_wf(s.insert(pos, m)),
{
    let t = s.insert(pos, m);
    assert forall|k: int| 0 <= k < pos implies newer(s[k], m) by {
        assert(!newer(m, s[k]));
        assert(row_id(s[k]) != row_id(m));
    }
    assert forall|k: int| pos <= k < s.len() implies newer(m, s[k]) by {
        if k > pos {
            assert(newer(m, s[pos]));
            assert(newer(s[pos], s[k]));
        }
    }
    assert forall|i: int, j: int| 0 <= i < j < t.len() implies newer(t[i], t[j]) by {
        if i < pos && j < pos {
            assert(t[i] == s[i] && t[j] == s[j]);
        } else if i < pos && j == pos {
            assert(t[i] == s[i] && t[j] == m);
        } else if i < pos && j > pos {
            assert(t[i] == s[i] && t[j] == s[j - 1]);
        } else if i == pos {
            assert(t[i] == m && t[j] == s[j - 1]);
        } else {
            assert(t[i] == s[i - 1] && t[j] == s[j - 1]);
        }
    }
    assert forall|i: int, j: int| 0 <= i < j < t.len() implies (#[trigger] t[i]).content_hash
        != (#[trigger] t[j]).content_hash by {
        assert(forall|k: int| 0 <= k < s.len() ==> (#[trigger] s[k]).content_hash
            != m.content_hash);
    }
    assert forall|i: int, j: int| 0 <= i < j < t.len() implies row_id(#[trigger] t[i]) != row_id(
        #[trigger] t[j],
    ) by {
        assert(forall|k: int| 0 <= k < s.len() ==> row_id(#[trigger] s[k]) != row_id(m));
    }
    assert forall|i: int| 0 <= i < t.len() implies (#[trigger] t[i]).id is Some && row_id(t[i])
        > 0 by {
        if i != pos {
            let k: int = if i < pos { i } else { i - 1 };
            assert(t[i] == s[k]);
        }
    }
}

/// Keeping a newest-first prefix preserves the store invariant.
proof fn lemma_capped_wf(s: Seq<ItemModel>, k: int)
    requires
        store_wf(s),
        0 <= k,
    ensures
        store_wf(capped(s, k)),
{
    if s.len() > k {
        let t = s.take(k);
        assert(forall|i: int| 0 <= i < t.len() ==> t[i] == s[i]);
    }
}

} // verus!

use vstd::prelude::*;
use crate::assets::key_table::{
    kv_map, kv_unique, lemma_kv_map_domain, lemma_kv_map_index, KeyTable,
};
use crate::assets::sprite_sheet::{draw_command, DrawCommand, SheetView, SpriteSheet};

verus! {

/// A polymorphic asset container: a loaded asset of a known kind, or the
/// `NotFound` sentinel that every failed lookup collapses to. The sentinel
/// lets every consumer treat "missing key" and "wrong kind" as the same
/// inert "nothing to draw" value instead of branching on errors.
pub enum AssetContainer {
    NotFound,
    Spritesheet(SpriteSheet),
}

/// Mathematical value of an `AssetContainer`.
pub ghost enum ContainerView {
    NotFound,
    Spritesheet(SheetView),
}

impl View for AssetContainer {
    type V = ContainerView;

    open spec fn view(&self) -> ContainerView {
        match self {
            AssetContainer::NotFound => ContainerView::NotFound,
            AssetContainer::Spritesheet(sheet) => ContainerView::Spritesheet(sheet@),
        }
    }
}

/// The sheet a container holds; meaningful only for the sprite sheet kind.
pub open spec fn container_sheet(c: ContainerView) -> SheetView {
    match c {
        ContainerView::Spritesheet(s) => s,
        ContainerView::NotFound => arbitrary(),
    }
}

/// The registry map after a draw was enqueued on the named asset: if the
/// name resolves to a sprite sheet, that sheet's batch grows by one
/// command; any other resolution leaves the map unchanged.
pub open spec fn enqueued_map(
    m: Map<Seq<char>, ContainerView>,
    name: Seq<char>,
    x: i64,
    y: i64,
    row: i32,
    column: i32,
) -> Map<Seq<char>, ContainerView> {
    if m.contains_key(name) && m[name] is Spritesheet {
        let s = container_sheet(m[name]);
        m.insert(
            name,
            ContainerView::Spritesheet(
                SheetView { batch: s.batch.push(draw_command(s, x, y, row, column)), ..s },
            ),
        )
    } else {
        m
    }
}

/// A container with its draw batch emptied; containers of other kinds are
/// unchanged.
pub open spec fn cleared_container(c: ContainerView) -> ContainerView {
    match c {
        ContainerView::Spritesheet(s) => ContainerView::Spritesheet(
            SheetView { batch: Seq::<DrawCommand>::empty(), ..s },
        ),
        ContainerView::NotFound => c,
    }
}

/// Overwrite semantics of the registry: storing a container under an
/// identifier twice leaves the second container under that identifier,
/// and the store of the second finds the first there — the value
/// `add_asset` then returns as the replaced one.
pub proof fn lemma_add_overwrite(
    m: Map<Seq<char>, ContainerView>,
    id: Seq<char>,
    first: ContainerView,
    second: ContainerView,
)
    ensures
        m.insert(id, first).contains_key(id),
        m.insert(id, first)[id] == first,
        m.insert(id, first).insert(id, second).contains_key(id),
        m.insert(id, first).insert(id, second)[id] == second,
{
}

/// Maps string identifiers to asset containers and owns every loaded
/// resource. Lookups are total: an absent key resolves to the `NotFound`
/// sentinel, never to an error.
pub struct AssetDatabase {
    does_not_exist: AssetContainer,
    assets: KeyTable<AssetContainer>,
}

impl View for AssetDatabase {
    type V = Map<Seq<char>, ContainerView>;

    closed spec fn view(&self) -> Map<Seq<char>, ContainerView> {
        self.assets@
    }
}

impl AssetDatabase {
    #[verifier::type_invariant]
    spec fn sentinel_ok(self) -> bool {
        self.does_not_exist is NotFound
    }

    pub fn new() -> (db: AssetDatabase)
        ensures
            db@ == Map::<Seq<char>, ContainerView>::empty(),
    {
        AssetDatabase { does_not_exist: AssetContainer::NotFound, assets: KeyTable::new() }
    }

    /// The container stored under `asset_name`, or the `NotFound` sentinel
    /// for an absent key: this lookup never fails.
    pub fn get_asset(&self, asset_name: &String) -> (asset: &AssetContainer)
        ensures
            self@.contains_key(asset_name@) ==> asset@ == self@[asset_name@],
            !self@.contains_key(asset_name@) ==> asset@ == ContainerView::NotFound,
    {
        proof {
            use_type_invariant(&*self);
        }
        match self.assets.lookup(asset_name) {
            Some(asset) => asset,
            None => &self.does_not_exist,
        }
    }

    /// Stores `data` under `name`, returning the container previously
    /// stored there, if any: overwrite semantics, last write wins, no
    /// error on replacement. The `NotFound` sentinel is meant as a lookup
    /// result, never as a stored value; this method does not reject it,
    /// but an identifier that maps to a stored sentinel behaves exactly
    /// like a free one — lookups hand back `NotFound` either way, and
    /// ingestion treats the identifier as unused.
    pub fn add_asset(&mut self, name: String, data: AssetContainer) -> (previous: Option<
        AssetContainer,
    >)
        ensures
            final(self)@ == old(self)@.insert(name@, data@),
            match previous {
                Some(p) => old(self)@.contains_key(name@) && p@ == old(self)@[name@],
                None => !old(self)@.contains_key(name@),
            },
    {
        proof {
            use_type_invariant(&*self);
        }
        let mut table = KeyTable::new();
        core::mem::swap(&mut self.assets, &mut table);
        let previous = table.put(name, data);
        self.assets = table;
        previous
    }

    /// Enqueues one draw instruction on the named asset's sheet, if the
    /// name resolves to a sprite sheet; any other resolution is a no-op,
    /// reported through the result.
    pub fn enqueue_on(&mut self, name: &String, x: i64, y: i64, row: i32, column: i32) -> (enqueued:
        bool)
        ensures
            final(self)@ == enqueued_map(old(self)@, name@, x, y, row, column),
            enqueued == (old(self)@.contains_key(name@) && old(self)@[name@] is Spritesheet),
    {
        proof {
            use_type_invariant(&*self);
        }
        let mut table = KeyTable::new();
        core::mem::swap(&mut self.assets, &mut table);
        table.recall_unique();
        let ghost old_views = table.entry_views();
        let enqueued: bool;
        match table.index_of(name) {
            Some(i) => {
                proof {
                    lemma_kv_map_index(old_views, i as int);
                }
                let container = table.value_swap(i, AssetContainer::NotFound);
                match container {
                    AssetContainer::Spritesheet(mut sheet) => {
                        sheet.enqueue_draw(x, y, row, column);
                        let _ = table.value_swap(i, AssetContainer::Spritesheet(sheet));
                        proof {
                            assert(table@ =~= enqueued_map(
                                kv_map(old_views),
                                name@,
                                x,
                                y,
                                row,
                                column,
                            ));
                        }
                        enqueued = true;
                    },
                    other => {
                        let _ = table.value_swap(i, other);
                        proof {
                            assert(table@ =~= kv_map(old_views));
                        }
                        enqueued = false;
                    },
                }
            },
            None => {
                proof {
                    lemma_kv_map_domain(old_views, name@);
                }
                enqueued = false;
            },
        }
        self.assets = table;
        enqueued
    }

    /// Which entries of a pair sequence, among the first `n`, hold a
    /// sprite sheet; in storage order.
    pub(crate) open spec fn sheet_indexes(
        s: Seq<(Seq<char>, ContainerView)>,
        n: int,
    ) -> Seq<int>
        decreases n,
    {
        if n <= 0 {
            Seq::empty()
        } else {
            let prefix = Self::sheet_indexes(s, n - 1);
            if s[n - 1].1 is Spritesheet {
                prefix.push(n - 1)
            } else {
                prefix
            }
        }
    }

    /// The sheet index list is strictly increasing, points only at sheet
    /// entries, and covers every sheet entry.
    proof fn lemma_sheet_indexes(s: Seq<(Seq<char>, ContainerView)>, n: int)
        requires
            0 <= n <= s.len(),
        ensures
            forall|b: int|
                0 <= b < Self::sheet_indexes(s, n).len() ==> 0 <= #[trigger] Self::sheet_indexes(
                    s,
                    n,
                )[b] < n && s[Self::sheet_indexes(s, n)[b]].1 is Spritesheet,
            forall|b1: int, b2: int|
                0 <= b1 < b2 < Self::sheet_indexes(s, n).len() ==> #[trigger] Self::sheet_indexes(
                    s,
                    n,
                )[b1] < #[trigger] Self::sheet_indexes(s, n)[b2],
            forall|j: int|
                0 <= j < n && (#[trigger] s[j]).1 is Spritesheet ==> exists|b: int|
                    0 <= b < Self::sheet_indexes(s, n).len() && Self::sheet_indexes(s, n)[b] == j,
        decreases n,
    {
        if n > 0 {
            Self::lemma_sheet_indexes(s, n - 1);
            let prefix = Self::sheet_indexes(s, n - 1);
            let full = Self::sheet_indexes(s, n);
            if s[n - 1].1 is Spritesheet {
                assert forall|j: int|
                    0 <= j < n && (#[trigger] s[j]).1 is Spritesheet implies exists|b: int|
                    0 <= b < full.len() && full[b] == j by {
                    if j < n - 1 {
                        let b = choose|b: int| 0 <= b < prefix.len() && prefix[b] == j;
                        assert(full[b] == j);
                    } else {
                        assert(full[full.len() - 1] == j);
                    }
                }
            } else {
                assert forall|j: int|
                    0 <= j < n && (#[trigger] s[j]).1 is Spritesheet implies exists|b: int|
                    0 <= b < full.len() && full[b] == j by {
                    let b = choose|b: int| 0 <= b < prefix.len() && prefix[b] == j;
                    assert(full[b] == j);
                }
            }
        }
    }

    /// Hands out, for every sprite sheet asset, the draw batch collected
    /// this frame, paired with the asset's identifier, and leaves every
    /// batch empty. The order of the pairs is unspecified; identifiers do
    /// not repeat, and assets of other kinds are untouched.
    #[verifier::rlimit(80)]
    pub fn flush_all_batches(&mut self) -> (batches: Vec<(String, Vec<DrawCommand>)>)
        ensures
            forall|k: Seq<char>|
                #[trigger] final(self)@.contains_key(k) <==> old(self)@.contains_key(k),
            forall|k: Seq<char>| #[trigger]
                old(self)@.contains_key(k) ==> final(self)@[k] == cleared_container(
                    old(self)@[k],
                ),
            forall|b: int|
                0 <= b < batches@.len() ==> old(self)@.contains_key(
                    (#[trigger] batches@[b]).0@,
                ) && old(self)@[batches@[b].0@] is Spritesheet && batches@[b].1@
                    == container_sheet(old(self)@[batches@[b].0@]).batch,
            forall|b1: int, b2: int|
                0 <= b1 < b2 < batches@.len() ==> (#[trigger] batches@[b1]).0@ != (
                #[trigger] batches@[b2]).0@,
            forall|k: Seq<char>|
                #[trigger] old(self)@.contains_key(k) && old(self)@[k] is Spritesheet
                    ==> exists|b: int| 0 <= b < batches@.len() && (#[trigger] batches@[b]).0@
                    == k,
    {
        proof {
            use_type_invariant(&*self);
        }
        let mut table = KeyTable::new();
        core::mem::swap(&mut self.assets, &mut table);
        table.recall_unique();
        let ghost old_views = table.entry_views();
        let mut batches: Vec<(String, Vec<DrawCommand>)> = Vec::new();
        let n = table.num_entries();
        let mut i: usize = 0;
        while i < n
            invariant
                n == old_views.len(),
                i <= n,
                kv_unique(old_views),
                table.entry_views().len() == n,
                forall|j: int|
                    0 <= j < n ==> (#[trigger] table.entry_views()[j]).0 == old_views[j].0,
                forall|j: int|
                    i <= j < n ==> (#[trigger] table.entry_views()[j]).1 == old_views[j].1,
                forall|j: int|
                    0 <= j < i ==> (#[trigger] table.entry_views()[j]).1 == cleared_container(
                        old_views[j].1,
                    ),
                batches@.len() == Self::sheet_indexes(old_views, i as int).len(),
                forall|b: int|
                    0 <= b < batches@.len() ==> old_views[
                        #[trigger] Self::sheet_indexes(old_views, i as int)[b]
                    ].0 == (#[trigger] batches@[b]).0@ && batches@[b].1@ == container_sheet(
                        old_views[Self::sheet_indexes(old_views, i as int)[b]].1,
                    ).batch,
            decreases n - i,
        {
            let ghost batches_before = batches@;
            let container = table.value_swap(i, AssetContainer::NotFound);
            proof {
                assert(container@ == old_views[i as int].1);
            }
            match container {
                AssetContainer::Spritesheet(mut sheet) => {
                    let name = table.key_at(i).clone();
                    proof {
                        assert(name@ == old_views[i as int].0);
                    }
                    let batch = sheet.flush_batch();
                    batches.push((name, batch));
                    let _ = table.value_swap(i, AssetContainer::Spritesheet(sheet));
                    proof {
                        assert(AssetContainer::Spritesheet(sheet)@ == cleared_container(
                            old_views[i as int].1,
                        ));
                        assert(Self::sheet_indexes(old_views, i + 1) == Self::sheet_indexes(
                            old_views,
                            i as int,
                        ).push(i as int));
                        assert forall|b: int| 0 <= b < batches@.len() implies old_views[
                            #[trigger] Self::sheet_indexes(old_views, i + 1)[b]
                        ].0 == (#[trigger] batches@[b]).0@ && batches@[b].1@
                            == container_sheet(
                            old_views[Self::sheet_indexes(old_views, i + 1)[b]].1,
                        ).batch by {
                            if b < batches_before.len() {
                                assert(batches@[b] == batches_before[b]);
                                assert(Self::sheet_indexes(old_views, i + 1)[b]
                                    == Self::sheet_indexes(old_views, i as int)[b]);
                            } else {
                                assert(Self::sheet_indexes(old_views, i + 1)[b] == i as int);
                            }
                        }
                    }
                },
                other => {
                    let ghost other_view = other@;
                    let _ = table.value_swap(i, other);
                    proof {
                        assert(other_view == old_views[i as int].1);
                        assert(cleared_container(old_views[i as int].1) == old_views[
                            i as int
                        ].1);
                        assert(Self::sheet_indexes(old_views, i + 1) == Self::sheet_indexes(
                            old_views,
                            i as int,
                        ));
                    }
                },
            }
            i = i + 1;
        }
        table.recall_unique();
        let ghost new_views = table.entry_views();
        proof {
            Self::lemma_sheet_indexes(old_views, n as int);
            let ghost idx = Self::sheet_indexes(old_views, n as int);
            assert forall|a: int, b: int| 0 <= a < b < new_views.len() implies new_views[a].0
                != new_views[b].0 by {
                assert(old_views[a].0 != old_views[b].0);
            }
            assert forall|k: Seq<char>|
                #[trigger] kv_map(new_views).contains_key(k) <==> kv_map(
                    old_views,
                ).contains_key(k) by {
                lemma_kv_map_domain(old_views, k);
                lemma_kv_map_domain(new_views, k);
                if kv_map(old_views).contains_key(k) {
                    let j = choose|j: int| 0 <= j < old_views.len() && old_views[j].0 == k;
                    assert(new_views[j].0 == k);
                }
                if kv_map(new_views).contains_key(k) {
                    let j = choose|j: int| 0 <= j < new_views.len() && new_views[j].0 == k;
                    assert(old_views[j].0 == k);
                }
            }
            assert forall|k: Seq<char>| #[trigger] kv_map(old_views).contains_key(
                k,
            ) implies kv_map(new_views)[k] == cleared_container(kv_map(old_views)[k]) by {
                lemma_kv_map_domain(old_views, k);
                let j = choose|j: int| 0 <= j < old_views.len() && old_views[j].0 == k;
                lemma_kv_map_index(old_views, j);
                assert(new_views[j].0 == k);
                lemma_kv_map_index(new_views, j);
            }
            assert forall|b: int| 0 <= b < batches@.len() implies kv_map(
                old_views,
            ).contains_key((#[trigger] batches@[b]).0@) && kv_map(
                old_views,
            )[batches@[b].0@] is Spritesheet && batches@[b].1@ == container_sheet(
                kv_map(old_views)[batches@[b].0@],
            ).batch by {
                let j = idx[b];
                lemma_kv_map_index(old_views, j);
            }
            assert forall|b1: int, b2: int|
                0 <= b1 < b2 < batches@.len() implies (#[trigger] batches@[b1]).0@ != (
            #[trigger] batches@[b2]).0@ by {
                assert(idx[b1] < idx[b2]);
                assert(old_views[idx[b1]].0 != old_views[idx[b2]].0);
            }
            assert forall|k: Seq<char>|
                #[trigger] kv_map(old_views).contains_key(k) && kv_map(
                    old_views,
                )[k] is Spritesheet implies exists|b: int|
                0 <= b < batches@.len() && (#[trigger] batches@[b]).0@ == k by {
                lemma_kv_map_domain(old_views, k);
                let j = choose|j: int| 0 <= j < old_views.len() && old_views[j].0 == k;
                lemma_kv_map_index(old_views, j);
                let b = choose|b: int| 0 <= b < idx.len() && idx[b] == j;
                assert(batches@[b].0@ == k);
            }
        }
        self.assets = table;
        batches
    }
}

} // verus!

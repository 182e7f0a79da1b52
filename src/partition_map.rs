//! The spatial partition index: tiles registered by id with a two-axis band
//! mask each, and a cache of the ids whose masks overlap the player's.
use vstd::prelude::*;

verus! {

/// Band masks of an entity: bit `i` of `x` (of `y`) is set when the entity
/// overlaps band `i` along that axis.
#[derive(Clone, Copy, PartialEq, Eq, Debug, Structural)]
pub struct Partition {
    pub x: u64,
    pub y: u64,
}

impl Partition {
    /// Two partitions are collision candidates when their masks share a band
    /// on both axes.
    pub open spec fn overlaps(self, other: Partition) -> bool {
        self.x & other.x != 0 && self.y & other.y != 0
    }

    pub fn collides(&self, other: &Partition) -> (r: bool)
        ensures
            r == self.overlaps(*other),
    {
        (self.x & other.x) != 0 && (self.y & other.y) != 0
    }
}

/// Stable identifier of a tile registered in a [`PartitionMap`].
#[derive(Clone, Copy, PartialEq, Eq, Debug, Hash, Structural)]
pub struct PartitionMapID(pub usize);

/// Registered tiles, the player's partition, and the cached list of the
/// registered tiles whose partition overlaps the player's.
pub struct PartitionMap {
    player: Partition,
    // slot `i` holds the partition of tile `i` while it is registered;
    // the next id handed out is `slots.len()`
    slots: Vec<Option<Partition>>,
    cache: Vec<PartitionMapID>,
}

impl PartitionMap {
    /// The player's current partition.
    pub closed spec fn player_spec(&self) -> Partition {
        self.player
    }

    /// The registered tiles, by id.
    pub closed spec fn tiles(&self) -> Map<usize, Partition> {
        Map::new(
            |id: usize| 0 <= id < self.slots@.len() && self.slots@[id as int] is Some,
            |id: usize| self.slots@[id as int]->Some_0,
        )
    }

    /// The id that the next registration hands out.
    pub closed spec fn next_id(&self) -> nat {
        self.slots@.len()
    }

    /// The cached candidate list, in its order.
    pub closed spec fn cached(&self) -> Seq<PartitionMapID> {
        self.cache@
    }

    /// A registered tile whose partition overlaps the player's.
    pub open spec fn is_candidate(&self, id: usize) -> bool {
        self.tiles().contains_key(id) && self.tiles()[id].overlaps(self.player_spec())
    }

    /// Every id at most once in the cache, and exactly the candidates in it.
    pub open spec fn wf(&self) -> bool {
        &&& self.cached().no_duplicates()
        &&& forall|id: usize| #[trigger]
            self.cached().contains(PartitionMapID(id)) <==> self.is_candidate(id)
    }

    /// The cache lists its ids in increasing order.
    pub open spec fn cache_sorted(&self) -> bool {
        forall|i: int, j: int|
            0 <= i < j < self.cached().len() ==> (#[trigger] self.cached()[i]).0
                < (#[trigger] self.cached()[j]).0
    }

    /// An index whose player stands in `player`, with no tile registered.
    pub fn new(player: Partition) -> (r: PartitionMap)
        ensures
            r.wf(),
            r.player_spec() == player,
            r.tiles() == Map::<usize, Partition>::empty(),
            r.next_id() == 0,
            r.cached() == Seq::<PartitionMapID>::empty(),
    {
        let mut res = PartitionMap { player, slots: Vec::new(), cache: Vec::new() };
        proof {
            assert(res.tiles() =~= Map::<usize, Partition>::empty());
        }
        res.reset_cache();
        proof {
            if res.cached().len() > 0 {
                let k = res.cached()[0].0;
                assert(res.cached()[0] == PartitionMapID(k));
                assert(res.cached().contains(PartitionMapID(k)));
                assert(!res.tiles().contains_key(k));
            }
            assert(res.cached() =~= Seq::<PartitionMapID>::empty());
        }
        res
    }

    /// The player's current partition.
    pub fn player(&self) -> (r: Partition)
        ensures
            r == self.player_spec(),
    {
        self.player
    }

    /// The cached candidate ids.
    pub fn cache(&self) -> (r: &Vec<PartitionMapID>)
        ensures
            r@ == self.cached(),
    {
        &self.cache
    }

    /// Registers a tile under a fresh id; the cache takes the id in when the
    /// tile overlaps the player.
    pub fn add(&mut self, partition: Partition) -> (id: PartitionMapID)
        requires
            old(self).wf(),
        ensures
            final(self).wf(),
            id.0 == old(self).next_id(),
            final(self).next_id() == old(self).next_id() + 1,
            final(self).tiles() == old(self).tiles().insert(id.0, partition),
            final(self).player_spec() == old(self).player_spec(),
            final(self).cached() == (if partition.overlaps(old(self).player_spec()) {
                old(self).cached().push(id)
            } else {
                old(self).cached()
            }),
    {
        let id = PartitionMapID(self.slots.len());
        self.slots.push(Some(partition));
        let ghost before = self.cache@;
        if partition.collides(&self.player) {
            self.cache.push(id);
        }
        proof {
            assert(self.tiles() =~= old(self).tiles().insert(id.0, partition));
            assert(!before.contains(id));
            assert forall|a: int, b: int|
                0 <= a < self.cache@.len() && 0 <= b < self.cache@.len() && a != b implies
                self.cache@[a] != self.cache@[b] by {
                if a == self.cache@.len() - 1 && a != before.len() - 1 && a >= before.len() {
                    assert(before[b] == self.cache@[b]);
                } else if b == self.cache@.len() - 1 && b >= before.len() {
                    assert(before[a] == self.cache@[a]);
                } else {
                    assert(before[a] == self.cache@[a]);
                    assert(before[b] == self.cache@[b]);
                }
            }
            assert forall|k: usize| #[trigger]
                self.cached().contains(PartitionMapID(k)) <==> self.is_candidate(k) by {
                if self.cached().contains(PartitionMapID(k)) && k != id.0 {
                    let a = choose|a: int|
                        0 <= a < self.cache@.len() && self.cache@[a] == PartitionMapID(k);
                    assert(before[a] == PartitionMapID(k));
                }
                if before.contains(PartitionMapID(k)) {
                    let a = choose|a: int| 0 <= a < before.len() && before[a] == PartitionMapID(k);
                    assert(self.cache@[a] == PartitionMapID(k));
                }
                if k == id.0 && partition.overlaps(self.player) {
                    assert(self.cache@[self.cache@.len() - 1] == id);
                }
            }
        }
        id
    }

    /// Rebuilds the cache: every registered tile that overlaps the player, in
    /// increasing order of id.
    pub fn reset_cache(&mut self)
        ensures
            final(self).wf(),
            final(self).cache_sorted(),
            final(self).tiles() == old(self).tiles(),
            final(self).next_id() == old(self).next_id(),
            final(self).player_spec() == old(self).player_spec(),
    {
        let mut cache: Vec<PartitionMapID> = Vec::new();
        let n = self.slots.len();
        let mut i: usize = 0;
        while i < n
            invariant
                n == self.slots@.len(),
                i <= n,
                forall|a: int, b: int|
                    0 <= a < b < cache@.len() ==> (#[trigger] cache@[a]).0 < (#[trigger] cache@[b]).0,
                forall|a: int| 0 <= a < cache@.len() ==> (#[trigger] cache@[a]).0 < i,
                forall|k: usize|
                    k < i ==> (#[trigger] cache@.contains(PartitionMapID(k)) <==> self.is_candidate(k)),
            decreases n - i,
        {
            let ghost before = cache@;
            if let Some(p) = &self.slots[i] {
                if p.collides(&self.player) {
                    cache.push(PartitionMapID(i));
                }
            }
            proof {
                assert forall|k: usize| k < i + 1 implies (#[trigger] cache@.contains(
                    PartitionMapID(k),
                ) <==> self.is_candidate(k)) by {
                    if k == i {
                        if self.is_candidate(k) {
                            assert(cache@[cache@.len() - 1] == PartitionMapID(k));
                        } else if cache@.contains(PartitionMapID(k)) {
                            let a = choose|a: int| 0 <= a < cache@.len() && cache@[a] == PartitionMapID(k);
                            assert(before[a] == cache@[a]);
                        }
                    } else {
                        if cache@.contains(PartitionMapID(k)) {
                            let a = choose|a: int| 0 <= a < cache@.len() && cache@[a] == PartitionMapID(k);
                            if a < before.len() {
                                assert(before[a] == cache@[a]);
                            }
                        }
                        if before.contains(PartitionMapID(k)) {
                            let a = choose|a: int| 0 <= a < before.len() && before[a] == PartitionMapID(k);
                            assert(before[a] == cache@[a]);
                        }
                    }
                }
            }
            i = i + 1;
        }
        self.cache = cache;
        proof {
            assert forall|a: int, b: int|
                0 <= a < self.cache@.len() && 0 <= b < self.cache@.len() && a != b implies
                self.cache@[a] != self.cache@[b] by {
                if a < b {
                    assert(self.cache@[a].0 < self.cache@[b].0);
                } else {
                    assert(self.cache@[b].0 < self.cache@[a].0);
                }
            }
            assert forall|k: usize| #[trigger]
                self.cached().contains(PartitionMapID(k)) <==> self.is_candidate(k) by {
                if k >= n {
                    if self.cached().contains(PartitionMapID(k)) {
                        let a = choose|a: int|
                            0 <= a < self.cache@.len() && self.cache@[a] == PartitionMapID(k);
                        assert(self.cache@[a].0 < n);
                    }
                }
            }
        }
    }

    /// Takes `id` out of the cache, keeping the order of the others.
    fn drop_from_cache(&mut self, id: PartitionMapID)
        requires
            old(self).cached().no_duplicates(),
        ensures
            final(self).cached() == old(self).cached().filter(|c: PartitionMapID| c != id),
            final(self).cached().no_duplicates(),
            !final(self).cached().contains(id),
            forall|c: PartitionMapID|
                c != id ==> (#[trigger] final(self).cached().contains(c) <==> old(
                    self,
                ).cached().contains(c)),
            final(self).slots == old(self).slots,
            final(self).player == old(self).player,
    {
        let ghost pred = |c: PartitionMapID| c != id;
        let ghost old_cache = self.cache@;
        let mut kept: Vec<PartitionMapID> = Vec::new();
        let n = self.cache.len();
        let mut i: usize = 0;
        while i < n
            invariant
                n == self.cache@.len(),
                old_cache == self.cache@,
                pred == (|c: PartitionMapID| c != id),
                i <= n,
                kept@ == old_cache.take(i as int).filter(pred),
                old_cache.no_duplicates(),
                kept@.no_duplicates(),
                forall|c: PartitionMapID| #[trigger]
                    kept@.contains(c) <==> (old_cache.take(i as int).contains(c) && c != id),
            decreases n - i,
        {
            let c = self.cache[i];
            proof {
                let ghost s = old_cache.take(i + 1);
                assert(s.drop_last() =~= old_cache.take(i as int));
                assert(s.last() == c);
                assert(pred(c) == (c != id));
                reveal(Seq::filter);
                assert(s.filter(pred) == (if pred(s.last()) {
                    s.drop_last().filter(pred).push(s.last())
                } else {
                    s.drop_last().filter(pred)
                }));
                assert(old_cache.take(i + 1).filter(pred) == (if c != id {
                    old_cache.take(i as int).filter(pred).push(c)
                } else {
                    old_cache.take(i as int).filter(pred)
                }));
            }
            proof {
                if old_cache.take(i as int).contains(c) {
                    let a = choose|a: int| 0 <= a < i && old_cache.take(i as int)[a] == c;
                    assert(old_cache[a] == old_cache[i as int]);
                }
                assert forall|x: PartitionMapID| #[trigger]
                    old_cache.take(i + 1).contains(x) <==> (old_cache.take(i as int).contains(x)
                        || x == c) by {
                    if old_cache.take(i + 1).contains(x) {
                        let a = choose|a: int| 0 <= a < i + 1 && #[trigger] old_cache.take(i + 1)[a] == x;
                        if a < i {
                            assert(old_cache.take(i as int)[a] == x);
                        }
                    }
                    if old_cache.take(i as int).contains(x) {
                        let a = choose|a: int| 0 <= a < i && old_cache.take(i as int)[a] == x;
                        assert(old_cache.take(i + 1)[a] == x);
                    }
                    if x == c {
                        assert(old_cache.take(i + 1)[i as int] == x);
                    }
                }
            }
            let ghost kept_before = kept@;
            if c != id {
                proof {
                    assert(!kept@.contains(c));
                }
                kept.push(c);
                proof {
                    assert(kept@.last() == c);
                    assert forall|a: int, b: int|
                        0 <= a < kept@.len() && 0 <= b < kept@.len() && a != b implies kept@[a]
                        != kept@[b] by {
                        if a == kept@.len() - 1 {
                            assert(kept@.drop_last()[b] == kept@[b]);
                        } else if b == kept@.len() - 1 {
                            assert(kept@.drop_last()[a] == kept@[a]);
                        } else {
                            assert(kept@.drop_last()[a] == kept@[a]);
                            assert(kept@.drop_last()[b] == kept@[b]);
                        }
                    }
                }
            }
            proof {
                assert forall|x: PartitionMapID| #[trigger]
                    kept@.contains(x) <==> (kept_before.contains(x) || (x == c && c != id)) by {
                    if kept@.contains(x) && x != c {
                        let a = choose|a: int| 0 <= a < kept@.len() && kept@[a] == x;
                        assert(kept_before[a] == x);
                    }
                    if kept_before.contains(x) {
                        let a = choose|a: int| 0 <= a < kept_before.len() && kept_before[a] == x;
                        assert(kept@[a] == x);
                    }
                    if x == c && c != id {
                        assert(kept@[kept@.len() - 1] == x);
                    }
                }
            }
            i = i + 1;
        }
        proof {
            assert(old_cache.take(n as int) =~= old_cache);
        }
        self.cache = kept;
    }

    /// Deregisters a tile; its id leaves the cache.
    pub fn remove(&mut self, id: PartitionMapID)
        requires
            old(self).wf(),
        ensures
            final(self).wf(),
            final(self).tiles() == old(self).tiles().remove(id.0),
            final(self).next_id() == old(self).next_id(),
            final(self).player_spec() == old(self).player_spec(),
            final(self).cached() == old(self).cached().filter(|c: PartitionMapID| c != id),
    {
        if id.0 < self.slots.len() {
            self.slots.set(id.0, None);
        }
        self.drop_from_cache(id);
        proof {
            assert(self.tiles() =~= old(self).tiles().remove(id.0));
        }
    }

    /// Moves a registered tile to a new partition; the cache follows. An id
    /// that was never handed out is ignored.
    pub fn set(&mut self, id: PartitionMapID, new: Partition)
        requires
            old(self).wf(),
        ensures
            final(self).wf(),
            final(self).next_id() == old(self).next_id(),
            final(self).player_spec() == old(self).player_spec(),
            id.0 < old(self).next_id() ==> final(self).tiles() == old(self).tiles().insert(
                id.0,
                new,
            ),
            id.0 < old(self).next_id() ==> final(self).cached() == (if new.overlaps(
                old(self).player_spec(),
            ) {
                old(self).cached().filter(|c: PartitionMapID| c != id).push(id)
            } else {
                old(self).cached().filter(|c: PartitionMapID| c != id)
            }),
            id.0 >= old(self).next_id() ==> final(self).tiles() == old(self).tiles(),
            id.0 >= old(self).next_id() ==> final(self).cached() == old(self).cached(),
    {
        if id.0 < self.slots.len() {
            self.slots.set(id.0, Some(new));
            self.drop_from_cache(id);
            if new.collides(&self.player) {
                let ghost before = self.cache@;
                self.cache.push(id);
                proof {
                    assert forall|a: int, b: int|
                        0 <= a < self.cache@.len() && 0 <= b < self.cache@.len() && a != b
                        implies self.cache@[a] != self.cache@[b] by {
                        if a == self.cache@.len() - 1 {
                            assert(before[b] == self.cache@[b]);
                        } else if b == self.cache@.len() - 1 {
                            assert(before[a] == self.cache@[a]);
                        } else {
                            assert(before[a] == self.cache@[a]);
                            assert(before[b] == self.cache@[b]);
                        }
                    }
                    assert forall|k: usize| #[trigger]
                        self.cached().contains(PartitionMapID(k)) <==> (before.contains(
                            PartitionMapID(k),
                        ) || k == id.0) by {
                        if self.cached().contains(PartitionMapID(k)) && k != id.0 {
                            let a = choose|a: int|
                                0 <= a < self.cache@.len() && self.cache@[a] == PartitionMapID(k);
                            assert(before[a] == PartitionMapID(k));
                        }
                        if before.contains(PartitionMapID(k)) {
                            let a = choose|a: int|
                                0 <= a < before.len() && before[a] == PartitionMapID(k);
                            assert(self.cache@[a] == PartitionMapID(k));
                        }
                        if k == id.0 {
                            assert(self.cache@[self.cache@.len() - 1] == PartitionMapID(k));
                        }
                    }
                }
            }
            proof {
                assert(self.tiles() =~= old(self).tiles().insert(id.0, new));
                assert forall|k: usize| #[trigger]
                    self.cached().contains(PartitionMapID(k)) <==> self.is_candidate(k) by {
                    if k != id.0 {
                        assert(old(self).cached().contains(PartitionMapID(k))
                            <==> old(self).is_candidate(k));
                    }
                }
            }
        }
    }

    /// Moves the player. Only when the partition differs from the stored one
    /// is the cache rebuilt; otherwise nothing changes.
    pub fn set_player(&mut self, map: Partition)
        requires
            old(self).wf(),
        ensures
            final(self).wf(),
            final(self).player_spec() == map,
            final(self).tiles() == old(self).tiles(),
            final(self).next_id() == old(self).next_id(),
            old(self).player_spec() == map ==> final(self).cached() == old(self).cached(),
            old(self).player_spec() != map ==> final(self).cache_sorted(),
    {
        if self.player != map {
            self.player = map;
            self.reset_cache();
        }
    }

    /// Deregisters every tile and empties the cache; ids start again at zero.
    pub fn clear(&mut self)
        requires
            old(self).wf(),
        ensures
            final(self).wf(),
            final(self).tiles() == Map::<usize, Partition>::empty(),
            final(self).next_id() == 0,
            final(self).cached() == Seq::<PartitionMapID>::empty(),
            final(self).player_spec() == old(self).player_spec(),
    {
        self.slots = Vec::new();
        self.cache = Vec::new();
        proof {
            assert(self.tiles() =~= Map::<usize, Partition>::empty());
            assert(self.cached() =~= Seq::<PartitionMapID>::empty());
        }
    }
}

} // verus!

//! The render job registry: jobs stored by id, where an id encodes its layer
//! and the job's place in that layer, so that ids in increasing order give
//! the drawing order.
use crate::consts::{LAYERS, LAYER_SIZE};
use vstd::prelude::*;

verus! {

/// Identifier of a registered render job.
#[derive(Clone, Copy, PartialEq, Eq, Debug, Hash, Structural)]
pub struct RenderJobID(pub u64);

/// Index of a loaded font.
#[derive(Clone, Copy, PartialEq, Eq, Debug, Structural)]
pub struct FontID(pub usize);

/// Index of a loaded texture.
#[derive(Clone, Copy, PartialEq, Eq, Debug, Structural)]
pub struct TextureID(pub usize);

/// Layer of an id.
pub open spec fn layer_of(id: u64) -> int {
    id as int / LAYER_SIZE as int
}

/// Place of an id within its layer.
pub open spec fn slot_of(id: u64) -> int {
    id as int % LAYER_SIZE as int
}

/// Render jobs of any kind `J`, by layer and by order of registration.
pub struct RenderJobs<J> {
    // `layers[l][k]` holds the job with id `l * LAYER_SIZE + k` while it is registered
    layers: Vec<Vec<Option<J>>>,
}

impl<J> View for RenderJobs<J> {
    type V = Map<u64, J>;

    closed spec fn view(&self) -> Map<u64, J> {
        Map::new(
            |id: u64|
                layer_of(id) < self.layers@.len() && slot_of(id) < self.layers@[layer_of(
                    id,
                )]@.len() && self.layers@[layer_of(id)]@[slot_of(id)] is Some,
            |id: u64| self.layers@[layer_of(id)]@[slot_of(id)]->Some_0,
        )
    }
}

impl<J> RenderJobs<J> {
    /// Ids handed out so far in layer `layer`.
    pub closed spec fn issued(&self, layer: int) -> int {
        self.layers@[layer]@.len() as int
    }

    /// One row of slots per layer.
    pub closed spec fn wf(&self) -> bool {
        &&& self.layers@.len() == LAYERS
        &&& forall|l: int| 0 <= l < LAYERS ==> (#[trigger] self.layers@[l])@.len() <= LAYER_SIZE
    }

    /// An empty registry.
    pub fn new() -> (r: RenderJobs<J>)
        ensures
            r.wf(),
            r@ == Map::<u64, J>::empty(),
            forall|l: int| 0 <= l < LAYERS ==> #[trigger] r.issued(l) == 0,
    {
        let mut layers: Vec<Vec<Option<J>>> = Vec::new();
        let mut i: u64 = 0;
        while i < LAYERS
            invariant
                i <= LAYERS,
                layers@.len() == i,
                forall|l: int| 0 <= l < i ==> (#[trigger] layers@[l])@.len() == 0,
            decreases LAYERS - i,
        {
            layers.push(Vec::new());
            i = i + 1;
        }
        let r = RenderJobs { layers };
        proof {
            assert(r@ =~= Map::<u64, J>::empty());
        }
        r
    }

    /// Whether layer `layer` exists and can hand out another id.
    pub fn has_room(&self, layer: u64) -> (r: bool)
        requires
            self.wf(),
        ensures
            r == (layer < LAYERS && self.issued(layer as int) < LAYER_SIZE),
    {
        layer < LAYERS && (self.layers[layer as usize].len() as u64) < LAYER_SIZE
    }

    /// Registers a job on layer `layer` under the next id of that layer.
    pub fn add_job(&mut self, job: J, layer: u64) -> (id: RenderJobID)
        requires
            old(self).wf(),
            layer < LAYERS,
            old(self).issued(layer as int) < LAYER_SIZE,
        ensures
            final(self).wf(),
            id.0 == layer * LAYER_SIZE + old(self).issued(layer as int),
            layer_of(id.0) == layer,
            !old(self)@.contains_key(id.0),
            final(self)@ == old(self)@.insert(id.0, job),
            final(self).issued(layer as int) == old(self).issued(layer as int) + 1,
            forall|l: int|
                0 <= l < LAYERS && l != layer ==> #[trigger] final(self).issued(l) == old(
                    self,
                ).issued(l),
    {
        let l = layer as usize;
        let count = self.layers[l].len() as u64;
        let id = RenderJobID(layer * LAYER_SIZE + count);
        proof {
            assert(layer * LAYER_SIZE + count < LAYERS * LAYER_SIZE) by (nonlinear_arith)
                requires
                    layer < LAYERS,
                    count < LAYER_SIZE,
            ;
            lemma_id_parts(layer as int, count as int);
        }
        let mut row: Vec<Option<J>> = Vec::new();
        std::mem::swap(&mut row, &mut self.layers[l]);
        row.push(Some(job));
        std::mem::swap(&mut row, &mut self.layers[l]);
        proof {
            assert forall|k: u64| #[trigger] final(self)@.contains_key(k) == old(self)@.insert(
                id.0,
                job,
            ).contains_key(k) by {
                if k != id.0 && layer_of(k) == layer {
                    assert(slot_of(k) != count);
                }
            }
            assert(self@ =~= old(self)@.insert(id.0, job));
        }
        id
    }

    /// The id has been handed out: its layer exists and its place in the
    /// layer has been issued.
    pub open spec fn was_issued(&self, id: u64) -> bool {
        layer_of(id) < LAYERS && slot_of(id) < self.issued(layer_of(id))
    }

    pub fn get_job(&self, id: RenderJobID) -> (r: Option<&J>)
        requires
            self.wf(),
        ensures
            r is Some <==> self@.contains_key(id.0),
            r matches Some(j) ==> *j == self@[id.0],
    {
        let l = id.0 / LAYER_SIZE;
        let k = id.0 % LAYER_SIZE;
        if l < LAYERS && k < self.layers[l as usize].len() as u64 {
            match &self.layers[l as usize][k as usize] {
                Some(j) => Some(j),
                Option::None => Option::None,
            }
        } else {
            Option::None
        }
    }

    /// The job under an id, to change in place.
    pub fn get_job_mut(&mut self, id: RenderJobID) -> (r: Option<&mut J>)
        requires
            old(self).wf(),
        ensures
            r is Some <==> old(self)@.contains_key(id.0),
            match r {
                Some(j) => *j == old(self)@[id.0] && final(self)@ == old(self)@.insert(
                    id.0,
                    *final(j),
                ),
                Option::None => final(self)@ == old(self)@,
            },
            final(self).wf(),
            forall|l: int| 0 <= l < LAYERS ==> #[trigger] final(self).issued(l) == old(self).issued(l),
    {
        let l = id.0 / LAYER_SIZE;
        let k = id.0 % LAYER_SIZE;
        if l < LAYERS && k < self.layers[l as usize].len() as u64 {
            match &mut self.layers[l as usize][k as usize] {
                Some(j) => Some(j),
                Option::None => Option::None,
            }
        } else {
            Option::None
        }
    }

    /// Takes a job out of the registry; its id is not handed out again.
    pub fn remove_job(&mut self, id: RenderJobID) -> (r: Option<J>)
        requires
            old(self).wf(),
        ensures
            final(self).wf(),
            r is Some <==> old(self)@.contains_key(id.0),
            r matches Some(j) ==> j == old(self)@[id.0],
            final(self)@ == old(self)@.remove(id.0),
            forall|l: int| 0 <= l < LAYERS ==> #[trigger] final(self).issued(l) == old(self).issued(l),
    {
        let l = id.0 / LAYER_SIZE;
        let k = id.0 % LAYER_SIZE;
        if l < LAYERS && k < self.layers[l as usize].len() as u64 {
            let mut row: Vec<Option<J>> = Vec::new();
            std::mem::swap(&mut row, &mut self.layers[l as usize]);
            let mut taken: Option<J> = Option::None;
            std::mem::swap(&mut taken, &mut row[k as usize]);
            std::mem::swap(&mut row, &mut self.layers[l as usize]);
            proof {
                assert(self@ =~= old(self)@.remove(id.0));
            }
            taken
        } else {
            proof {
                assert(self@ =~= old(self)@.remove(id.0));
            }
            Option::None
        }
    }

    /// Puts a job under an id that was handed out; an id never handed out is
    /// ignored.
    pub fn set_job(&mut self, job: J, id: RenderJobID)
        requires
            old(self).wf(),
        ensures
            final(self).wf(),
            final(self)@ == (if old(self).was_issued(id.0) {
                old(self)@.insert(id.0, job)
            } else {
                old(self)@
            }),
            forall|l: int| 0 <= l < LAYERS ==> #[trigger] final(self).issued(l) == old(self).issued(l),
    {
        let l = id.0 / LAYER_SIZE;
        let k = id.0 % LAYER_SIZE;
        if l < LAYERS && k < self.layers[l as usize].len() as u64 {
            let mut row: Vec<Option<J>> = Vec::new();
            std::mem::swap(&mut row, &mut self.layers[l as usize]);
            row.set(k as usize, Some(job));
            std::mem::swap(&mut row, &mut self.layers[l as usize]);
            proof {
                assert(self@ =~= old(self)@.insert(id.0, job));
            }
        }
    }

    /// Ids of the registered jobs in increasing order: the drawing order.
    pub fn job_ids(&self) -> (r: Vec<RenderJobID>)
        requires
            self.wf(),
        ensures
            forall|i: int, j: int| 0 <= i < j < r@.len() ==> (#[trigger] r@[i]).0 < (#[trigger] r@[j]).0,
            forall|id: u64| #[trigger] self@.contains_key(id) <==> r@.contains(RenderJobID(id)),
    {
        let mut out: Vec<RenderJobID> = Vec::new();
        let mut l: u64 = 0;
        while l < LAYERS
            invariant
                self.wf(),
                l <= LAYERS,
                forall|i: int, j: int|
                    0 <= i < j < out@.len() ==> (#[trigger] out@[i]).0 < (#[trigger] out@[j]).0,
                forall|i: int| 0 <= i < out@.len() ==> layer_of((#[trigger] out@[i]).0) < l,
                forall|id: u64|
                    layer_of(id) < l ==> (#[trigger] self@.contains_key(id) <==> out@.contains(
                        RenderJobID(id),
                    )),
            decreases LAYERS - l,
        {
            let row = &self.layers[l as usize];
            let ghost before = out@;
            let mut k: usize = 0;
            while k < row.len()
                invariant
                    self.wf(),
                    l < LAYERS,
                    row == self.layers@[l as int],
                    k <= row@.len(),
                    before.len() <= out@.len(),
                    forall|i: int| 0 <= i < before.len() ==> out@[i] == #[trigger] before[i],
                    forall|i: int, j: int|
                        0 <= i < j < out@.len() ==> (#[trigger] out@[i]).0 < (#[trigger] out@[j]).0,
                    forall|i: int| 0 <= i < before.len() ==> layer_of((#[trigger] before[i]).0) < l,
                    forall|i: int|
                        before.len() <= i < out@.len() ==> layer_of((#[trigger] out@[i]).0) == l
                            && slot_of(out@[i].0) < k,
                    forall|id: u64|
                        layer_of(id) < l ==> (#[trigger] self@.contains_key(id) <==> before.contains(
                            RenderJobID(id),
                        )),
                    forall|id: u64|
                        layer_of(id) == l && slot_of(id) < k ==> (#[trigger] self@.contains_key(id)
                            <==> out@.contains(RenderJobID(id))),
                decreases row@.len() - k,
            {
                let ghost mid = out@;
                if row[k].is_some() {
                    let id = RenderJobID(l * LAYER_SIZE + k as u64);
                    proof {
                        assert(l * LAYER_SIZE + k < LAYERS * LAYER_SIZE) by (nonlinear_arith)
                            requires
                                l < LAYERS,
                                k < LAYER_SIZE,
                        ;
                        lemma_id_parts(l as int, k as int);
                        assert forall|i: int| 0 <= i < mid.len() implies (#[trigger] mid[i]).0 < id.0 by {
                            if i < before.len() {
                                assert(mid[i] == before[i]);
                            }
                            lemma_id_order(mid[i].0, id.0);
                        }
                    }
                    out.push(id);
                    proof {
                        assert forall|i: int, j: int|
                            0 <= i < j < out@.len() implies (#[trigger] out@[i]).0 < (#[trigger] out@[j]).0 by {
                            if j == out@.len() - 1 {
                                assert(mid[i] == out@[i]);
                            } else {
                                assert(mid[i] == out@[i]);
                                assert(mid[j] == out@[j]);
                            }
                        }
                    }
                }
                proof {
                    assert forall|x: RenderJobID| #[trigger] out@.contains(x) <==> (mid.contains(x) || (x.0 == l * LAYER_SIZE + k && row@[k as int] is Some)) by {
                        if out@.contains(x) {
                            let i = choose|i: int| 0 <= i < out@.len() && out@[i] == x;
                            if i < mid.len() {
                                assert(mid[i] == x);
                            }
                        }
                        if mid.contains(x) {
                            let i = choose|i: int| 0 <= i < mid.len() && mid[i] == x;
                            assert(out@[i] == x);
                        }
                        if x.0 == l * LAYER_SIZE + k && row@[k as int] is Some {
                            assert(out@[out@.len() - 1] == x);
                        }
                    }
                    assert forall|id: u64|
                        layer_of(id) == l && slot_of(id) < k + 1 implies (#[trigger] self@.contains_key(id)
                            <==> out@.contains(RenderJobID(id))) by {
                        lemma_id_split(id);
                        if slot_of(id) == k {
                            assert(id == l * LAYER_SIZE + k);
                            if mid.contains(RenderJobID(id)) {
                                let i = choose|i: int| 0 <= i < mid.len() && mid[i] == RenderJobID(id);
                                if i < before.len() {
                                    assert(before[i] == mid[i]);
                                }
                            }
                        } else {
                            if (id == l * LAYER_SIZE + k) {
                                lemma_id_parts(l as int, k as int);
                            }
                        }
                    }
                    assert forall|id: u64|
                        layer_of(id) < l implies (#[trigger] self@.contains_key(id) <==> before.contains(
                            RenderJobID(id),
                        )) by {
                    }
                }
                k = k + 1;
            }
            proof {
                assert forall|id: u64|
                    layer_of(id) < l + 1 implies (#[trigger] self@.contains_key(id) <==> out@.contains(
                        RenderJobID(id),
                    )) by {
                    if layer_of(id) < l {
                        if out@.contains(RenderJobID(id)) {
                            let i = choose|i: int| 0 <= i < out@.len() && out@[i] == RenderJobID(id);
                            if i >= before.len() {
                                assert(layer_of(out@[i].0) == l);
                            } else {
                                assert(before[i] == out@[i]);
                            }
                        }
                        if before.contains(RenderJobID(id)) {
                            let i = choose|i: int| 0 <= i < before.len() && before[i] == RenderJobID(id);
                            assert(out@[i] == before[i]);
                        }
                    } else {
                        if slot_of(id) >= row@.len() {
                            if out@.contains(RenderJobID(id)) {
                                let i = choose|i: int| 0 <= i < out@.len() && out@[i] == RenderJobID(id);
                                if i < before.len() {
                                    assert(before[i] == out@[i]);
                                }
                            }
                        }
                    }
                }
                assert forall|i: int| 0 <= i < out@.len() implies layer_of((#[trigger] out@[i]).0) < l + 1 by {
                    if i < before.len() {
                        assert(before[i] == out@[i]);
                    }
                }
            }
            l = l + 1;
        }
        proof {
            assert forall|id: u64| #[trigger] self@.contains_key(id) <==> out@.contains(RenderJobID(id)) by {
                lemma_layer_bound(id);
            }
        }
        out
    }

    /// The layer an id belongs to.
    pub fn get_layer(id: RenderJobID) -> (r: u64)
        ensures
            r == layer_of(id.0),
    {
        id.0 / LAYER_SIZE
    }
}

/// Every id falls in one of the layers.
proof fn lemma_layer_bound(id: u64)
    ensures
        layer_of(id) < LAYERS,
{
    assert(id / 2305843009213693952u64 < 8u64) by (bit_vector);
}

/// An id is its layer's base plus its place in the layer.
proof fn lemma_id_split(id: u64)
    ensures
        id == layer_of(id) * LAYER_SIZE + slot_of(id),
        0 <= slot_of(id) < LAYER_SIZE,
        0 <= layer_of(id),
{
    vstd::arithmetic::div_mod::lemma_fundamental_div_mod(id as int, LAYER_SIZE as int);
}

/// Ids are ordered by layer first, then by place in the layer.
proof fn lemma_id_order(a: u64, b: u64)
    requires
        layer_of(a) < layer_of(b) || (layer_of(a) == layer_of(b) && slot_of(a) < slot_of(b)),
    ensures
        a < b,
{
    lemma_id_split(a);
    lemma_id_split(b);
    let (la, sa, lb, sb) = (layer_of(a), slot_of(a), layer_of(b), slot_of(b));
    if la < lb {
        assert(la * LAYER_SIZE + LAYER_SIZE <= lb * LAYER_SIZE) by (nonlinear_arith)
            requires
                la < lb,
        ;
    }
}

/// An id is the sum of its layer's base and its place in the layer.
proof fn lemma_id_parts(layer: int, slot: int)
    requires
        0 <= layer,
        0 <= slot < LAYER_SIZE,
    ensures
        (layer * LAYER_SIZE + slot) / LAYER_SIZE as int == layer,
        (layer * LAYER_SIZE + slot) % LAYER_SIZE as int == slot,
{
    vstd::arithmetic::div_mod::lemma_fundamental_div_mod_converse(
        layer * LAYER_SIZE + slot,
        LAYER_SIZE as int,
        layer,
        slot,
    );
}

} // verus!

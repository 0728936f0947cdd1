use vstd::prelude::*;

use crate::error::TextureError;
use crate::geometry::{Ratio, frame_fraction, frame_size, sprite_fraction, sprite_frame};
use crate::sampler::SamplerState;

verus! {

/// The heavyweight shared object: one uploaded hardware texture and what is
/// known of it. An empty name means the resource is never cached.
pub struct TextureData {
    pub name: String,
    pub texture: u32,
    pub w: u32,
    pub h: u32,
    pub is_srgb: bool,
    pub is_sdf: bool,
    pub vmax: u32,
}

/// A resource slot with the number of handles that hold it. A slot whose
/// count is zero has been collected: its hardware texture was released.
pub struct SharedResource {
    pub data: TextureData,
    pub strong: u64,
}

/// A view: framing and an exclusively owned sampler over a shared resource.
pub struct Texture {
    pub path: String,
    pub name: String,
    pub sx: usize,
    pub sy: usize,
    pub resource: usize,
    pub sampler: SamplerState,
}

/// A freshly uploaded hardware texture, handed in on a cache miss.
#[derive(Clone, Copy, Debug, PartialEq, Eq, Structural)]
pub struct Upload {
    pub texture: u32,
    pub width: u32,
    pub height: u32,
}

/// The hardware objects to delete after a handle is freed.
#[derive(Clone, Copy, Debug, PartialEq, Eq, Structural)]
pub struct Released {
    pub sampler: u32,
    pub texture: Option<u32>,
}

/// Whether a handle slot holds a view of resource `i`.
pub open spec fn refers_to(t: Option<Texture>, i: int) -> bool {
    t matches Some(v) && v.resource == i
}

/// The number of handles that hold resource `i`.
pub open spec fn refs(hs: Seq<Option<Texture>>, i: int) -> nat
    decreases hs.len(),
{
    if hs.len() == 0 {
        0
    } else {
        refs(hs.drop_last(), i) + if refers_to(hs.last(), i) { 1nat } else { 0nat }
    }
}

proof fn lemma_refs_push(hs: Seq<Option<Texture>>, x: Option<Texture>, i: int)
    ensures
        refs(hs.push(x), i) == refs(hs, i) + if refers_to(x, i) { 1nat } else { 0nat },
{
    assert(hs.push(x).drop_last() =~= hs);
}

proof fn lemma_refs_update(hs: Seq<Option<Texture>>, j: int, x: Option<Texture>, i: int)
    requires
        0 <= j < hs.len(),
    ensures
        refs(hs.update(j, x), i) + (if refers_to(hs[j], i) { 1nat } else { 0nat }) == refs(hs, i)
            + if refers_to(x, i) { 1nat } else { 0nat },
    decreases hs.len(),
{
    if j == hs.len() - 1 {
        assert(hs.update(j, x).drop_last() =~= hs.drop_last());
    } else {
        lemma_refs_update(hs.drop_last(), j, x, i);
        assert(hs.update(j, x).drop_last() =~= hs.drop_last().update(j, x));
    }
}

proof fn lemma_refs_none(hs: Seq<Option<Texture>>, i: int)
    requires
        forall|j: int| 0 <= j < hs.len() ==> !refers_to(#[trigger] hs[j], i),
    ensures
        refs(hs, i) == 0,
    decreases hs.len(),
{
    if hs.len() > 0 {
        assert forall|j: int| 0 <= j < hs.drop_last().len() implies !refers_to(
            #[trigger] hs.drop_last()[j],
            i,
        ) by {
            assert(hs.drop_last()[j] == hs[j]);
        }
        lemma_refs_none(hs.drop_last(), i);
    }
}

/// The sampler of a duplicate: a new object `id` with the wrap and filter
/// parameters of `s`, and no border colour of its own.
pub open spec fn copied_sampler(s: SamplerState, id: u32) -> SamplerState {
    SamplerState {
        id,
        wrap_s: s.wrap_s,
        wrap_t: s.wrap_t,
        min_filter: s.min_filter,
        mag_filter: s.mag_filter,
        border: None,
    }
}

/// Whether a handle in `hs` owns the sampler object `id`.
pub open spec fn sampler_taken(hs: Seq<Option<Texture>>, id: u32) -> bool {
    exists|j: int| 0 <= j < hs.len() && #[trigger] hs[j] is Some && hs[j]->Some_0.sampler.id == id
}

/// Whether a live slot of `rs` owns the hardware texture `id`.
pub open spec fn texture_taken(rs: Seq<SharedResource>, id: u32) -> bool {
    exists|i: int| 0 <= i < rs.len() && #[trigger] rs[i].strong > 0 && rs[i].data.texture == id
}

/// No two live handles share a sampler object.
pub open spec fn samplers_distinct(hs: Seq<Option<Texture>>) -> bool {
    forall|j1: int, j2: int|
        0 <= j1 < hs.len() && 0 <= j2 < hs.len() && #[trigger] hs[j1] is Some && #[trigger] hs[j2] is Some
            && hs[j1]->Some_0.sampler.id == hs[j2]->Some_0.sampler.id ==> j1 == j2
}

/// No two live resources share a hardware texture.
pub open spec fn textures_distinct(rs: Seq<SharedResource>) -> bool {
    forall|i1: int, i2: int|
        0 <= i1 < rs.len() && 0 <= i2 < rs.len() && #[trigger] rs[i1].strong > 0
            && #[trigger] rs[i2].strong > 0 && rs[i1].data.texture == rs[i2].data.texture ==> i1
            == i2
}

proof fn lemma_samplers_push(hs: Seq<Option<Texture>>, t: Texture)
    requires
        samplers_distinct(hs),
        !sampler_taken(hs, t.sampler.id),
    ensures
        samplers_distinct(hs.push(Some(t))),
{
    let hs2 = hs.push(Some(t));
    assert forall|j1: int, j2: int|
        0 <= j1 < hs2.len() && 0 <= j2 < hs2.len() && #[trigger] hs2[j1] is Some && #[trigger] hs2[j2] is Some
            && hs2[j1]->Some_0.sampler.id == hs2[j2]->Some_0.sampler.id implies j1 == j2 by {
        if j1 < hs.len() && j2 < hs.len() {
            assert(hs[j1] == hs2[j1] && hs[j2] == hs2[j2]);
        } else if j1 < hs.len() {
            assert(hs[j1] == hs2[j1]);
        } else if j2 < hs.len() {
            assert(hs[j2] == hs2[j2]);
        }
    }
}

proof fn lemma_samplers_update(hs: Seq<Option<Texture>>, h: int, x: Option<Texture>)
    requires
        samplers_distinct(hs),
        0 <= h < hs.len(),
        x is None || (hs[h] is Some && x->Some_0.sampler.id == hs[h]->Some_0.sampler.id),
    ensures
        samplers_distinct(hs.update(h, x)),
{
    let hs2 = hs.update(h, x);
    assert forall|j1: int, j2: int|
        0 <= j1 < hs2.len() && 0 <= j2 < hs2.len() && #[trigger] hs2[j1] is Some && #[trigger] hs2[j2] is Some
            && hs2[j1]->Some_0.sampler.id == hs2[j2]->Some_0.sampler.id implies j1 == j2 by {
        assert(hs[j1] is Some && hs[j2] is Some);
        assert(hs[j1]->Some_0.sampler.id == hs2[j1]->Some_0.sampler.id);
        assert(hs[j2]->Some_0.sampler.id == hs2[j2]->Some_0.sampler.id);
    }
}

proof fn lemma_textures_same_or_dying(rs: Seq<SharedResource>, rs2: Seq<SharedResource>)
    requires
        textures_distinct(rs),
        rs2.len() == rs.len(),
        forall|i: int|
            0 <= i < rs.len() ==> (#[trigger] rs2[i]).data == rs[i].data && (rs2[i].strong > 0
                ==> rs[i].strong > 0),
    ensures
        textures_distinct(rs2),
{
    assert forall|i1: int, i2: int|
        0 <= i1 < rs2.len() && 0 <= i2 < rs2.len() && #[trigger] rs2[i1].strong > 0
            && #[trigger] rs2[i2].strong > 0 && rs2[i1].data.texture == rs2[i2].data.texture implies i1
            == i2 by {
        assert(rs[i1].strong > 0 && rs[i2].strong > 0);
    }
}

proof fn lemma_textures_push(rs: Seq<SharedResource>, x: SharedResource)
    requires
        textures_distinct(rs),
        !texture_taken(rs, x.data.texture),
    ensures
        textures_distinct(rs.push(x)),
{
    let rs2 = rs.push(x);
    assert forall|i1: int, i2: int|
        0 <= i1 < rs2.len() && 0 <= i2 < rs2.len() && #[trigger] rs2[i1].strong > 0
            && #[trigger] rs2[i2].strong > 0 && rs2[i1].data.texture == rs2[i2].data.texture implies i1
            == i2 by {
        if i1 < rs.len() {
            assert(rs[i1] == rs2[i1]);
        }
        if i2 < rs.len() {
            assert(rs[i2] == rs2[i2]);
        }
    }
}

/// The process-wide texture registry and the table of issued handles.
pub struct TextureManager {
    slots: Vec<SharedResource>,
    observers: Vec<usize>,
    handles: Vec<Option<Texture>>,
}

impl TextureManager {
    /// Every resource ever uploaded, in order of upload.
    pub closed spec fn resources(&self) -> Seq<SharedResource> {
        self.slots@
    }

    /// The non-owning cache entries: indices of named resources.
    pub closed spec fn observers(&self) -> Seq<usize> {
        self.observers@
    }

    /// The handle table; a freed handle holds `None`.
    pub closed spec fn handles(&self) -> Seq<Option<Texture>> {
        self.handles@
    }

    pub open spec fn live(&self, i: int) -> bool {
        0 <= i < self.resources().len() && self.resources()[i].strong > 0
    }

    pub open spec fn valid_handle(&self, h: int) -> bool {
        0 <= h < self.handles().len() && self.handles()[h] is Some
    }

    pub open spec fn view_of(&self, h: int) -> Texture {
        self.handles()[h]->Some_0
    }

    /// Whether a live handle owns the sampler object `id`.
    pub open spec fn sampler_used(&self, id: u32) -> bool {
        sampler_taken(self.handles(), id)
    }

    /// Whether a live resource owns the hardware texture `id`.
    pub open spec fn texture_used(&self, id: u32) -> bool {
        texture_taken(self.resources(), id)
    }

    /// The first live cache entry named `name`, from observer `k` on.
    pub open spec fn find_from(&self, name: Seq<char>, k: int) -> Option<int>
        decreases self.observers().len() - k,
    {
        if k < 0 || k >= self.observers().len() {
            None
        } else {
            let i = self.observers()[k] as int;
            if self.live(i) && self.resources()[i].data.name@ == name {
                Some(i)
            } else {
                self.find_from(name, k + 1)
            }
        }
    }

    /// The live resource cached under `name`; never one for the empty name.
    pub open spec fn cached(&self, name: Seq<char>) -> Option<int> {
        if name.len() == 0 {
            None
        } else {
            self.find_from(name, 0)
        }
    }

    pub closed spec fn wf(&self) -> bool {
        &&& self.handles@.len() <= usize::MAX
        &&& self.slots@.len() <= usize::MAX
        &&& forall|k: int|
            0 <= k < self.observers@.len() ==> {
                &&& (#[trigger] self.observers@[k] as int) < self.slots@.len()
                &&& self.slots@[self.observers@[k] as int].data.name@.len() > 0
            }
        &&& forall|j: int|
            0 <= j < self.handles@.len() && #[trigger] self.handles@[j] is Some ==> (
            self.handles@[j]->Some_0.resource as int) < self.slots@.len()
        &&& forall|i: int|
            0 <= i < self.slots@.len() ==> #[trigger] self.slots@[i].strong == refs(
                self.handles@,
                i,
            )
        &&& forall|k1: int, k2: int|
            0 <= k1 < self.observers@.len() && 0 <= k2 < self.observers@.len() && self.live(
                #[trigger] self.observers@[k1] as int,
            ) && self.live(#[trigger] self.observers@[k2] as int)
                && self.slots@[self.observers@[k1] as int].data.name@
                == self.slots@[self.observers@[k2] as int].data.name@ ==> self.observers@[k1]
                == self.observers@[k2]
        &&& forall|i: int|
            0 <= i < self.slots@.len() && (#[trigger] self.slots@[i]).data.name@.len() > 0 ==> exists|
                k: int,
            |
                0 <= k < self.observers@.len() && self.observers@[k] as int == i
        &&& samplers_distinct(self.handles@)
        &&& textures_distinct(self.slots@)
    }

    proof fn lemma_find_from_none(&self, name: Seq<char>, k: int, m: int)
        requires
            0 <= k <= m < self.observers().len(),
            self.find_from(name, k) is None,
        ensures
            !(self.live(self.observers()[m] as int) && self.resources()[
                self.observers()[m] as int
            ].data.name@ == name),
        decreases m - k,
    {
        if k < m {
            self.lemma_find_from_none(name, k + 1, m);
        }
    }

    proof fn lemma_find_from_some(&self, name: Seq<char>, k: int)
        requires
            self.find_from(name, k) is Some,
        ensures
            self.live(self.find_from(name, k)->Some_0),
            self.resources()[self.find_from(name, k)->Some_0].data.name@ == name,
            exists|m: int|
                k <= m < self.observers().len() && self.observers()[m] as int == self.find_from(
                    name,
                    k,
                )->Some_0,
        decreases self.observers().len() - k,
    {
        let i = self.observers()[k] as int;
        if !(self.live(i) && self.resources()[i].data.name@ == name) {
            self.lemma_find_from_some(name, k + 1);
        }
    }

    /// Any live cache entry with a name is the one that lookup finds.
    proof fn lemma_cached_unique(&self, name: Seq<char>, m: int)
        requires
            self.wf(),
            0 <= m < self.observers().len(),
            self.live(self.observers()[m] as int),
            self.resources()[self.observers()[m] as int].data.name@ == name,
        ensures
            self.cached(name) == Some(self.observers()[m] as int),
    {
        let s = self.find_from(name, 0);
        if s is None {
            self.lemma_find_from_none(name, 0, m);
        } else {
            self.lemma_find_from_some(name, 0);
            let k = choose|k: int|
                0 <= k < self.observers().len() && self.observers()[k] as int == s->Some_0;
            assert(self.live(self.observers()[k] as int));
        }
    }

    /// What `issue` leaves behind, given the manager `pre` before the call.
    pub open spec fn issued(
        self,
        pre: Self,
        r: Result<usize, TextureError>,
        key: Seq<char>,
        fresh: Option<Upload>,
        is_srgb: bool,
        is_sdf: bool,
        view: Texture,
    ) -> bool {
        match pre.cached(key) {
            Some(i) => if pre.resources()[i].strong == u64::MAX {
                r == Err::<usize, TextureError>(TextureError::GraphicsAllocation) && self == pre
            } else {
                &&& r == Ok::<usize, TextureError>(pre.handles().len() as usize)
                &&& self.resources() == pre.resources().update(
                    i,
                    SharedResource {
                        data: pre.resources()[i].data,
                        strong: (pre.resources()[i].strong + 1) as u64,
                    },
                )
                &&& self.observers() == pre.observers()
                &&& self.handles() == pre.handles().push(Some(Texture { resource: i as usize, ..view }))
            },
            None => {
                let n = pre.resources().len() as int;
                let d = self.resources()[n].data;
                &&& r == Ok::<usize, TextureError>(pre.handles().len() as usize)
                &&& self.resources().len() == n + 1
                &&& self.resources().drop_last() == pre.resources()
                &&& self.resources()[n].strong == 1
                &&& d.name@ == key
                &&& d.texture == fresh->Some_0.texture
                &&& d.w == fresh->Some_0.width
                &&& d.h == fresh->Some_0.height
                &&& d.is_srgb == is_srgb
                &&& d.is_sdf == is_sdf
                &&& d.vmax == 1
                &&& self.handles() == pre.handles().push(Some(Texture { resource: n as usize, ..view }))
                &&& if key.len() > 0 {
                    &&& self.observers() == pre.observers().push(n as usize)
                    &&& self.cached(key) == Some(n)
                } else {
                    self.observers() == pre.observers()
                }
            },
        }
    }

    /// What `free` of handle `h` leaves behind, given the manager `pre`.
    pub open spec fn freed(self, pre: Self, h: int, r: Released) -> bool {
        let v = pre.view_of(h);
        let i = v.resource as int;
        let res = pre.resources()[i];
        &&& self.handles() == pre.handles().update(h, None)
        &&& self.observers() == pre.observers()
        &&& self.resources() == pre.resources().update(
            i,
            SharedResource { data: res.data, strong: (res.strong - 1) as u64 },
        )
        &&& r.sampler == v.sampler.id
        &&& r.texture == if res.strong == 1 {
            Some(res.data.texture)
        } else {
            None::<u32>
        }
    }

    /// An empty registry with no handles.
    pub fn new() -> (r: TextureManager)
        ensures
            r.wf(),
            r.resources().len() == 0,
            r.observers().len() == 0,
            r.handles().len() == 0,
    {
        TextureManager { slots: Vec::new(), observers: Vec::new(), handles: Vec::new() }
    }

    /// Looks up the live resource cached under `name`.
    pub fn find(&self, name: &String) -> (r: Option<usize>)
        requires
            self.wf(),
        ensures
            match r {
                Some(i) => self.cached(name@) == Some(i as int),
                None => self.cached(name@) is None,
            },
    {
        if name.as_str().is_empty() {
            return None;
        }
        let mut k: usize = 0;
        while k < self.observers.len()
            invariant
                self.wf(),
                name@.len() > 0,
                k <= self.observers@.len(),
                self.find_from(name@, 0) == self.find_from(name@, k as int),
            decreases self.observers@.len() - k,
        {
            let i = self.observers[k];
            if self.slots[i].strong > 0 && self.slots[i].data.name.eq(name) {
                return Some(i);
            }
            k += 1;
        }
        None
    }

    /// Adds a view under the cache key `key`: on a hit the cached resource
    /// gains a holder; on a miss `fresh` becomes a new resource, cached when
    /// `key` is not empty. Fails, changing nothing, only where the cached
    /// resource can take no further holder.
    pub(crate) fn issue(
        &mut self,
        key: String,
        fresh: Option<Upload>,
        is_srgb: bool,
        is_sdf: bool,
        view: Texture,
    ) -> (r: Result<usize, TextureError>)
        requires
            old(self).wf(),
            fresh is None <==> old(self).cached(key@) is Some,
            !old(self).sampler_used(view.sampler.id),
            fresh matches Some(u) ==> !old(self).texture_used(u.texture),
        ensures
            final(self).wf(),
            final(self).issued(*old(self), r, key@, fresh, is_srgb, is_sdf, view),
    {
        let ghost pre = *self;
        let found = self.find(&key);
        match found {
            Some(i) => {
                proof {
                    self.lemma_find_from_some(key@, 0);
                }
                let s = self.slots[i].strong;
                if s == u64::MAX {
                    return Err(TextureError::GraphicsAllocation);
                }
                proof {
                    lemma_samplers_push(self.handles@, Texture { resource: i, ..view });
                    lemma_refs_push(self.handles@, Some(Texture { resource: i, ..view }), i as int);
                    assert forall|j: int| 0 <= j < self.slots@.len() && j != i implies refs(
                        self.handles@.push(Some(Texture { resource: i, ..view })),
                        j,
                    ) == refs(self.handles@, j) by {
                        lemma_refs_push(self.handles@, Some(Texture { resource: i, ..view }), j);
                    }
                }
                self.slots[i].strong = s + 1;
                let mut view = view;
                view.resource = i;
                self.handles.push(Some(view));
                proof {
                    assert(self.slots@ =~= pre.slots@.update(i as int, SharedResource { data: pre.slots@[i as int].data, strong: (s + 1) as u64 }));
                    lemma_textures_same_or_dying(pre.slots@, self.slots@);
                    assert forall|k: int| 0 <= k < self.observers@.len() implies (self.live(#[trigger] self.observers@[k] as int) <==> pre.live(self.observers@[k] as int)) by {}
                }
                Ok(self.handles.len() - 1)
            },
            None => {
                let up = fresh.unwrap();
                let n = self.slots.len();
                let named = !key.as_str().is_empty();
                proof {
                    assert forall|j: int| 0 <= j < self.handles@.len() implies !refers_to(#[trigger] self.handles@[j], n as int) by {}
                    lemma_refs_none(self.handles@, n as int);
                    lemma_refs_push(self.handles@, Some(Texture { resource: n, ..view }), n as int);
                    lemma_samplers_push(self.handles@, Texture { resource: n, ..view });
                    assert forall|j: int| 0 <= j < n implies refs(
                        self.handles@.push(Some(Texture { resource: n, ..view })),
                        j,
                    ) == refs(self.handles@, j) by {
                        lemma_refs_push(self.handles@, Some(Texture { resource: n, ..view }), j);
                    }
                    if named {
                        assert forall|m: int| 0 <= m < pre.observers@.len() implies !(pre.live(#[trigger] pre.observers@[m] as int) && pre.slots@[pre.observers@[m] as int].data.name@ == key@) by {
                            pre.lemma_find_from_none(key@, 0, m);
                        }
                    }
                }
                self.slots.push(SharedResource {
                    data: TextureData {
                        name: key,
                        texture: up.texture,
                        w: up.width,
                        h: up.height,
                        is_srgb,
                        is_sdf,
                        vmax: 1,
                    },
                    strong: 1,
                });
                if named {
                    self.observers.push(n);
                }
                let mut view = view;
                view.resource = n;
                self.handles.push(Some(view));
                let count = self.handles.len();
                proof {
                    assert(self.slots@.len() == self.slots.len());
                    assert(self.slots@.drop_last() =~= pre.slots@);
                    assert(self.slots@ =~= pre.slots@.push(self.slots@.last()));
                    lemma_textures_push(pre.slots@, self.slots@.last());
                    assert forall|j: int| 0 <= j < self.slots@.len() && (#[trigger] self.slots@[j]).data.name@.len() > 0 implies exists|k: int| 0 <= k < self.observers@.len() && self.observers@[k] as int == j by {
                        if j < n {
                            assert(pre.slots@[j] == self.slots@[j]);
                            let k = choose|k: int| 0 <= k < pre.observers@.len() && pre.observers@[k] as int == j;
                            assert(self.observers@[k] == pre.observers@[k]);
                        } else {
                            assert(self.observers@[pre.observers@.len() as int] == n);
                        }
                    }
                    if named {
                        assert(self.observers@[pre.observers@.len() as int] == n);
                        self.lemma_cached_unique(key@, pre.observers@.len() as int);
                    }
                }
                Ok(count - 1)
            },
        }
    }

    /// Frees handle `h`: its sampler is to be deleted, and the resource it
    /// held loses that holder; its texture is to be deleted exactly when no
    /// holder remains.
    pub fn free(&mut self, h: usize) -> (r: Released)
        requires
            old(self).wf(),
            old(self).valid_handle(h as int),
        ensures
            final(self).wf(),
            final(self).freed(*old(self), h as int, r),
    {
        let ghost pre = *self;
        let mut slot: Option<Texture> = None;
        std::mem::swap(&mut self.handles[h], &mut slot);
        let t = slot.unwrap();
        let i = t.resource;
        proof {
            lemma_refs_update(pre.handles@, h as int, None, i as int);
            assert forall|j: int| 0 <= j < self.slots@.len() && j != i implies refs(
                self.handles@,
                j,
            ) == refs(pre.handles@, j) by {
                lemma_refs_update(pre.handles@, h as int, None, j);
            }
        }
        let s = self.slots[i].strong;
        self.slots[i].strong = s - 1;
        proof {
            assert(self.slots@ =~= pre.slots@.update(
                i as int,
                SharedResource { data: pre.slots@[i as int].data, strong: (s - 1) as u64 },
            ));
            assert forall|j: int| 0 <= j < self.slots@.len() && #[trigger] self.live(j) implies pre.live(j) by {}
            lemma_samplers_update(pre.handles@, h as int, None);
            lemma_textures_same_or_dying(pre.slots@, self.slots@);
        }
        let texture = if s == 1 {
            Some(self.slots[i].data.texture)
        } else {
            None
        };
        Released { sampler: t.sampler.id, texture }
    }

    /// A new handle on the same resource as `h`, with a sampler of its own
    /// (`sampler`) that copies the wrap and filter parameters of `h`'s.
    /// Fails, changing nothing, only where the resource can take no
    /// further holder.
    pub fn duplicate(&mut self, h: usize, sampler: u32) -> (r: Result<usize, TextureError>)
        requires
            old(self).wf(),
            old(self).valid_handle(h as int),
            !old(self).sampler_used(sampler),
        ensures
            final(self).wf(),
            ({
                let v = old(self).view_of(h as int);
                let i = v.resource as int;
                let res = old(self).resources()[i];
                if res.strong == u64::MAX {
                    r == Err::<usize, TextureError>(TextureError::GraphicsAllocation) && *final(self)
                        == *old(self)
                } else {
                    &&& r == Ok::<usize, TextureError>(old(self).handles().len() as usize)
                    &&& final(self).handles() == old(self).handles().push(
                        Some(Texture { sampler: copied_sampler(v.sampler, sampler), ..v }),
                    )
                    &&& final(self).observers() == old(self).observers()
                    &&& final(self).resources() == old(self).resources().update(
                        i,
                        SharedResource { data: res.data, strong: (res.strong + 1) as u64 },
                    )
                }
            }),
    {
        let ghost pre = *self;
        let t = self.handles[h].as_ref().unwrap();
        let i = t.resource;
        let s = self.slots[i].strong;
        if s == u64::MAX {
            return Err(TextureError::GraphicsAllocation);
        }
        let dup = Texture {
            path: t.path.clone(),
            name: t.name.clone(),
            sx: t.sx,
            sy: t.sy,
            resource: i,
            sampler: SamplerState {
                id: sampler,
                wrap_s: t.sampler.wrap_s,
                wrap_t: t.sampler.wrap_t,
                min_filter: t.sampler.min_filter,
                mag_filter: t.sampler.mag_filter,
                border: None,
            },
        };
        proof {
            lemma_refs_update(pre.handles@, h as int, None, i as int);
            lemma_refs_push(pre.handles@, Some(dup), i as int);
            lemma_samplers_push(pre.handles@, dup);
            assert forall|j: int| 0 <= j < self.slots@.len() && j != i implies refs(
                pre.handles@.push(Some(dup)),
                j,
            ) == refs(pre.handles@, j) by {
                lemma_refs_push(pre.handles@, Some(dup), j);
            }
        }
        self.slots[i].strong = s + 1;
        self.handles.push(Some(dup));
        proof {
            assert(self.slots@ =~= pre.slots@.update(
                i as int,
                SharedResource { data: pre.slots@[i as int].data, strong: (s + 1) as u64 },
            ));
            assert forall|j: int| 0 <= j < self.slots@.len() implies (#[trigger] self.live(j) <==> pre.live(j)) by {}
            lemma_textures_same_or_dying(pre.slots@, self.slots@);
        }
        Ok(self.handles.len() - 1)
    }

    /// Replaces the parameters of `h`'s sampler; no other handle changes.
    pub fn set_sampler(&mut self, h: usize, state: SamplerState)
        requires
            old(self).wf(),
            old(self).valid_handle(h as int),
            state.id == old(self).view_of(h as int).sampler.id,
        ensures
            final(self).wf(),
            final(self).resources() == old(self).resources(),
            final(self).observers() == old(self).observers(),
            final(self).handles() == old(self).handles().update(
                h as int,
                Some(Texture { sampler: state, ..old(self).view_of(h as int) }),
            ),
    {
        let ghost pre = *self;
        let mut slot: Option<Texture> = None;
        std::mem::swap(&mut self.handles[h], &mut slot);
        let mut t = slot.unwrap();
        t.sampler = state;
        proof {
            assert forall|j: int| 0 <= j < self.slots@.len() implies refs(
                pre.handles@.update(h as int, Some(t)),
                j,
            ) == refs(pre.handles@, j) by {
                lemma_refs_update(pre.handles@, h as int, Some(t), j);
            }
        }
        proof {
            lemma_samplers_update(pre.handles@, h as int, Some(t));
        }
        self.handles.set(h, Some(t));
        proof {
            assert(self.handles@ =~= pre.handles@.update(h as int, Some(t)));
        }
    }

    /// Whether `h` is a handle that was issued and not yet freed.
    pub fn is_valid(&self, h: usize) -> (r: bool)
        ensures
            r == self.valid_handle(h as int),
    {
        h < self.handles.len() && self.handles[h].is_some()
    }

    /// The view behind handle `h`.
    pub fn view(&self, h: usize) -> (r: &Texture)
        requires
            self.valid_handle(h as int),
        ensures
            *r == self.view_of(h as int),
    {
        self.handles[h].as_ref().unwrap()
    }

    /// The resource that handle `h` holds.
    pub fn data(&self, h: usize) -> (r: &TextureData)
        requires
            self.wf(),
            self.valid_handle(h as int),
        ensures
            *r == self.resources()[self.view_of(h as int).resource as int].data,
    {
        let t = self.handles[h].as_ref().unwrap();
        &self.slots[t.resource].data
    }

    /// Width of one sprite frame in pixels.
    pub fn frame_width(&self, h: usize) -> (r: Ratio)
        requires
            self.wf(),
            self.valid_handle(h as int),
        ensures
            r == frame_size(
                self.resources()[self.view_of(h as int).resource as int].data.w,
                self.view_of(h as int).sx,
            ),
    {
        let t = self.handles[h].as_ref().unwrap();
        sprite_frame(self.slots[t.resource].data.w, t.sx)
    }

    /// Height of one sprite frame in pixels.
    pub fn frame_height(&self, h: usize) -> (r: Ratio)
        requires
            self.wf(),
            self.valid_handle(h as int),
        ensures
            r == frame_size(
                self.resources()[self.view_of(h as int).resource as int].data.h,
                self.view_of(h as int).sy,
            ),
    {
        let t = self.handles[h].as_ref().unwrap();
        sprite_frame(self.slots[t.resource].data.h, t.sy)
    }

    /// Width of one sprite frame relative to the whole texture.
    pub fn frame_width_normalized(&self, h: usize) -> (r: Ratio)
        requires
            self.wf(),
            self.valid_handle(h as int),
        ensures
            r == frame_fraction(
                self.resources()[self.view_of(h as int).resource as int].data.w,
                self.view_of(h as int).sx,
            ),
    {
        let t = self.handles[h].as_ref().unwrap();
        sprite_fraction(self.slots[t.resource].data.w, t.sx)
    }

    /// Height of one sprite frame relative to the whole texture.
    pub fn frame_height_normalized(&self, h: usize) -> (r: Ratio)
        requires
            self.wf(),
            self.valid_handle(h as int),
        ensures
            r == frame_fraction(
                self.resources()[self.view_of(h as int).resource as int].data.h,
                self.view_of(h as int).sy,
            ),
    {
        let t = self.handles[h].as_ref().unwrap();
        sprite_fraction(self.slots[t.resource].data.h, t.sy)
    }

    /// The count kept for each resource is the number of issued handles
    /// that hold it.
    pub proof fn lemma_count_is_holders(&self, i: int)
        requires
            self.wf(),
            0 <= i < self.resources().len(),
        ensures
            self.resources()[i].strong == refs(self.handles(), i),
    {
    }

    /// While a handle holds a named resource, that resource is the one
    /// cached under its name: a request under the name is a cache hit on it,
    /// takes no upload, and issues a view that shares it.
    pub proof fn lemma_cache_dedup(
        &self,
        h: int,
        next: Self,
        r: Result<usize, TextureError>,
        fresh: Option<Upload>,
        is_srgb: bool,
        is_sdf: bool,
        view: Texture,
    )
        requires
            self.wf(),
            self.valid_handle(h),
            self.resources()[self.view_of(h).resource as int].data.name@.len() > 0,
            fresh is None <==> self.cached(
                self.resources()[self.view_of(h).resource as int].data.name@,
            ) is Some,
            next.issued(
                *self,
                r,
                self.resources()[self.view_of(h).resource as int].data.name@,
                fresh,
                is_srgb,
                is_sdf,
                view,
            ),
        ensures
            fresh is None,
            r is Ok ==> next.view_of(r->Ok_0 as int).resource == self.view_of(h).resource,
            next.resources().len() == self.resources().len(),
    {
        let i = self.view_of(h).resource as int;
        lemma_refs_update(self.handles(), h, None, i);
        let k = choose|k: int| 0 <= k < self.observers@.len() && self.observers@[k] as int == i;
        self.lemma_cached_unique(self.resources()[i].data.name@, k);
        if r is Ok {
            assert(next.handles()[self.handles().len() as int] == Some(
                Texture { resource: i as usize, ..view },
            ));
        }
    }

    /// Requests under the empty name never share a resource: each uploads
    /// a resource of its own, with a hardware texture of its own.
    pub proof fn lemma_unnamed_not_shared(
        &self,
        mid: Self,
        last: Self,
        r1: Result<usize, TextureError>,
        r2: Result<usize, TextureError>,
        fresh1: Option<Upload>,
        fresh2: Option<Upload>,
        is_srgb: bool,
        is_sdf: bool,
        view1: Texture,
        view2: Texture,
    )
        requires
            self.wf(),
            mid.wf(),
            last.wf(),
            mid.issued(*self, r1, Seq::empty(), fresh1, is_srgb, is_sdf, view1),
            last.issued(mid, r2, Seq::empty(), fresh2, is_srgb, is_sdf, view2),
        ensures
            r1 is Ok && r2 is Ok,
            last.view_of(r1->Ok_0 as int).resource != last.view_of(r2->Ok_0 as int).resource,
            last.resources()[last.view_of(r1->Ok_0 as int).resource as int].data.texture
                != last.resources()[last.view_of(r2->Ok_0 as int).resource as int].data.texture,
    {
        assert(last.handles()[r1->Ok_0 as int] == mid.handles()[r1->Ok_0 as int]);
        assert(mid.handles()[r1->Ok_0 as int]->Some_0.resource == self.resources().len());
        assert(last.handles()[r2->Ok_0 as int]->Some_0.resource == mid.resources().len());
        last.lemma_handle_in_range(r1->Ok_0 as int);
        last.lemma_handle_in_range(r2->Ok_0 as int);
    }

    /// Freeing a handle takes exactly one holder from its resource, and the
    /// hardware texture is released exactly when that holder was the last:
    /// never while another handle holds it, and never twice.
    pub proof fn lemma_released_with_last_holder(&self, h: int, next: Self, r: Released)
        requires
            self.wf(),
            next.wf(),
            self.valid_handle(h),
            next.freed(*self, h, r),
        ensures
            refs(next.handles(), self.view_of(h).resource as int) + 1 == refs(
                self.handles(),
                self.view_of(h).resource as int,
            ),
            r.texture is Some <==> refs(next.handles(), self.view_of(h).resource as int) == 0,
            refs(next.handles(), self.view_of(h).resource as int) == 0 ==> forall|j: int|
                0 <= j < next.handles().len() ==> !refers_to(
                    #[trigger] next.handles()[j],
                    self.view_of(h).resource as int,
                ),
    {
        let i = self.view_of(h).resource as int;
        lemma_refs_update(self.handles(), h, None, i);
        if refs(next.handles(), i) == 0 {
            assert forall|j: int| 0 <= j < next.handles().len() implies !refers_to(
                #[trigger] next.handles()[j],
                i,
            ) by {
                if refers_to(next.handles()[j], i) {
                    lemma_refs_update(next.handles(), j, None, i);
                }
            }
        }
    }

    /// Changing the sampler of a duplicate leaves the sampler of the handle
    /// it was duplicated from as it was.
    pub proof fn lemma_sampler_independence(
        &self,
        h: int,
        dup: Self,
        d: usize,
        last: Self,
        state: SamplerState,
    )
        requires
            self.valid_handle(h),
            d == self.handles().len(),
            dup.handles() == self.handles().push(
                Some(Texture { sampler: copied_sampler(self.view_of(h).sampler, state.id), ..self.view_of(h) }),
            ),
            last.handles() == dup.handles().update(
                d as int,
                Some(Texture { sampler: state, ..dup.view_of(d as int) }),
            ),
        ensures
            last.view_of(h).sampler == self.view_of(h).sampler,
            last.view_of(d as int).sampler == state,
    {
    }

    /// Whether a live handle owns the sampler object `id`.
    pub fn sampler_in_use(&self, id: u32) -> (r: bool)
        ensures
            r == self.sampler_used(id),
    {
        let mut k: usize = 0;
        while k < self.handles.len()
            invariant
                k <= self.handles@.len(),
                forall|j: int|
                    0 <= j < k ==> !(#[trigger] self.handles@[j] is Some
                        && self.handles@[j]->Some_0.sampler.id == id),
            decreases self.handles@.len() - k,
        {
            if let Some(t) = &self.handles[k] {
                if t.sampler.id == id {
                    assert(self.handles@[k as int] is Some);
                    return true;
                }
            }
            k += 1;
        }
        false
    }

    /// Whether a live resource owns the hardware texture `id`.
    pub fn texture_in_use(&self, id: u32) -> (r: bool)
        ensures
            r == self.texture_used(id),
    {
        let mut k: usize = 0;
        while k < self.slots.len()
            invariant
                k <= self.slots@.len(),
                forall|i: int|
                    0 <= i < k ==> !(#[trigger] self.slots@[i].strong > 0
                        && self.slots@[i].data.texture == id),
            decreases self.slots@.len() - k,
        {
            if self.slots[k].strong > 0 && self.slots[k].data.texture == id {
                assert(self.slots@[k as int].strong > 0);
                return true;
            }
            k += 1;
        }
        false
    }

    /// A live handle holds a resource of the registry.
    pub proof fn lemma_handle_in_range(&self, h: int)
        requires
            self.wf(),
            self.valid_handle(h),
        ensures
            0 <= self.view_of(h).resource < self.resources().len(),
            self.live(self.view_of(h).resource as int),
    {
        lemma_refs_update(self.handles(), h, None, self.view_of(h).resource as int);
    }
}

} // verus!

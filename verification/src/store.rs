//! The instance store: the live rectangles under stable identifiers, the
//! bytes staged for upload, and the dirty state that says whether those
//! bytes can be trusted.

use vstd::prelude::*;
use vstd::seq_lib::*;

use crate::dirtiness::{Change, Dirtiness};
use crate::rectangle::{
    append_record, lemma_serialize_len, lemma_serialize_push, record_bytes, serialize, Rectangle,
};
use crate::slots::{
    has_key, lookup_key, slot_entries, slot_headroom, slots_get_mut, slots_insert, slots_len,
    slots_new, slots_remove, slots_values, SlotTable, FRESH_HEADROOM,
};

verus! {

/// Number of indices of the unit quad: two triangles.
pub const INDEX_COUNT: u32 = 6;

/// The most instances a store can hold at once, whatever its ceiling.
pub const MAX_LIVE: usize = 0xFFFF_FFFE;

/// Identifier of one live rectangle. It stays good until the rectangle is
/// removed.
#[derive(Clone, Copy, Debug, PartialEq, Eq, Hash)]
pub struct RectangleId {
    raw: u64,
}

impl View for RectangleId {
    type V = u64;

    /// The key that the identifier stands for.
    closed spec fn view(&self) -> u64 {
        lookup_key(self.raw)
    }
}

/// The one draw that a frame with live instances issues.
#[derive(Clone, Copy, Debug, PartialEq, Eq, Structural)]
pub struct DrawCall {
    /// Number of staged bytes to upload to the instance buffer, from
    /// offset 0.
    pub bytes_written: usize,
    /// Number of indices of the quad.
    pub index_count: u32,
    /// Number of instances to draw.
    pub instance_count: u32,
    /// Whether the staged bytes were regenerated for this draw.
    pub rebuilt: bool,
}

/// Why a frame cannot be drawn.
#[derive(Clone, Copy, Debug, PartialEq, Eq, Structural)]
pub enum RenderError {
    /// More instances are live than the GPU buffer has room for.
    CapacityExceeded,
}

/// What a store holds, as mathematics.
pub struct StoreView {
    /// The live instances under their keys, in the order in which a full
    /// rebuild walks them.
    pub entries: Seq<(u64, Rectangle)>,
    /// The bytes staged for upload.
    pub staged: Seq<u8>,
    pub dirtiness: Dirtiness,
    /// Number of instances that the GPU buffer has room for.
    pub max_instance_count: nat,
}

/// Whether `bytes` are the records of `live`, each exactly once, in some
/// order.
pub open spec fn stages(bytes: Seq<u8>, live: Seq<Rectangle>) -> bool {
    exists|order: Seq<Rectangle>| #[trigger] stages_in(bytes, order, live)
}

/// Whether `bytes` are the records of `live` in the order `order`.
pub open spec fn stages_in(bytes: Seq<u8>, order: Seq<Rectangle>, live: Seq<Rectangle>) -> bool {
    bytes == serialize(order) && order.to_multiset() == live.to_multiset()
}

impl StoreView {
    /// The live instances in the order of the walk.
    pub open spec fn instances(self) -> Seq<Rectangle> {
        self.entries.map_values(|entry: (u64, Rectangle)| entry.1)
    }

    /// Whether `key` names a live instance.
    pub open spec fn contains(self, key: u64) -> bool {
        has_key(self.entries, key)
    }

    /// Where in the walk the instance under `key` stands.
    pub open spec fn position(self, key: u64) -> int {
        choose|i: int| 0 <= i < self.entries.len() && (#[trigger] self.entries[i]).0 == key
    }

    /// The instance under `key`.
    pub open spec fn value_of(self, key: u64) -> Rectangle {
        self.entries[self.position(key)].1
    }

    /// No key names two entries.
    pub open spec fn keys_distinct(self) -> bool {
        forall|i: int, j: int|
            0 <= i < j < self.entries.len() ==> (#[trigger] self.entries[i]).0
                != (#[trigger] self.entries[j]).0
    }

    /// The invariant of a store: keys are distinct, and unless a rebuild is
    /// owed the staged bytes are exactly the live records.
    pub open spec fn wf(self) -> bool {
        &&& self.keys_distinct()
        &&& self.dirtiness != Dirtiness::RebuildRequired ==> stages(self.staged, self.instances())
    }

    /// The store with `value` under `key`, a rebuild owed.
    pub open spec fn with_value(self, key: u64, value: Rectangle) -> StoreView {
        StoreView {
            entries: self.entries.update(self.position(key), (key, value)),
            dirtiness: Dirtiness::RebuildRequired,
            ..self
        }
    }

    /// The store without the entry under `key`, a rebuild owed.
    pub open spec fn without(self, key: u64) -> StoreView {
        StoreView {
            entries: self.entries.remove(self.position(key)),
            dirtiness: Dirtiness::RebuildRequired,
            ..self
        }
    }

    /// The store after it took in `instance` under `key` at place `i` of
    /// the walk.
    pub open spec fn with_entry(self, i: int, key: u64, instance: Rectangle) -> StoreView {
        StoreView {
            entries: self.entries.insert(i, (key, instance)),
            staged: self.staged + record_bytes(instance),
            dirtiness: self.dirtiness.after_insert(),
            ..self
        }
    }

    /// Whether `after` is this store after it took in `instance` under a
    /// key that named nothing before.
    pub open spec fn appended(self, after: StoreView, key: u64, instance: Rectangle) -> bool {
        &&& !self.contains(key)
        &&& exists|i: int|
            0 <= i <= self.entries.len() && after == #[trigger] self.with_entry(i, key, instance)
    }

    /// Whether the GPU buffer has room for every live instance.
    pub open spec fn fits(self) -> bool {
        self.entries.len() <= self.max_instance_count
    }

    /// The draw of a frame on this store, where the frame is drawn: none
    /// without live instances.
    pub open spec fn draw_call(self) -> Option<DrawCall> {
        if self.entries.len() == 0 {
            None
        } else {
            Some(
                DrawCall {
                    bytes_written: (self.entries.len() * Rectangle::SIZE) as usize,
                    index_count: INDEX_COUNT,
                    instance_count: self.entries.len() as u32,
                    rebuilt: self.dirtiness == Dirtiness::RebuildRequired,
                },
            )
        }
    }

    /// The store after a frame that was drawn: untouched without live
    /// instances; else clean, its staged bytes regenerated in the order of
    /// the walk where a rebuild was owed and kept as they were where none
    /// was.
    pub open spec fn rendered(self) -> StoreView {
        if self.entries.len() == 0 {
            self
        } else {
            StoreView {
                staged: if self.dirtiness == Dirtiness::RebuildRequired {
                    serialize(self.instances())
                } else {
                    self.staged
                },
                dirtiness: Dirtiness::Clean,
                ..self
            }
        }
    }

    /// The store with a rebuild owed and nothing else changed.
    pub open spec fn escalated(self) -> StoreView {
        StoreView { dirtiness: Dirtiness::RebuildRequired, ..self }
    }

    /// The store after a handle on the instance under `key` was asked for
    /// and `value` left behind through it: a rebuild is owed either way,
    /// and a key that names nothing changes nothing else.
    pub open spec fn written(self, key: u64, value: Rectangle) -> StoreView {
        if self.contains(key) {
            self.with_value(key, value)
        } else {
            self.escalated()
        }
    }

    /// The store after the removal of `key` was asked for: a rebuild is
    /// owed either way, and a key that names nothing changes nothing else.
    pub open spec fn removed(self, key: u64) -> StoreView {
        if self.contains(key) {
            self.without(key)
        } else {
            self.escalated()
        }
    }

    /// Size in bytes of the GPU buffer that takes the staged bytes.
    pub open spec fn buffer_size(self) -> int {
        self.max_instance_count * Rectangle::SIZE
    }

    /// In a store with distinct keys the entry under a key stands at one
    /// place only.
    pub proof fn lemma_position(self, key: u64, i: int)
        requires
            self.keys_distinct(),
            0 <= i < self.entries.len(),
            self.entries[i].0 == key,
        ensures
            self.contains(key),
            self.position(key) == i,
    {
        let p = self.position(key);
        if p < i {
            assert(self.entries[p].0 != self.entries[i].0);
        } else if i < p {
            assert(self.entries[i].0 != self.entries[p].0);
        }
    }

    /// Taking in an instance keeps the invariant and touches no other
    /// instance: the new key names the new instance, and every other key
    /// names what it named before.
    pub proof fn lemma_appended_wf(self, after: StoreView, key: u64, instance: Rectangle)
        requires
            self.wf(),
            self.appended(after, key, instance),
        ensures
            after.wf(),
            after.entries.len() == self.entries.len() + 1,
            after.staged == self.staged + record_bytes(instance),
            after.dirtiness == self.dirtiness.after_insert(),
            after.max_instance_count == self.max_instance_count,
            after.contains(key),
            after.value_of(key) == instance,
            forall|other: u64|
                other != key ==> #[trigger] after.contains(other) == self.contains(other),
            forall|other: u64|
                other != key && self.contains(other) ==> #[trigger] after.value_of(other)
                    == self.value_of(other),
    {
        let i = choose|i: int|
            0 <= i <= self.entries.len() && after == #[trigger] self.with_entry(i, key, instance);
        lemma_insert_keeps_distinct(self, after, i, key, instance);
        if after.dirtiness != Dirtiness::RebuildRequired {
            lemma_insert_keeps_staging(self, after, i, key, instance);
        }
        assert(after.entries[i].0 == key);
        after.lemma_position(key, i);
        assert forall|other: u64| other != key implies #[trigger] after.contains(other)
            == self.contains(other) by {
            if self.contains(other) {
                let q = self.position(other);
                let q1 = if q < i { q } else { q + 1 };
                assert(after.entries[q1] == self.entries[q]);
            }
            if after.contains(other) {
                let q1 = after.position(other);
                let q = if q1 < i { q1 } else { q1 - 1 };
                assert(self.entries[q] == after.entries[q1]);
            }
        }
        assert forall|other: u64| other != key && self.contains(other) implies #[trigger] after.value_of(
            other,
        ) == self.value_of(other) by {
            let q = self.position(other);
            let q1 = if q < i { q } else { q + 1 };
            assert(after.entries[q1] == self.entries[q]);
            after.lemma_position(other, q1);
        }
    }

    /// A frame that is drawn keeps the invariant and the live instances;
    /// with live instances it leaves the store clean and the staged bytes
    /// exactly the live records.
    pub proof fn lemma_rendered_wf(self)
        requires
            self.wf(),
        ensures
            self.rendered().wf(),
            self.rendered().entries == self.entries,
            self.entries.len() > 0 ==> self.rendered().dirtiness == Dirtiness::Clean && stages(
                self.rendered().staged,
                self.instances(),
            ) && self.rendered().staged.len() == self.entries.len() * Rectangle::SIZE,
    {
        if self.entries.len() > 0 {
            if self.dirtiness == Dirtiness::RebuildRequired {
                assert(stages_in(self.rendered().staged, self.instances(), self.instances()));
            }
            self.rendered().lemma_staged_len();
        }
    }

    /// The append-only fast path. Let a store on which no rebuild is owed
    /// take in one instance after the other and nothing else happen to it:
    /// `trace` holds the store before, between and after these
    /// insertions. Then the next frame, where it is drawn, regenerates
    /// nothing: it uploads the bytes staged before followed by the new
    /// records in the order in which they came, one record for each live
    /// instance, and draws them all in one call.
    pub proof fn lemma_append_only_fast_path(
        trace: Seq<StoreView>,
        keys: Seq<u64>,
        added: Seq<Rectangle>,
    )
        requires
            trace.len() == added.len() + 1,
            keys.len() == added.len(),
            trace[0].wf(),
            trace[0].dirtiness != Dirtiness::RebuildRequired,
            forall|k: int|
                0 <= k < added.len() ==> (#[trigger] trace[k]).appended(
                    trace[k + 1],
                    keys[k],
                    added[k],
                ),
        ensures
            trace.last().wf(),
            trace.last().dirtiness != Dirtiness::RebuildRequired,
            trace.last().entries.len() == trace[0].entries.len() + added.len(),
            trace.last().rendered().staged == trace[0].staged + serialize(added),
            trace.last().entries.len() > 0 ==> trace.last().draw_call() == Some(
                DrawCall {
                    bytes_written: (trace.last().entries.len() * Rectangle::SIZE) as usize,
                    index_count: INDEX_COUNT,
                    instance_count: trace.last().entries.len() as u32,
                    rebuilt: false,
                },
            ) && trace.last().rendered().staged.len() == trace.last().entries.len()
                * Rectangle::SIZE,
        decreases added.len(),
    {
        if added.len() == 0 {
            assert(trace[0].staged + serialize(added) =~= trace[0].staged);
        } else {
            let n = added.len() as int;
            let front = trace.drop_last();
            assert forall|k: int| 0 <= k < n - 1 implies (#[trigger] front[k]).appended(
                front[k + 1],
                keys.drop_last()[k],
                added.drop_last()[k],
            ) by {
                assert(trace[k].appended(trace[k + 1], keys[k], added[k]));
            }
            Self::lemma_append_only_fast_path(front, keys.drop_last(), added.drop_last());
            assert(front.last() == trace[n - 1]);
            assert(trace[n - 1].appended(trace[n], keys[n - 1], added[n - 1]));
            trace[n - 1].lemma_appended_wf(trace[n], keys[n - 1], added[n - 1]);
            assert(trace.last().staged =~= trace[0].staged + serialize(added));
        }
        trace.last().lemma_rendered_wf();
    }

    /// Rebuild after a removal. Take a live instance out of a store that
    /// holds others besides: the next frame, where it is drawn,
    /// regenerates the staged bytes, and they are the records of the
    /// instances that are left, in the order of the walk, with no byte of
    /// the one that went.
    pub proof fn lemma_rebuild_after_remove(self, key: u64)
        requires
            self.wf(),
            self.contains(key),
            self.entries.len() > 1,
        ensures
            self.without(key).wf(),
            self.without(key).instances() == self.instances().remove(self.position(key)),
            self.without(key).rendered().staged == serialize(
                self.instances().remove(self.position(key)),
            ),
            self.without(key).rendered().staged.len() == (self.entries.len() - 1)
                * Rectangle::SIZE,
            self.without(key).draw_call() == Some(
                DrawCall {
                    bytes_written: ((self.entries.len() - 1) * Rectangle::SIZE) as usize,
                    index_count: INDEX_COUNT,
                    instance_count: (self.entries.len() - 1) as u32,
                    rebuilt: true,
                },
            ),
    {
        let after = self.without(key);
        assert(after.instances() =~= self.instances().remove(self.position(key)));
        lemma_serialize_len(after.instances());
    }

    /// A removal takes out exactly one instance and touches no other: the
    /// key names nothing afterwards, and every other key names what it
    /// named before.
    pub proof fn lemma_without(self, key: u64)
        requires
            self.keys_distinct(),
            self.contains(key),
        ensures
            self.without(key).keys_distinct(),
            self.without(key).entries.len() == self.entries.len() - 1,
            !self.without(key).contains(key),
            forall|other: u64|
                other != key && self.contains(other) ==> #[trigger] self.without(key).contains(
                    other,
                ) && self.without(key).value_of(other) == self.value_of(other),
    {
        let p = self.position(key);
        let after = self.without(key);
        assert forall|i: int, j: int| 0 <= i < j < after.entries.len() implies (
        #[trigger] after.entries[i]).0 != (#[trigger] after.entries[j]).0 by {
            let i0 = if i < p { i } else { i + 1 };
            let j0 = if j < p { j } else { j + 1 };
            assert(self.entries[i0].0 != self.entries[j0].0);
        }
        if after.contains(key) {
            let i = after.position(key);
            let i0 = if i < p { i } else { i + 1 };
            self.lemma_position(key, i0);
        }
        assert forall|other: u64| other != key && self.contains(other) implies #[trigger] after.contains(
            other,
        ) && after.value_of(other) == self.value_of(other) by {
            let q = self.position(other);
            let q1 = if q < p { q } else { q - 1 };
            assert(after.entries[q1] == self.entries[q]);
            after.lemma_position(other, q1);
        }
    }

    /// A write reaches the instance under the key and no other: the key
    /// names the new value afterwards, and every other key names what it
    /// named before.
    pub proof fn lemma_with_value(self, key: u64, value: Rectangle)
        requires
            self.keys_distinct(),
            self.contains(key),
        ensures
            self.with_value(key, value).keys_distinct(),
            self.with_value(key, value).entries.len() == self.entries.len(),
            self.with_value(key, value).contains(key),
            self.with_value(key, value).value_of(key) == value,
            forall|other: u64|
                other != key && self.contains(other) ==> #[trigger] self.with_value(
                    key,
                    value,
                ).contains(other) && self.with_value(key, value).value_of(other) == self.value_of(
                    other,
                ),
    {
        let p = self.position(key);
        let after = self.with_value(key, value);
        assert forall|i: int, j: int| 0 <= i < j < after.entries.len() implies (
        #[trigger] after.entries[i]).0 != (#[trigger] after.entries[j]).0 by {
            assert(self.entries[i].0 != self.entries[j].0);
        }
        assert(after.entries[p].0 == key);
        after.lemma_position(key, p);
        assert forall|other: u64| other != key && self.contains(other) implies #[trigger] after.contains(
            other,
        ) && after.value_of(other) == self.value_of(other) by {
            let q = self.position(other);
            assert(after.entries[q] == self.entries[q]);
            after.lemma_position(other, q);
        }
    }

    /// Whatever happens to a store between two frames moves its dirty
    /// state as its kind of change says, and so never lowers it.
    pub proof fn lemma_changes_escalate(self, after: StoreView, key: u64, value: Rectangle)
        ensures
            self.appended(after, key, value) ==> after.dirtiness == self.dirtiness.after(
                Change::Insert,
            ),
            self.written(key, value).dirtiness == self.dirtiness.after(Change::Mutate),
            self.removed(key).dirtiness == self.dirtiness.after(Change::Remove),
            self.escalated().dirtiness == self.dirtiness.after(Change::Mutate),
            self.appended(after, key, value) ==> after.dirtiness.level() >= self.dirtiness.level(),
            self.written(key, value).dirtiness.level() >= self.dirtiness.level(),
            self.removed(key).dirtiness.level() >= self.dirtiness.level(),
    {
    }

    /// Staged records are as many as the live ones.
    pub proof fn lemma_staged_len(self)
        requires
            self.wf(),
            self.dirtiness != Dirtiness::RebuildRequired,
        ensures
            self.staged.len() == self.entries.len() * Rectangle::SIZE,
    {
        let order = choose|order: Seq<Rectangle>| #[trigger]
            stages_in(self.staged, order, self.instances());
        lemma_serialize_len(order);
        order.to_multiset_ensures();
        self.instances().to_multiset_ensures();
    }
}

/// The instance store of the rectangle pass.
pub struct RectangleRenderer {
    instances: SlotTable,
    instance_bytes: Vec<u8>,
    dirtiness: Dirtiness,
    max_instance_count: u32,
}

impl View for RectangleRenderer {
    type V = StoreView;

    closed spec fn view(&self) -> StoreView {
        StoreView {
            entries: slot_entries(self.instances),
            staged: self.instance_bytes@,
            dirtiness: self.dirtiness,
            max_instance_count: self.max_instance_count as nat,
        }
    }
}

impl RectangleRenderer {
    /// The invariant that every operation keeps: what the store holds is
    /// well formed, within what a store can hold, and in step with the
    /// slots behind it.
    pub open spec fn wf(&self) -> bool {
        &&& self@.wf()
        &&& self@.entries.len() <= MAX_LIVE
        &&& self@.max_instance_count <= u32::MAX
        &&& self.slots_wf()
    }

    /// The slots have room for as many further instances as the store
    /// lacks to be full.
    pub closed spec fn slots_wf(&self) -> bool {
        slot_entries(self.instances).len() + slot_headroom(self.instances) == FRESH_HEADROOM
    }

    /// An empty store whose GPU buffer has room for `max_instance_count`
    /// instances.
    pub fn new(max_instance_count: u32) -> (store: Self)
        ensures
            store.wf(),
            store@ == (StoreView {
                entries: Seq::empty(),
                staged: Seq::empty(),
                dirtiness: Dirtiness::Clean,
                max_instance_count: max_instance_count as nat,
            }),
    {
        let store = RectangleRenderer {
            instances: slots_new(),
            instance_bytes: Vec::new(),
            dirtiness: Dirtiness::Clean,
            max_instance_count,
        };
        proof {
            assert(store@.instances() =~= Seq::<Rectangle>::empty());
            assert(stages_in(store@.staged, Seq::<Rectangle>::empty(), store@.instances()));
        }
        store
    }

    /// Whether a draw is owed: true unless the store is clean.
    pub fn is_redraw_required(&self) -> (required: bool)
        ensures
            required == (self@.dirtiness != Dirtiness::Clean),
    {
        self.dirtiness.is_dirty()
    }

    /// The dirty state.
    pub fn dirtiness(&self) -> (dirtiness: Dirtiness)
        ensures
            dirtiness == self@.dirtiness,
    {
        self.dirtiness
    }

    /// Number of live instances.
    pub fn live_count(&self) -> (count: usize)
        ensures
            count == self@.entries.len(),
    {
        slots_len(&self.instances)
    }

    /// Number of instances that the GPU buffer has room for.
    pub fn max_instance_count(&self) -> (count: u32)
        ensures
            count == self@.max_instance_count,
    {
        self.max_instance_count
    }

    /// Size in bytes of the GPU buffer that takes the staged bytes.
    pub fn instance_buffer_size(&self) -> (size: u64)
        ensures
            size == self@.buffer_size(),
    {
        let count: u64 = self.max_instance_count as u64;
        let record_size: u64 = Rectangle::SIZE as u64;
        count * record_size
    }

    /// The bytes staged for upload.
    pub fn staged_bytes(&self) -> (bytes: &[u8])
        ensures
            bytes@ == self@.staged,
    {
        self.instance_bytes.as_slice()
    }

    /// Takes in one instance and hands out its identifier. The bytes of the
    /// instance are appended to the staged bytes, and a redraw is owed at
    /// least.
    pub fn add(&mut self, instance: &Rectangle) -> (id: RectangleId)
        requires
            old(self).wf(),
            old(self)@.entries.len() < MAX_LIVE,
        ensures
            final(self).wf(),
            old(self)@.appended(final(self)@, id@, *instance),
            final(self)@.contains(id@),
            final(self)@.value_of(id@) == *instance,
    {
        match self.dirtiness {
            Dirtiness::RebuildRequired => {},
            _ => {
                self.dirtiness = Dirtiness::RedrawRequired;
            },
        }
        let raw = slots_insert(&mut self.instances, *instance);
        append_record(&mut self.instance_bytes, instance);
        proof {
            let before = old(self)@;
            let after = self@;
            let i = choose|i: int|
                0 <= i <= before.entries.len() && after.entries == #[trigger] before.entries.insert(
                    i,
                    (raw, *instance),
                );
            assert(after == before.with_entry(i, raw, *instance));
            before.lemma_appended_wf(after, raw, *instance);
        }
        RectangleId { raw }
    }

    /// Hands out the instance under `id` for writing, if it is live. The
    /// store takes the handle for an intent to write: a rebuild is owed
    /// from now on, whether or not anything is written.
    pub fn get_mut(&mut self, id: RectangleId) -> (found: Option<&mut Rectangle>)
        requires
            old(self).wf(),
        ensures
            final(self).wf(),
            found.is_some() == old(self)@.contains(id@),
            found.is_some() ==> *found.unwrap() == old(self)@.value_of(id@) && final(self)@
                == old(self)@.written(id@, *final(found.unwrap())),
            found.is_none() ==> final(self)@ == old(self)@.escalated(),
    {
        self.dirtiness = Dirtiness::RebuildRequired;
        let found = slots_get_mut(&mut self.instances, id.raw);
        proof {
            let before = old(self)@;
            if found.is_some() {
                let i = choose|i: int|
                    0 <= i < before.entries.len() && before.entries[i] == (id@, *found.unwrap())
                        && slot_entries(after_borrow(self.instances))
                        == #[trigger] before.entries.update(i, (id@, *final(found.unwrap())));
                before.lemma_position(id@, i);
            }
        }
        found
    }

    /// Takes out the instance under `id`, if it is live, and hands it back.
    /// A rebuild is owed from now on.
    pub fn remove(&mut self, id: RectangleId) -> (removed: Option<Rectangle>)
        requires
            old(self).wf(),
        ensures
            final(self).wf(),
            removed == (if old(self)@.contains(id@) {
                Some(old(self)@.value_of(id@))
            } else {
                None
            }),
            final(self)@ == old(self)@.removed(id@),
    {
        self.dirtiness = Dirtiness::RebuildRequired;
        let removed = slots_remove(&mut self.instances, id.raw);
        proof {
            let before = old(self)@;
            if let Some(value) = removed {
                let i = choose|i: int|
                    0 <= i < before.entries.len() && before.entries[i] == (id@, value)
                        && slot_entries(self.instances) == #[trigger] before.entries.remove(i);
                before.lemma_position(id@, i);
            }
        }
        removed
    }

    /// Replaces the instance under `id`, if it is live; a rebuild is then
    /// owed. A stale identifier changes nothing.
    pub fn update(&mut self, id: RectangleId, instance: Rectangle)
        requires
            old(self).wf(),
        ensures
            final(self).wf(),
            final(self)@ == (if old(self)@.contains(id@) {
                old(self)@.with_value(id@, instance)
            } else {
                old(self)@
            }),
    {
        let ghost before = self@;
        match slots_get_mut(&mut self.instances, id.raw) {
            Some(rectangle) => {
                proof {
                    let i = choose|i: int|
                        0 <= i < before.entries.len() && before.entries[i] == (id@, *rectangle)
                            && slot_entries(after_borrow(self.instances))
                            == #[trigger] before.entries.update(i, (id@, *final(rectangle)));
                    before.lemma_position(id@, i);
                }
                *rectangle = instance;
                self.dirtiness = Dirtiness::RebuildRequired;
            },
            None => {},
        }
    }

    /// Decides the frame's draw and brings the staged bytes up to date.
    /// Without live instances nothing happens. With more live instances
    /// than the GPU buffer has room for the frame is refused and nothing
    /// changes. Else the staged bytes are regenerated if a rebuild is
    /// owed, the draw covers every live instance, and the store is clean
    /// afterwards.
    pub fn render(&mut self) -> (result: Result<Option<DrawCall>, RenderError>)
        requires
            old(self).wf(),
        ensures
            final(self).wf(),
            match result {
                Ok(call) => {
                    &&& old(self)@.fits()
                    &&& final(self)@ == old(self)@.rendered()
                    &&& call == old(self)@.draw_call()
                    &&& call.is_some() ==> final(self)@.staged.len() == call.unwrap().bytes_written
                        && call.unwrap().bytes_written <= final(self)@.buffer_size()
                },
                Err(error) => {
                    &&& !old(self)@.fits()
                    &&& error == RenderError::CapacityExceeded
                    &&& final(self)@ == old(self)@
                },
            },
    {
        let count = slots_len(&self.instances);
        if count == 0 {
            return Ok(None);
        }
        if count > self.max_instance_count as usize {
            return Err(RenderError::CapacityExceeded);
        }
        let rebuilt = match self.dirtiness {
            Dirtiness::RebuildRequired => true,
            _ => false,
        };
        if rebuilt {
            self.rebuild();
        }
        self.dirtiness = Dirtiness::Clean;
        let staged_len = self.instance_bytes.len();
        proof {
            self@.lemma_staged_len();
            assert(staged_len == count * Rectangle::SIZE);
            assert(count * Rectangle::SIZE <= self@.max_instance_count * Rectangle::SIZE)
                by (nonlinear_arith)
                requires
                    count <= self@.max_instance_count,
            ;
        }
        let bytes_written = count * Rectangle::SIZE;
        Ok(
            Some(
                DrawCall {
                    bytes_written,
                    index_count: INDEX_COUNT,
                    instance_count: count as u32,
                    rebuilt,
                },
            ),
        )
    }

    /// Regenerates the staged bytes from the live instances, in the order
    /// of the walk.
    fn rebuild(&mut self)
        ensures
            final(self)@ == (StoreView {
                staged: serialize(old(self)@.instances()),
                ..old(self)@
            }),
            final(self).instances == old(self).instances,
            stages(final(self)@.staged, final(self)@.instances()),
    {
        self.instance_bytes.clear();
        let values = slots_values(&self.instances);
        let mut i: usize = 0;
        while i < values.len()
            invariant
                0 <= i <= values.len(),
                values@ == self@.instances(),
                self.instance_bytes@ == serialize(values@.take(i as int)),
                self.instances == old(self).instances,
                self.dirtiness == old(self).dirtiness,
                self.max_instance_count == old(self).max_instance_count,
            decreases values.len() - i,
        {
            append_record(&mut self.instance_bytes, &values[i]);
            proof {
                lemma_serialize_push(values@.take(i as int), values@[i as int]);
                assert(values@.take(i + 1) =~= values@.take(i as int).push(values@[i as int]));
            }
            i += 1;
        }
        proof {
            assert(values@.take(i as int) =~= values@);
            assert(stages_in(self@.staged, values@, self@.instances()));
        }
    }
}

/// Inserting an entry under a fresh key keeps the keys distinct.
proof fn lemma_insert_keeps_distinct(
    before: StoreView,
    after: StoreView,
    i: int,
    key: u64,
    value: Rectangle,
)
    requires
        before.keys_distinct(),
        !before.contains(key),
        0 <= i <= before.entries.len(),
        after.entries == before.entries.insert(i, (key, value)),
    ensures
        after.keys_distinct(),
{
    assert forall|a: int, b: int| 0 <= a < b < after.entries.len() implies (
    #[trigger] after.entries[a]).0 != (#[trigger] after.entries[b]).0 by {
        let a0 = if a < i { a } else { a - 1 };
        let b0 = if b < i { b } else { b - 1 };
        if a == i {
            assert(before.entries[b0].0 != key);
        } else if b == i {
            assert(before.entries[a0].0 != key);
        } else {
            assert(before.entries[a0].0 != before.entries[b0].0);
        }
    }
}

/// Inserting an entry and appending its record keeps the staged bytes in
/// step with the live instances.
proof fn lemma_insert_keeps_staging(
    before: StoreView,
    after: StoreView,
    i: int,
    key: u64,
    value: Rectangle,
)
    requires
        stages(before.staged, before.instances()),
        0 <= i <= before.entries.len(),
        after.entries == before.entries.insert(i, (key, value)),
        after.staged == before.staged + record_bytes(value),
    ensures
        stages(after.staged, after.instances()),
{
    let order = choose|order: Seq<Rectangle>| #[trigger]
        stages_in(before.staged, order, before.instances());
    lemma_serialize_push(order, value);
    assert(after.instances() =~= before.instances().insert(i, value));
    to_multiset_build(order, value);
    to_multiset_insert(before.instances(), i, value);
    assert(stages_in(after.staged, order.push(value), after.instances()));
}

} // verus!

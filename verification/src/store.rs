use vstd::prelude::*;
use crate::awareness::{Awareness, CapacitorDurations, aged, expires, decayed};

verus! {

/// The awarenesses of one NPC, at most one per object (`u64` entity id).
pub struct AwarenessStore<P> {
    entries: Vec<(u64, Awareness<P>)>,
}

pub open spec fn keys_distinct<P>(s: Seq<(u64, Awareness<P>)>) -> bool {
    forall|i: int, j: int| 0 <= i < s.len() && 0 <= j < s.len() && i != j ==> s[i].0 != s[j].0
}

pub open spec fn entries_map<P>(s: Seq<(u64, Awareness<P>)>) -> Map<u64, Awareness<P>>
    decreases s.len(),
{
    if s.len() == 0 {
        Map::empty()
    } else {
        entries_map(s.drop_last()).insert(s.last().0, s.last().1)
    }
}

/// Every awareness aged by `delta`.
pub open spec fn aged_map<P>(m: Map<u64, Awareness<P>>, delta: u128) -> Map<u64, Awareness<P>> {
    Map::new(|o: u64| m.contains_key(o), |o: u64| aged(m[o], delta))
}

/// The awarenesses that survive expiry, each decayed.
pub open spec fn decayed_map<P>(m: Map<u64, Awareness<P>>, caps: CapacitorDurations) -> Map<u64, Awareness<P>> {
    Map::new(|o: u64| m.contains_key(o) && !expires(m[o]), |o: u64| decayed(m[o], caps))
}

proof fn lemma_map_keys<P>(s: Seq<(u64, Awareness<P>)>, o: u64)
    ensures
        entries_map(s).contains_key(o) <==> exists|i: int| 0 <= i < s.len() && s[i].0 == o,
    decreases s.len(),
{
    if s.len() > 0 {
        lemma_map_keys(s.drop_last(), o);
        if entries_map(s.drop_last()).contains_key(o) {
            let i = choose|i: int| 0 <= i < s.drop_last().len() && s.drop_last()[i].0 == o;
            assert(s[i].0 == o);
        }
        if exists|i: int| 0 <= i < s.len() && s[i].0 == o {
            let i = choose|i: int| 0 <= i < s.len() && s[i].0 == o;
            if i < s.len() - 1 {
                assert(s.drop_last()[i].0 == o);
            }
        }
    }
}

proof fn lemma_map_index<P>(s: Seq<(u64, Awareness<P>)>, i: int)
    requires
        keys_distinct(s),
        0 <= i < s.len(),
    ensures
        entries_map(s).contains_key(s[i].0),
        entries_map(s)[s[i].0] == s[i].1,
    decreases s.len(),
{
    if i < s.len() - 1 {
        assert(s.drop_last()[i] == s[i]);
        lemma_map_index(s.drop_last(), i);
        assert(s.last().0 != s[i].0);
    }
}

proof fn lemma_map_update<P>(s: Seq<(u64, Awareness<P>)>, i: int, a: Awareness<P>)
    requires
        keys_distinct(s),
        0 <= i < s.len(),
    ensures
        keys_distinct(s.update(i, (s[i].0, a))),
        entries_map(s.update(i, (s[i].0, a))) == entries_map(s).insert(s[i].0, a),
    decreases s.len(),
{
    let t = s.update(i, (s[i].0, a));
    assert(keys_distinct(t)) by {
        assert forall|x: int, y: int| 0 <= x < t.len() && 0 <= y < t.len() && x != y implies t[x].0 != t[y].0 by {
            assert(t[x].0 == s[x].0 && t[y].0 == s[y].0);
        }
    }
    if i == s.len() - 1 {
        assert(t.drop_last() =~= s.drop_last());
        assert(entries_map(t) =~= entries_map(s).insert(s[i].0, a));
    } else {
        assert(t.drop_last() =~= s.drop_last().update(i, (s[i].0, a)));
        assert(s.drop_last()[i] == s[i]);
        assert(keys_distinct(s.drop_last()));
        lemma_map_update(s.drop_last(), i, a);
        assert(s.last().0 != s[i].0);
        assert(entries_map(t) =~= entries_map(s).insert(s[i].0, a));
    }
}

/// The objects of a list of entries, in order.
pub open spec fn entry_keys<P>(s: Seq<(u64, Awareness<P>)>) -> Seq<u64> {
    s.map_values(|e: (u64, Awareness<P>)| e.0)
}

impl<P> AwarenessStore<P> {
    /// No object has two entries.
    #[verifier::type_invariant]
    spec fn wf(self) -> bool {
        keys_distinct(self.entries@)
    }

    /// The awareness of each object.
    pub closed spec fn view(&self) -> Map<u64, Awareness<P>> {
        entries_map(self.entries@)
    }

    /// The objects in the order their awarenesses were first recorded.
    pub closed spec fn order(&self) -> Seq<u64> {
        entry_keys(self.entries@)
    }
}

/// The position of `object`'s entry, if it has one.
fn find<P: Copy>(entries: &Vec<(u64, Awareness<P>)>, object: u64) -> (r: Option<usize>)
    requires
        keys_distinct(entries@),
    ensures
        match r {
            Some(i) => i < entries@.len() && entries@[i as int].0 == object
                && entries_map(entries@).contains_key(object) && entries_map(entries@)[object] == entries@[i as int].1,
            None => !entries_map(entries@).contains_key(object),
        },
{
    let mut i: usize = 0;
    while i < entries.len()
        invariant
            i <= entries@.len(),
            keys_distinct(entries@),
            forall|j: int| 0 <= j < i ==> entries@[j].0 != object,
        decreases entries@.len() - i,
    {
        if entries[i].0 == object {
            proof { lemma_map_index(entries@, i as int); }
            return Some(i);
        }
        i = i + 1;
    }
    proof { lemma_map_keys(entries@, object); }
    None
}

impl<P: Copy> AwarenessStore<P> {
    pub fn new() -> (r: AwarenessStore<P>)
        ensures
            r.view() == Map::<u64, Awareness<P>>::empty(),
            r.order() == Seq::<u64>::empty(),
    {
        let r = AwarenessStore { entries: Vec::new() };
        assert(r.order() =~= Seq::<u64>::empty());
        r
    }

    pub fn len(&self) -> (r: usize)
        ensures
            r == self.view().dom().len(),
    {
        proof {
            use_type_invariant(self);
            lemma_map_len(self.entries@);
        }
        self.entries.len()
    }

    /// The objects the NPC is aware of, each once, in the order their
    /// awarenesses were first recorded.
    pub fn objects(&self) -> (r: Vec<u64>)
        ensures
            r@ == self.order(),
            forall|o: u64| r@.contains(o) <==> self.view().contains_key(o),
            r@.no_duplicates(),
    {
        proof { use_type_invariant(self); }
        let mut out: Vec<u64> = Vec::new();
        let mut i: usize = 0;
        while i < self.entries.len()
            invariant
                i <= self.entries@.len(),
                keys_distinct(self.entries@),
                out@.len() == i,
                forall|j: int| 0 <= j < i ==> #[trigger] out@[j] == self.entries@[j].0,
            decreases self.entries@.len() - i,
        {
            out.push(self.entries[i].0);
            i = i + 1;
        }
        proof {
            assert(out@ =~= self.order());
            assert forall|o: u64| out@.contains(o) <==> self.view().contains_key(o) by {
                lemma_map_keys(self.entries@, o);
                if out@.contains(o) {
                    let j = choose|j: int| 0 <= j < out@.len() && out@[j] == o;
                    assert(self.entries@[j].0 == o);
                }
                if self.view().contains_key(o) {
                    let j = choose|j: int| 0 <= j < self.entries@.len() && self.entries@[j].0 == o;
                    assert(out@[j] == o);
                }
            }
        }
        out
    }

    /// The awareness of `object`, if there is one.
    pub fn get(&self, object: u64) -> (r: Option<Awareness<P>>)
        ensures
            r == (if self.view().contains_key(object) { Some(self.view()[object]) } else { None }),
    {
        proof { use_type_invariant(self); }
        match find(&self.entries, object) {
            Some(i) => Some(self.entries[i].1),
            None => None,
        }
    }

    /// Records `awareness` as the awareness of `object`, replacing any
    /// previous one; a new object goes last in the order.
    pub fn set(&mut self, object: u64, awareness: Awareness<P>)
        ensures
            final(self).view() == old(self).view().insert(object, awareness),
            final(self).order() == if old(self).view().contains_key(object) {
                old(self).order()
            } else {
                old(self).order().push(object)
            },
    {
        proof { use_type_invariant(&*self); }
        let mut entries: Vec<(u64, Awareness<P>)> = Vec::new();
        std::mem::swap(&mut entries, &mut self.entries);
        let ghost s = entries@;
        match find(&entries, object) {
            Some(i) => {
                proof { lemma_map_update(s, i as int, awareness); }
                entries.set(i, (object, awareness));
                assert(entry_keys(entries@) =~= entry_keys(s));
            },
            None => {
                proof { lemma_map_keys(s, object); }
                entries.push((object, awareness));
                assert(entries@.drop_last() =~= s);
                assert(entry_keys(entries@) =~= entry_keys(s).push(object));
                assert(keys_distinct(entries@)) by {
                    assert forall|x: int, y: int|
                        0 <= x < entries@.len() && 0 <= y < entries@.len() && x != y
                        implies entries@[x].0 != entries@[y].0 by {
                        if x < s.len() && y < s.len() {
                            assert(entries@[x] == s[x] && entries@[y] == s[y]);
                        } else if x < s.len() {
                            assert(entries@[x] == s[x]);
                        } else {
                            assert(entries@[y] == s[y]);
                        }
                    }
                }
            },
        }
        self.entries = entries;
    }

    /// Advances the clocks of every awareness by `delta` nanoseconds.
    pub fn tick_all(&mut self, delta: u128)
        ensures
            final(self).view() == aged_map(old(self).view(), delta),
            final(self).order() == old(self).order(),
    {
        proof { use_type_invariant(&*self); }
        let ghost s0 = self.entries@;
        let mut out: Vec<(u64, Awareness<P>)> = Vec::new();
        let mut i: usize = 0;
        while i < self.entries.len()
            invariant
                i <= s0.len(),
                self.entries@ == s0,
                keys_distinct(s0),
                out@.len() == i,
                forall|j: int| #![trigger out@[j]] 0 <= j < i ==> out@[j].0 == s0[j].0 && out@[j].1 == aged(s0[j].1, delta),
                entries_map(out@) == aged_map(entries_map(s0.take(i as int)), delta),
            decreases s0.len() - i,
        {
            let (o, a) = self.entries[i];
            let mut a2 = a;
            a2.tick(delta);
            let ghost before = out@;
            out.push((o, a2));
            proof {
                assert(out@.drop_last() =~= before);
                assert(s0.take(i + 1).drop_last() =~= s0.take(i as int));
                assert(s0.take(i + 1).last() == s0[i as int]);
                assert(entries_map(out@) =~= aged_map(entries_map(s0.take(i + 1)), delta));
            }
            i = i + 1;
        }
        proof {
            assert(s0.take(s0.len() as int) =~= s0);
            assert(entry_keys(out@) =~= entry_keys(s0));
            assert(keys_distinct(out@)) by {
                assert forall|x: int, y: int| 0 <= x < out@.len() && 0 <= y < out@.len() && x != y
                    implies out@[x].0 != out@[y].0 by {
                    assert(out@[x].0 == s0[x].0 && out@[y].0 == s0[y].0);
                }
            }
        }
        self.entries = out;
    }

    /// Processes expired capacitors: each awareness whose capacitor has run
    /// out drops one level; one that drops to `Lowest` is removed, the
    /// others restart their capacitor for the new level. The kept objects
    /// keep their order.
    pub fn decrease_expired_capacitors(&mut self, caps: CapacitorDurations)
        ensures
            final(self).view() == decayed_map(old(self).view(), caps),
            final(self).order() == old(self).order().filter(
                |o: u64| decayed_map(old(self).view(), caps).contains_key(o),
            ),
    {
        proof { use_type_invariant(&*self); }
        let ghost s0 = self.entries@;
        let ghost kept = |o: u64| decayed_map(entries_map(s0), caps).contains_key(o);
        let mut out: Vec<(u64, Awareness<P>)> = Vec::new();
        let mut i: usize = 0;
        while i < self.entries.len()
            invariant
                i <= s0.len(),
                self.entries@ == s0,
                keys_distinct(s0),
                keys_distinct(out@),
                kept == |o: u64| decayed_map(entries_map(s0), caps).contains_key(o),
                forall|j: int| 0 <= j < out@.len() ==> exists|k: int| 0 <= k < i && #[trigger] out@[j].0 == s0[k].0,
                entries_map(out@) == decayed_map(entries_map(s0.take(i as int)), caps),
                entry_keys(out@) == entry_keys(s0.take(i as int)).filter(kept),
            decreases s0.len() - i,
        {
            let (o, a) = self.entries[i];
            let ghost before = out@;
            proof {
                assert(s0.take(i + 1).drop_last() =~= s0.take(i as int));
                assert(s0.take(i + 1).last() == s0[i as int]);
                assert(entry_keys(s0.take(i + 1)).drop_last() =~= entry_keys(s0.take(i as int)));
                assert(entry_keys(s0.take(i + 1)).last() == o);
                reveal(Seq::filter);
                lemma_map_index(s0, i as int);
                assert(kept(o) == !expires(a));
                lemma_map_keys(s0.take(i as int), o);
                if entries_map(s0.take(i as int)).contains_key(o) {
                    let k = choose|k: int| 0 <= k < s0.take(i as int).len() && s0.take(i as int)[k].0 == o;
                    assert(s0[k].0 == o);
                    assert(false);
                }
            }
            if a.capacitor.is_finished() {
                let lowered = a.level.decrease();
                if lowered.is_aware() {
                    let mut a2 = a;
                    a2.level = lowered;
                    let d = caps.get(lowered);
                    a2.capacitor.set_duration(d);
                    a2.capacitor.reset();
                    out.push((o, a2));
                    proof {
                        self.lemma_push_kept(before, out@, s0, i as int, caps);
                        assert(entry_keys(out@) =~= entry_keys(before).push(o));
                    }
                } else {
                    proof {
                        assert(entries_map(out@) =~= decayed_map(entries_map(s0.take(i + 1)), caps));
                    }
                }
            } else {
                out.push((o, a));
                proof {
                    self.lemma_push_kept(before, out@, s0, i as int, caps);
                    assert(entry_keys(out@) =~= entry_keys(before).push(o));
                }
            }
            i = i + 1;
        }
        proof {
            assert(s0.take(s0.len() as int) =~= s0);
        }
        self.entries = out;
    }

    proof fn lemma_push_kept(
        &self,
        before: Seq<(u64, Awareness<P>)>,
        after: Seq<(u64, Awareness<P>)>,
        s0: Seq<(u64, Awareness<P>)>,
        i: int,
        caps: CapacitorDurations,
    )
        requires
            0 <= i < s0.len(),
            keys_distinct(s0),
            keys_distinct(before),
            forall|j: int| 0 <= j < before.len() ==> exists|k: int| 0 <= k < i && #[trigger] before[j].0 == s0[k].0,
            entries_map(before) == decayed_map(entries_map(s0.take(i)), caps),
            !expires(s0[i].1),
            after == before.push((s0[i].0, decayed(s0[i].1, caps))),
            !entries_map(s0.take(i)).contains_key(s0[i].0),
            s0.take(i + 1).drop_last() == s0.take(i),
            s0.take(i + 1).last() == s0[i],
        ensures
            keys_distinct(after),
            forall|j: int| 0 <= j < after.len() ==> exists|k: int| 0 <= k < i + 1 && #[trigger] after[j].0 == s0[k].0,
            entries_map(after) == decayed_map(entries_map(s0.take(i + 1)), caps),
    {
        assert(after.drop_last() =~= before);
        assert forall|j: int| 0 <= j < after.len() implies exists|k: int| 0 <= k < i + 1 && #[trigger] after[j].0 == s0[k].0 by {
            if j < before.len() {
                assert(after[j] == before[j]);
                let k = choose|k: int| 0 <= k < i && #[trigger] before[j].0 == s0[k].0;
                assert(after[j].0 == s0[k].0);
            } else {
                assert(after[j].0 == s0[i].0);
            }
        }
        assert forall|x: int, y: int| 0 <= x < after.len() && 0 <= y < after.len() && x != y
            implies after[x].0 != after[y].0 by {
            if x < before.len() && y < before.len() {
                assert(after[x] == before[x] && after[y] == before[y]);
            } else if x < before.len() {
                assert(after[x] == before[x]);
                let k = choose|k: int| 0 <= k < i && #[trigger] before[x].0 == s0[k].0;
                assert(s0[k].0 != s0[i].0);
            } else {
                assert(after[y] == before[y]);
                let k = choose|k: int| 0 <= k < i && #[trigger] before[y].0 == s0[k].0;
                assert(s0[k].0 != s0[i].0);
            }
        }
        assert(entries_map(after) =~= decayed_map(entries_map(s0.take(i + 1)), caps));
    }
}

proof fn lemma_map_len<P>(s: Seq<(u64, Awareness<P>)>)
    requires
        keys_distinct(s),
    ensures
        entries_map(s).dom().finite(),
        entries_map(s).dom().len() == s.len(),
    decreases s.len(),
{
    if s.len() > 0 {
        assert(keys_distinct(s.drop_last()));
        lemma_map_len(s.drop_last());
        lemma_map_keys(s.drop_last(), s.last().0);
        if entries_map(s.drop_last()).contains_key(s.last().0) {
            let i = choose|i: int| 0 <= i < s.drop_last().len() && s.drop_last()[i].0 == s.last().0;
            assert(s[i].0 == s[s.len() - 1].0);
        }
    }
}

/// Reading back after a write: the object written has the awareness just
/// written, and every other object keeps what it had.
pub proof fn law_read_after_write<P>(m: Map<u64, Awareness<P>>, object: u64, a: Awareness<P>, other: u64)
    ensures
        m.insert(object, a).contains_key(object),
        m.insert(object, a)[object] == a,
        other != object ==> (m.insert(object, a).contains_key(other) == m.contains_key(other)),
        other != object && m.contains_key(other) ==> m.insert(object, a)[other] == m[other],
{
}

/// Processing expired capacitors only ever lowers awareness: a kept
/// awareness whose capacitor had run out is exactly one level lower, one
/// whose capacitor had not is unchanged, nothing is added, and an awareness
/// is dropped only when its capacitor ran out at `Low` or `Lowest`.
pub proof fn law_decay_only_lowers<P>(m: Map<u64, Awareness<P>>, caps: CapacitorDurations, o: u64)
    ensures
        decayed_map(m, caps).contains_key(o) ==> m.contains_key(o),
        decayed_map(m, caps).contains_key(o) && m[o].capacitor.finished ==>
            decayed_map(m, caps)[o].level == crate::level::spec_decrease(m[o].level),
        decayed_map(m, caps).contains_key(o) && !m[o].capacitor.finished ==> decayed_map(m, caps)[o] == m[o],
        m.contains_key(o) && !decayed_map(m, caps).contains_key(o) ==>
            m[o].capacitor.finished && crate::level::rank(m[o].level) <= 1,
{
}

/// Ageing changes no level and loses or adds no awareness.
pub proof fn law_ageing_keeps_levels<P>(m: Map<u64, Awareness<P>>, delta: u128, o: u64)
    ensures
        aged_map(m, delta).contains_key(o) == m.contains_key(o),
        m.contains_key(o) ==> aged_map(m, delta)[o].level == m[o].level,
{
}

} // verus!

//! A scoped symbol table: a stack of frames, each a mapping from keys to
//! values. Bindings go into the top frame; lookups search from the top down.
use vstd::prelude::*;

verus! {

/// Keys of an [`Environment`]: two keys are the same when their views are.
pub trait EnvKey: View + Sized {
    fn same_key(&self, other: &Self) -> (r: bool)
        ensures
            r == (self@ == other@),
    ;
}

impl EnvKey for String {
    fn same_key(&self, other: &Self) -> (r: bool) {
        *self == *other
    }
}

/// The mapping that a frame's entries denote: a later entry for a key wins.
pub open spec fn frame_map<K: View, V>(entries: Seq<(K, V)>) -> Map<K::V, V>
    decreases entries.len(),
{
    if entries.len() == 0 {
        Map::empty()
    } else {
        frame_map(entries.drop_last()).insert(entries.last().0@, entries.last().1)
    }
}

/// No two entries of a frame have the same key.
pub open spec fn keys_unique<K: View, V>(entries: Seq<(K, V)>) -> bool {
    forall|i: int, j: int| 0 <= i < j < entries.len() ==> entries[i].0@ != entries[j].0@
}

/// The binding of `k` in the topmost frame that has one.
pub open spec fn lookup_frames<KV, V>(frames: Seq<Map<KV, V>>, k: KV) -> Option<V>
    decreases frames.len(),
{
    if frames.len() == 0 {
        None
    } else if frames.last().contains_key(k) {
        Some(frames.last()[k])
    } else {
        lookup_frames(frames.drop_last(), k)
    }
}

/// What a binding of `k` in the top frame was, if any.
pub open spec fn top_binding<KV, V>(frames: Seq<Map<KV, V>>, k: KV) -> Option<V> {
    if frames.len() > 0 && frames.last().contains_key(k) {
        Some(frames.last()[k])
    } else {
        None
    }
}

proof fn lemma_frame_map_index<K: View, V>(s: Seq<(K, V)>, k: K::V)
    requires
        keys_unique(s),
    ensures
        frame_map(s).contains_key(k) <==> exists|i: int| 0 <= i < s.len() && s[i].0@ == k,
        forall|i: int| 0 <= i < s.len() && s[i].0@ == k ==> frame_map(s)[k] == s[i].1,
    decreases s.len(),
{
    if s.len() > 0 {
        let t = s.drop_last();
        assert(keys_unique(t));
        lemma_frame_map_index(t, k);
        if frame_map(s).contains_key(k) && s.last().0@ != k {
            let i = choose|i: int| 0 <= i < t.len() && t[i].0@ == k;
            assert(s[i].0@ == k);
        }
        if exists|i: int| 0 <= i < s.len() && s[i].0@ == k {
            let i = choose|i: int| 0 <= i < s.len() && s[i].0@ == k;
            if i < s.len() - 1 {
                assert(t[i].0@ == k);
            }
        }
    }
}

proof fn lemma_frame_map_update<K: View, V>(s: Seq<(K, V)>, i: int, e: (K, V))
    requires
        keys_unique(s),
        0 <= i < s.len(),
        s[i].0@ == e.0@,
    ensures
        keys_unique(s.update(i, e)),
        frame_map(s.update(i, e)) == frame_map(s).insert(e.0@, e.1),
    decreases s.len(),
{
    let u = s.update(i, e);
    let t = s.drop_last();
    if i == s.len() - 1 {
        assert(u.drop_last() =~= t);
        assert(frame_map(u) =~= frame_map(s).insert(e.0@, e.1));
    } else {
        assert(keys_unique(t));
        lemma_frame_map_update(t, i, e);
        assert(u.drop_last() =~= t.update(i, e));
        assert(s.last().0@ != e.0@);
        assert(frame_map(u) =~= frame_map(s).insert(e.0@, e.1));
    }
}

proof fn lemma_frame_map_push<K: View, V>(s: Seq<(K, V)>, e: (K, V))
    ensures
        frame_map(s.push(e)) == frame_map(s).insert(e.0@, e.1),
{
    assert(s.push(e).drop_last() =~= s);
}

/// Inserting into an environment that has no frame.
#[derive(Debug, PartialEq, Eq, Structural)]
pub struct EnvironmentEmpty;

/// A stack of frames; the last frame of the stack is its top.
pub struct Environment<K, V> {
    frames: Vec<Vec<(K, V)>>,
}

impl<K: View, V> View for Environment<K, V> {
    type V = Seq<Map<K::V, V>>;

    closed spec fn view(&self) -> Seq<Map<K::V, V>> {
        self.frames@.map_values(|f: Vec<(K, V)>| frame_map(f@))
    }
}

impl<K: EnvKey, V> Environment<K, V> {
    /// Every frame holds each key at most once.
    pub closed spec fn wf(&self) -> bool {
        forall|i: int| 0 <= i < self.frames@.len() ==> keys_unique(#[trigger] self.frames@[i]@)
    }

    /// An environment without frames.
    pub fn new() -> (r: Self)
        ensures
            r.wf(),
            r@ == Seq::<Map<K::V, V>>::empty(),
    {
        let r = Environment { frames: Vec::new() };
        assert(r@ =~= Seq::<Map<K::V, V>>::empty());
        r
    }

    /// Puts a new, empty frame on top.
    pub fn push_frame(&mut self)
        requires
            old(self).wf(),
        ensures
            final(self).wf(),
            final(self)@ == old(self)@.push(Map::empty()),
    {
        let ghost before = self.frames@;
        self.frames.push(Vec::new());
        assert(self.frames@[before.len() as int]@ =~= Seq::<(K, V)>::empty());
        assert(frame_map(Seq::<(K, V)>::empty()) =~= Map::<K::V, V>::empty());
        assert(self@ =~= old(self)@.push(Map::empty()));
    }

    /// Removes the top frame with all its bindings; fails when there is none.
    pub fn pop_frame(&mut self) -> (r: Result<(), EnvironmentEmpty>)
        requires
            old(self).wf(),
        ensures
            final(self).wf(),
            old(self)@.len() == 0 ==> r is Err && final(self)@ == old(self)@,
            old(self)@.len() > 0 ==> r is Ok && final(self)@ == old(self)@.drop_last(),
    {
        match self.frames.pop() {
            None => Err(EnvironmentEmpty),
            Some(_) => {
                assert(self@ =~= old(self)@.drop_last());
                Ok(())
            },
        }
    }

    /// Binds `key` to `value` in the top frame and hands back what `key` was
    /// bound to in that frame before, if anything. Outer frames are neither
    /// consulted nor changed. Fails, changing nothing, when there is no frame.
    pub fn insert(&mut self, key: K, value: V) -> (r: Result<Option<V>, EnvironmentEmpty>)
        requires
            old(self).wf(),
        ensures
            final(self).wf(),
            old(self)@.len() == 0 ==> r is Err && final(self)@ == old(self)@,
            old(self)@.len() > 0 ==> r == Ok::<Option<V>, EnvironmentEmpty>(
                top_binding(old(self)@, key@),
            ) && final(self)@ == old(self)@.update(
                old(self)@.len() - 1,
                old(self)@.last().insert(key@, value),
            ),
    {
        let ghost before = self.frames@;
        match self.frames.pop() {
            None => Err(EnvironmentEmpty),
            Some(mut frame) => {
                assert(keys_unique(before[before.len() - 1]@));
                let prev = frame_insert(&mut frame, key, value);
                self.frames.push(frame);
                assert(self.frames@ =~= before.update(before.len() - 1, frame));
                assert(self@ =~= old(self)@.update(
                    old(self)@.len() - 1,
                    old(self)@.last().insert(key@, value),
                ));
                Ok(prev)
            },
        }
    }

    /// The binding of `key` in the topmost frame that has one.
    pub fn lookup(&self, key: &K) -> (r: Option<&V>)
        requires
            self.wf(),
        ensures
            match r {
                Some(v) => lookup_frames(self@, key@) == Some(*v),
                None => lookup_frames(self@, key@) is None,
            },
    {
        let mut n: usize = self.frames.len();
        assert(self@.take(n as int) =~= self@);
        while n > 0
            invariant
                self.wf(),
                n <= self.frames@.len(),
                lookup_frames(self@, key@) == lookup_frames(self@.take(n as int), key@),
            decreases n,
        {
            let frame = &self.frames[n - 1];
            assert(keys_unique(self.frames@[n - 1]@));
            assert(self@.take(n as int).drop_last() =~= self@.take(n - 1));
            match frame_find(frame, key) {
                Some(v) => {
                    return Some(v);
                },
                None => {},
            }
            n = n - 1;
        }
        None
    }
}

fn frame_find<'a, K: EnvKey, V>(frame: &'a Vec<(K, V)>, key: &K) -> (r: Option<&'a V>)
    requires
        keys_unique(frame@),
    ensures
        match r {
            Some(v) => frame_map(frame@).contains_key(key@) && frame_map(frame@)[key@] == *v,
            None => !frame_map(frame@).contains_key(key@),
        },
{
    let mut i: usize = 0;
    while i < frame.len()
        invariant
            keys_unique(frame@),
            i <= frame@.len(),
            forall|j: int| 0 <= j < i ==> frame@[j].0@ != key@,
        decreases frame.len() - i,
    {
        if frame[i].0.same_key(key) {
            proof {
                lemma_frame_map_index(frame@, key@);
            }
            return Some(&frame[i].1);
        }
        i = i + 1;
    }
    proof {
        lemma_frame_map_index(frame@, key@);
    }
    None
}

fn frame_insert<K: EnvKey, V>(frame: &mut Vec<(K, V)>, key: K, value: V) -> (prev: Option<V>)
    requires
        keys_unique(old(frame)@),
    ensures
        keys_unique(final(frame)@),
        frame_map(final(frame)@) == frame_map(old(frame)@).insert(key@, value),
        prev == (if frame_map(old(frame)@).contains_key(key@) {
            Some(frame_map(old(frame)@)[key@])
        } else {
            None
        }),
{
    let ghost s = frame@;
    proof {
        lemma_frame_map_index(s, key@);
    }
    let mut i: usize = 0;
    while i < frame.len()
        invariant
            frame@ == s,
            s == old(frame)@,
            keys_unique(s),
            i <= s.len(),
            forall|j: int| 0 <= j < i ==> s[j].0@ != key@,
        decreases frame.len() - i,
    {
        if frame[i].0.same_key(&key) {
            let ghost e = (key, value);
            frame.push((key, value));
            let (_, old_value) = frame.swap_remove(i);
            proof {
                assert(frame@ =~= s.update(i as int, e));
                lemma_frame_map_update(s, i as int, e);
                lemma_frame_map_index(s, key@);
            }
            return Some(old_value);
        }
        i = i + 1;
    }
    let ghost e = (key, value);
    frame.push((key, value));
    proof {
        lemma_frame_map_push(s, e);
    }
    None
}

} // verus!

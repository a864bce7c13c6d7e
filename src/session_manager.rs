//! The session registry: at most one live session per device.
use vstd::prelude::*;

verus! {

/// Identifier of a physical or network device.
pub type DeviceId = String;

/// Errors of the session registry service.
#[derive(Debug, Clone, Copy, PartialEq, Eq, Structural)]
pub enum SessionManagerError {
    /// The connection to the registry service was lost.
    ChannelClosed,
}

impl SessionManagerError {
    /// User friendly error title.
    pub fn title(&self) -> (r: &'static str)
        ensures
            r@ == "System Error"@,
    {
        proof {
            reveal_strlit("System Error");
        }
        match self {
            SessionManagerError::ChannelClosed => "System Error",
        }
    }

    /// The error's message.
    pub fn message(&self) -> (r: &'static str)
        ensures
            r@ == "Internal service disconnected"@,
    {
        proof {
            reveal_strlit("Internal service disconnected");
        }
        match self {
            SessionManagerError::ChannelClosed => "Internal service disconnected",
        }
    }
}

/// What a start request makes of the table: a device that has a session keeps it
/// and gets it back; another gets the newly made session `r`, which is registered.
pub open spec fn start_post<H>(before: Map<Seq<char>, H>, after: Map<Seq<char>, H>, id: Seq<char>, r: H) -> bool {
    if before.contains_key(id) {
        after == before && r == before[id]
    } else {
        after == before.insert(id, r)
    }
}

spec fn has_at<H>(s: Seq<(DeviceId, H)>, k: Seq<char>, i: int) -> bool {
    0 <= i < s.len() && s[i].0@ == k
}

spec fn keys_unique<H>(s: Seq<(DeviceId, H)>) -> bool {
    forall|i: int, j: int| 0 <= i < j < s.len() ==> s[i].0@ != s[j].0@
}

/// The map that a list of entries with unique keys stands for.
spec fn map_of<H>(s: Seq<(DeviceId, H)>) -> Map<Seq<char>, H> {
    Map::new(
        |k: Seq<char>| exists|i: int| has_at(s, k, i),
        |k: Seq<char>| s[choose|i: int| has_at(s, k, i)].1,
    )
}

proof fn lemma_map_at<H>(s: Seq<(DeviceId, H)>, i: int)
    requires
        keys_unique(s),
        0 <= i < s.len(),
    ensures
        map_of(s).contains_key(s[i].0@),
        map_of(s)[s[i].0@] == s[i].1,
{
    let k = s[i].0@;
    assert(has_at(s, k, i));
    let j = choose|j: int| has_at(s, k, j);
    assert(j == i);
}

proof fn lemma_map_push<H>(s: Seq<(DeviceId, H)>, e: (DeviceId, H))
    requires
        keys_unique(s),
        !map_of(s).contains_key(e.0@),
    ensures
        keys_unique(s.push(e)),
        map_of(s.push(e)) == map_of(s).insert(e.0@, e.1),
{
    let t = s.push(e);
    assert forall|i: int, j: int| 0 <= i < j < t.len() implies t[i].0@ != t[j].0@ by {
        if j == s.len() {
            assert(has_at(s, t[i].0@, i));
        }
    }
    assert forall|x: Seq<char>| #[trigger] map_of(t).contains_key(x) <==> map_of(s).insert(e.0@, e.1).contains_key(x) by {
        if map_of(t).contains_key(x) {
            let i = choose|i: int| has_at(t, x, i);
            if i < s.len() {
                assert(has_at(s, x, i));
            }
        }
        if map_of(s).contains_key(x) {
            let i = choose|i: int| has_at(s, x, i);
            assert(has_at(t, x, i));
        }
        if x == e.0@ {
            assert(has_at(t, x, s.len() as int));
        }
    }
    assert forall|x: Seq<char>| #[trigger] map_of(t).contains_key(x) implies map_of(t)[x] == map_of(s).insert(e.0@, e.1)[x] by {
        let i = choose|i: int| has_at(t, x, i);
        lemma_map_at(t, i);
        if i < s.len() {
            lemma_map_at(s, i);
        }
    }
    assert(map_of(t) =~= map_of(s).insert(e.0@, e.1));
}

proof fn lemma_map_remove<H>(s: Seq<(DeviceId, H)>, i: int)
    requires
        keys_unique(s),
        0 <= i < s.len(),
    ensures
        keys_unique(s.remove(i)),
        map_of(s.remove(i)) == map_of(s).remove(s[i].0@),
{
    let t = s.remove(i);
    let k = s[i].0@;
    assert forall|a: int, b: int| 0 <= a < b < t.len() implies t[a].0@ != t[b].0@ by {
        let a2 = if a < i { a } else { a + 1 };
        let b2 = if b < i { b } else { b + 1 };
        assert(t[a] == s[a2] && t[b] == s[b2]);
    }
    assert forall|x: Seq<char>| #[trigger] map_of(t).contains_key(x) <==> map_of(s).remove(k).contains_key(x) by {
        if map_of(t).contains_key(x) {
            let j = choose|j: int| has_at(t, x, j);
            let j2 = if j < i { j } else { j + 1 };
            assert(has_at(s, x, j2));
            assert(x != k);
        }
        if map_of(s).remove(k).contains_key(x) {
            let j = choose|j: int| has_at(s, x, j);
            assert(j != i);
            let j2 = if j < i { j } else { j - 1 };
            assert(has_at(t, x, j2));
        }
    }
    assert forall|x: Seq<char>| #[trigger] map_of(t).contains_key(x) implies map_of(t)[x] == map_of(s).remove(k)[x] by {
        let j = choose|j: int| has_at(t, x, j);
        lemma_map_at(t, j);
        let j2 = if j < i { j } else { j + 1 };
        assert(t[j] == s[j2]);
        lemma_map_at(s, j2);
    }
    assert(map_of(t) =~= map_of(s).remove(k));
}

proof fn lemma_map_len<H>(s: Seq<(DeviceId, H)>)
    requires
        keys_unique(s),
    ensures
        map_of(s).dom().finite(),
        map_of(s).dom().len() == s.len(),
    decreases s.len(),
{
    if s.len() == 0 {
        assert(map_of(s).dom() =~= Set::<Seq<char>>::empty());
    } else {
        let shorter = s.drop_last();
        assert(keys_unique(shorter));
        lemma_map_len(shorter);
        assert(shorter.push(s.last()) =~= s);
        assert(!map_of(shorter).contains_key(s.last().0@)) by {
            if map_of(shorter).contains_key(s.last().0@) {
                let i = choose|i: int| has_at(shorter, s.last().0@, i);
                assert(s[i].0@ == s[s.len() - 1].0@);
            }
        }
        lemma_map_push(shorter, s.last());
    }
}

/// The table of live sessions, keyed by device identifier, each key at most once.
pub struct SessionRegistry<H> {
    entries: Vec<(DeviceId, H)>,
}

impl<H> SessionRegistry<H> {
    #[verifier::type_invariant]
    spec fn inv(&self) -> bool {
        keys_unique(self.entries@)
    }

    /// The sessions by device identifier.
    pub closed spec fn view(&self) -> Map<Seq<char>, H> {
        map_of(self.entries@)
    }

    /// An empty table.
    pub fn new() -> (s: Self)
        ensures
            s.view() == Map::<Seq<char>, H>::empty(),
    {
        let s = SessionRegistry { entries: Vec::new() };
        assert(s.view() =~= Map::<Seq<char>, H>::empty());
        s
    }

    /// Number of registered sessions.
    pub fn len(&self) -> (r: usize)
        ensures
            r == self.view().dom().len(),
    {
        proof {
            use_type_invariant(self);
            lemma_map_len(self.entries@);
        }
        self.entries.len()
    }

    fn position(&self, id: &DeviceId) -> (r: Option<usize>)
        ensures
            r matches Some(i) ==> i < self.entries.len() && self.entries@[i as int].0@ == id@,
            r is None ==> !self.view().contains_key(id@),
    {
        let mut i: usize = 0;
        while i < self.entries.len()
            invariant
                i <= self.entries.len(),
                forall|j: int| 0 <= j < i ==> self.entries@[j].0@ != id@,
            decreases self.entries.len() - i,
        {
            if self.entries[i].0 == *id {
                return Some(i);
            }
            i += 1;
        }
        proof {
            if self.view().contains_key(id@) {
                let j = choose|j: int| has_at(self.entries@, id@, j);
                assert(self.entries@[j].0@ == id@);
            }
        }
        None
    }

    /// The session registered for `id`, if any.
    pub fn get(&self, id: &DeviceId) -> (r: Option<&H>)
        ensures
            r matches Some(h) ==> self.view().contains_key(id@) && self.view()[id@] == *h,
            r is None ==> !self.view().contains_key(id@),
    {
        proof {
            use_type_invariant(self);
        }
        match self.position(id) {
            Some(i) => {
                proof {
                    lemma_map_at(self.entries@, i as int);
                }
                Some(&self.entries[i].1)
            },
            None => None,
        }
    }

    /// Registers `h` for a device that has no session yet.
    pub fn insert(&mut self, id: DeviceId, h: H)
        requires
            !old(self).view().contains_key(id@),
        ensures
            final(self).view() == old(self).view().insert(id@, h),
    {
        proof {
            use_type_invariant(&*self);
        }
        let mut entries = Vec::new();
        std::mem::swap(&mut entries, &mut self.entries);
        proof {
            lemma_map_push(entries@, (id, h));
        }
        entries.push((id, h));
        *self = SessionRegistry { entries };
    }

    /// Registers `h` for `id`, replacing the session the device had, if any.
    pub fn put(&mut self, id: DeviceId, h: H)
        ensures
            final(self).view() == old(self).view().insert(id@, h),
    {
        let _ = self.remove(&id);
        self.insert(id, h);
        proof {
            assert(self.view() =~= old(self).view().insert(id@, h));
        }
    }

    /// Removes the session of `id` and hands it back; the table is unchanged when
    /// the device has none.
    pub fn remove(&mut self, id: &DeviceId) -> (r: Option<H>)
        ensures
            final(self).view() == old(self).view().remove(id@),
            r matches Some(h) ==> old(self).view().contains_key(id@) && old(self).view()[id@] == h,
            r is None ==> !old(self).view().contains_key(id@),
    {
        proof {
            use_type_invariant(&*self);
        }
        match self.position(id) {
            Some(i) => {
                let mut entries = Vec::new();
                std::mem::swap(&mut entries, &mut self.entries);
                proof {
                    lemma_map_at(entries@, i as int);
                    lemma_map_remove(entries@, i as int);
                }
                let (_, h) = entries.remove(i);
                *self = SessionRegistry { entries };
                Some(h)
            },
            None => {
                proof {
                    assert(self.view().remove(id@) =~= self.view());
                }
                None
            },
        }
    }

    /// Returns the session of `id`. A device that has one gets it back with the
    /// table unchanged and `spawn` is not called; otherwise `spawn` makes one, which
    /// is registered and returned.
    pub fn start<F: FnOnce() -> H>(&mut self, id: DeviceId, spawn: F) -> (r: &H)
        requires
            spawn.requires(()),
        ensures
            start_post(old(self).view(), final(self).view(), id@, *r),
            !old(self).view().contains_key(id@) ==> spawn.ensures((), *r),
    {
        proof {
            use_type_invariant(&*self);
        }
        match self.position(&id) {
            Some(i) => {
                proof {
                    lemma_map_at(self.entries@, i as int);
                }
                &self.entries[i].1
            },
            None => {
                let h = spawn();
                let mut entries = Vec::new();
                std::mem::swap(&mut entries, &mut self.entries);
                proof {
                    lemma_map_push(entries@, (id, h));
                    lemma_map_at(entries@.push((id, h)), entries@.len() as int);
                }
                entries.push((id, h));
                *self = SessionRegistry { entries };
                let last = self.entries.len() - 1;
                &self.entries[last].1
            },
        }
    }

    /// Empties the table and hands back every session it held.
    pub fn drain(&mut self) -> (r: Vec<H>)
        ensures
            final(self).view() == Map::<Seq<char>, H>::empty(),
            r@.len() == old(self).view().dom().len(),
            forall|k: Seq<char>| #[trigger] old(self).view().contains_key(k) ==> r@.contains(old(self).view()[k]),
    {
        proof {
            use_type_invariant(&*self);
            lemma_map_len(self.entries@);
        }
        let ghost orig = self.entries@;
        let mut entries = Vec::new();
        std::mem::swap(&mut entries, &mut self.entries);
        let mut out: Vec<H> = Vec::new();
        while entries.len() > 0
            invariant
                out@.len() + entries@.len() == orig.len(),
                entries@ == orig.subrange(0, entries@.len() as int),
                forall|i: int| 0 <= i < out@.len() ==> out@[i] == orig[orig.len() - 1 - i].1,
            decreases entries@.len(),
        {
            let ghost before = entries@;
            let (_, h) = entries.pop().unwrap();
            proof {
                assert(before[before.len() - 1] == orig[orig.len() - 1 - out@.len()]);
                assert(entries@ =~= orig.subrange(0, entries@.len() as int));
            }
            out.push(h);
        }
        proof {
            assert(self.view() =~= Map::<Seq<char>, H>::empty());
            assert forall|k: Seq<char>| #[trigger] map_of(orig).contains_key(k) implies out@.contains(map_of(orig)[k]) by {
                let j = choose|j: int| has_at(orig, k, j);
                lemma_map_at(orig, j);
                assert(out@[orig.len() - 1 - j] == orig[j].1);
            }
        }
        out
    }
}

/// Two start requests for one device give the same session, and the second leaves
/// the table as the first left it: one session per device is ever made.
pub proof fn lemma_one_session_per_device<H>(
    t0: Map<Seq<char>, H>,
    t1: Map<Seq<char>, H>,
    t2: Map<Seq<char>, H>,
    id: Seq<char>,
    r1: H,
    r2: H,
)
    requires
        start_post(t0, t1, id, r1),
        start_post(t1, t2, id, r2),
    ensures
        r2 == r1,
        t2 == t1,
        t1.contains_key(id) && t1[id] == r1,
{
}

/// Stopping a device that has no session leaves the table unchanged.
pub proof fn lemma_stop_unknown_device<H>(t: Map<Seq<char>, H>, id: Seq<char>)
    requires
        !t.contains_key(id),
    ensures
        t.remove(id) == t,
{
    assert(t.remove(id) =~= t);
}


} // verus!

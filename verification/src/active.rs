//! The registry of running downloads, keyed by download id, and the rules
//! that pause, resume and cancel apply to it.

use vstd::prelude::*;
use crate::catalog::text;
use crate::text::same_text;

verus! {

/// The map from ids to handles held by a list of entries.
pub open spec fn entries_map<H>(s: Seq<(String, H)>) -> Map<Seq<char>, H>
    decreases s.len(),
{
    if s.len() == 0 {
        Map::empty()
    } else {
        entries_map(s.drop_last()).insert(s.last().0@, s.last().1)
    }
}

/// No id occurs twice.
pub open spec fn unique_ids<H>(s: Seq<(String, H)>) -> bool {
    forall|i: int, j: int| 0 <= i < s.len() && 0 <= j < s.len() && i != j ==> s[i].0@ != s[j].0@
}

proof fn lemma_map_dom<H>(s: Seq<(String, H)>, k: Seq<char>)
    ensures
        entries_map(s).dom().contains(k) <==> exists|i: int| 0 <= i < s.len() && s[i].0@ == k,
    decreases s.len(),
{
    if s.len() > 0 {
        lemma_map_dom(s.drop_last(), k);
        if entries_map(s).dom().contains(k) && s.last().0@ != k {
            let i = choose|i: int| 0 <= i < s.len() - 1 && s.drop_last()[i].0@ == k;
            assert(s[i].0@ == k);
        }
        if exists|i: int| 0 <= i < s.len() && s[i].0@ == k {
            let i = choose|i: int| 0 <= i < s.len() && s[i].0@ == k;
            if i < s.len() - 1 {
                assert(s.drop_last()[i].0@ == k);
            }
        }
    }
}

proof fn lemma_map_get<H>(s: Seq<(String, H)>, i: int)
    requires
        unique_ids(s),
        0 <= i < s.len(),
    ensures
        entries_map(s).dom().contains(s[i].0@),
        entries_map(s)[s[i].0@] == s[i].1,
    decreases s.len(),
{
    lemma_map_dom(s, s[i].0@);
    if i < s.len() - 1 {
        let t = s.drop_last();
        assert(unique_ids(t));
        assert(t[i] == s[i]);
        lemma_map_get(t, i);
        assert(s.last().0@ != s[i].0@);
    }
}

proof fn lemma_map_remove<H>(s: Seq<(String, H)>, i: int)
    requires
        unique_ids(s),
        0 <= i < s.len(),
    ensures
        entries_map(s.remove(i)) =~= entries_map(s).remove(s[i].0@),
        unique_ids(s.remove(i)),
    decreases s.len(),
{
    let k = s[i].0@;
    let r = s.remove(i);
    assert(unique_ids(r)) by {
        assert forall|a: int, b: int| 0 <= a < r.len() && 0 <= b < r.len() && a != b implies r[a].0@ != r[b].0@ by {
            let a2 = if a < i { a } else { a + 1 };
            let b2 = if b < i { b } else { b + 1 };
            assert(r[a] == s[a2]);
            assert(r[b] == s[b2]);
        }
    }
    if i == s.len() - 1 {
        assert(r =~= s.drop_last());
        lemma_map_dom(s.drop_last(), k);
        assert forall|j: int| 0 <= j < s.len() - 1 implies s.drop_last()[j].0@ != k by {
            assert(s.drop_last()[j] == s[j]);
        }
    } else {
        let t = s.drop_last();
        assert(unique_ids(t));
        assert(t[i] == s[i]);
        lemma_map_remove(t, i);
        assert(r.drop_last() =~= t.remove(i));
        assert(r.last() == s.last());
        assert(s.last().0@ != k);
    }
}

proof fn lemma_map_absent<H>(s: Seq<(String, H)>, k: Seq<char>)
    requires
        forall|j: int| 0 <= j < s.len() ==> s[j].0@ != k,
    ensures
        !entries_map(s).dom().contains(k),
{
    lemma_map_dom(s, k);
}

/// The downloads that are running, each with the handle that signals it.
pub struct ActiveDownloads<H> {
    entries: Vec<(String, H)>,
}

impl<H> View for ActiveDownloads<H> {
    type V = Map<Seq<char>, H>;

    closed spec fn view(&self) -> Map<Seq<char>, H> {
        entries_map(self.entries@)
    }
}

impl<H> ActiveDownloads<H> {
    #[verifier::type_invariant]
    closed spec fn ids_unique(self) -> bool {
        unique_ids(self.entries@)
    }

    /// No download is running.
    pub fn new() -> (r: ActiveDownloads<H>)
        ensures
            r@ == Map::<Seq<char>, H>::empty(),
    {
        ActiveDownloads { entries: Vec::new() }
    }

    fn find(&self, id: &str) -> (r: Option<usize>)
        ensures
            match r {
                Some(i) => i < self.entries@.len() && self.entries@[i as int].0@ == id@,
                None => forall|j: int| 0 <= j < self.entries@.len() ==> self.entries@[j].0@ != id@,
            },
    {
        let mut i: usize = 0;
        while i < self.entries.len()
            invariant
                i <= self.entries@.len(),
                forall|j: int| 0 <= j < i ==> self.entries@[j].0@ != id@,
            decreases self.entries.len() - i,
        {
            if same_text(self.entries[i].0.as_str(), id) {
                return Some(i);
            }
            i = i + 1;
        }
        None
    }

    /// Whether the download `id` is running.
    pub fn contains(&self, id: &str) -> (r: bool)
        ensures
            r == self@.dom().contains(id@),
    {
        proof { lemma_map_dom(self.entries@, id@); }
        self.find(id).is_some()
    }

    /// The handle of the running download `id`.
    pub fn get(&self, id: &str) -> (r: Option<&H>)
        ensures
            match r {
                Some(h) => self@.dom().contains(id@) && self@[id@] == *h,
                None => !self@.dom().contains(id@),
            },
    {
        proof { use_type_invariant(self); }
        match self.find(id) {
            Some(i) => {
                proof { lemma_map_get(self.entries@, i as int); }
                Some(&self.entries[i].1)
            },
            None => {
                proof { lemma_map_absent(self.entries@, id@); }
                None
            },
        }
    }

    /// Stops tracking the download `id`; returns its handle if it was running.
    pub fn remove(&mut self, id: &str) -> (r: Option<H>)
        ensures
            final(self)@ == old(self)@.remove(id@),
            match r {
                Some(h) => old(self)@.dom().contains(id@) && old(self)@[id@] == h,
                None => !old(self)@.dom().contains(id@),
            },
    {
        proof { use_type_invariant(&*self); }
        match self.find(id) {
            Some(i) => {
                proof {
                    lemma_map_get(self.entries@, i as int);
                    lemma_map_remove(self.entries@, i as int);
                }
                let mut entries: Vec<(String, H)> = Vec::new();
                std::mem::swap(&mut entries, &mut self.entries);
                let (_, h) = entries.remove(i);
                self.entries = entries;
                Some(h)
            },
            None => {
                proof {
                    lemma_map_absent(self.entries@, id@);
                    assert(self@.remove(id@) =~= self@);
                }
                None
            },
        }
    }

    /// Tracks the download `id` with handle `h`, replacing an earlier handle of the same id.
    pub fn insert(&mut self, id: String, h: H)
        ensures
            final(self)@ == old(self)@.insert(id@, h),
    {
        let _ = self.remove(id.as_str());
        proof { use_type_invariant(&*self); }
        let ghost before = self.entries@;
        proof {
            lemma_map_dom(before, id@);
        }
        let mut entries: Vec<(String, H)> = Vec::new();
        std::mem::swap(&mut entries, &mut self.entries);
        entries.push((id, h));
        proof {
            let s = entries@;
            assert(s.drop_last() =~= before);
            assert forall|a: int, b: int| 0 <= a < s.len() && 0 <= b < s.len() && a != b implies s[a].0@ != s[b].0@ by {
                if a < before.len() && b < before.len() {
                    assert(s[a] == before[a] && s[b] == before[b]);
                } else if a < before.len() {
                    assert(s[a] == before[a]);
                    assert(!entries_map(before).dom().contains(id@));
                } else {
                    assert(s[b] == before[b]);
                }
            }
        }
        self.entries = entries;
    }

    /// Number of running downloads.
    pub fn len(&self) -> (r: usize)
        ensures
            r == self@.len(),
    {
        proof { use_type_invariant(self); lemma_map_len(self.entries@); }
        self.entries.len()
    }

    /// Pausing applies to a running download only: its handle, or the error
    /// reported for a download that is not running.
    pub fn pause_target(&self, id: &str) -> (r: Result<&H, String>)
        ensures
            match r {
                Ok(h) => self@.dom().contains(id@) && self@[id@] == *h,
                Err(e) => !self@.dom().contains(id@) && e@ == "Download not active or already completed/paused"@,
            },
    {
        match self.get(id) {
            Some(h) => Ok(h),
            None => Err(text("Download not active or already completed/paused")),
        }
    }

    /// Resuming starts the download `id` with handle `h` unless it is already
    /// running, which is refused and leaves the registry as it was.
    pub fn begin_resume(&mut self, id: String, h: H) -> (r: Result<(), String>)
        ensures
            old(self)@.dom().contains(id@) ==> r is Err && r->Err_0@ == "Download is already running"@ && final(self)@ == old(self)@,
            !old(self)@.dom().contains(id@) ==> r is Ok && final(self)@ == old(self)@.insert(id@, h),
    {
        if self.contains(id.as_str()) {
            Err(text("Download is already running"))
        } else {
            self.insert(id, h);
            Ok(())
        }
    }
}

proof fn lemma_map_len<H>(s: Seq<(String, H)>)
    requires
        unique_ids(s),
    ensures
        entries_map(s).len() == s.len(),
        entries_map(s).dom().finite(),
    decreases s.len(),
{
    if s.len() > 0 {
        let t = s.drop_last();
        assert(unique_ids(t));
        lemma_map_len(t);
        lemma_map_dom(t, s.last().0@);
        assert forall|j: int| 0 <= j < t.len() implies t[j].0@ != s.last().0@ by {
            assert(t[j] == s[j]);
        }
    }
}


/// Starting a download that was not running and then stopping it leaves
/// the registry as it was; stopping a download that is not running changes
/// nothing.
pub proof fn lemma_start_then_stop<H>(running: Map<Seq<char>, H>, id: Seq<char>, h: H)
    ensures
        !running.dom().contains(id) ==> running.insert(id, h).remove(id) == running,
        !running.dom().contains(id) ==> running.remove(id) == running,
        running.insert(id, h).dom().contains(id),
{
    if !running.dom().contains(id) {
        assert(running.insert(id, h).remove(id) =~= running);
        assert(running.remove(id) =~= running);
    }
}

} // verus!

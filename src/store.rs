use vstd::prelude::*;
use crate::error::{Error, GMResult};

verus! {

/// A local key in one of the three mapping spaces.
#[derive(Debug)]
pub enum StoreKey {
    /// A user, by the name the backend knows them by.
    User(String),
    /// A course or an assignment, by its UUID.
    Group(u128),
    /// A repository, by course UUID, assignment UUID and repository name.
    Repo(u128, u128, String),
}

pub enum KeyView {
    User(Seq<char>),
    Group(u128),
    Repo(u128, u128, Seq<char>),
}

impl View for StoreKey {
    type V = KeyView;

    open spec fn view(&self) -> KeyView {
        match self {
            StoreKey::User(n) => KeyView::User(n@),
            StoreKey::Group(u) => KeyView::Group(*u),
            StoreKey::Repo(c, a, n) => KeyView::Repo(*c, *a, n@),
        }
    }
}

impl StoreKey {
    pub fn duplicate(&self) -> (r: StoreKey)
        ensures
            r@ == self@,
    {
        match self {
            StoreKey::User(n) => StoreKey::User(n.clone()),
            StoreKey::Group(u) => StoreKey::Group(*u),
            StoreKey::Repo(c, a, n) => StoreKey::Repo(*c, *a, n.clone()),
        }
    }

    pub fn same(&self, other: &StoreKey) -> (r: bool)
        ensures
            r == (self@ == other@),
    {
        match (self, other) {
            (StoreKey::User(a), StoreKey::User(b)) => a.eq(b),
            (StoreKey::Group(a), StoreKey::Group(b)) => *a == *b,
            (StoreKey::Repo(c1, a1, n1), StoreKey::Repo(c2, a2, n2)) => *c1 == *c2 && *a1 == *a2
                && n1.eq(n2),
            _ => false,
        }
    }
}

/// The spaces whose mappings are forgotten by external id.
#[derive(Debug, Clone, Copy, PartialEq, Eq, Structural)]
pub enum Space {
    Groups,
    Repos,
}

pub open spec fn in_space(k: KeyView, space: Space) -> bool {
    match space {
        Space::Groups => k is Group,
        Space::Repos => k is Repo,
    }
}

/// The mappings that remain after forgetting every key of `space` that
/// maps to `id`.
pub open spec fn forget_model(m: Map<KeyView, u64>, space: Space, id: u64) -> Map<KeyView, u64> {
    Map::new(|k: KeyView| m.contains_key(k) && !(in_space(k, space) && m[k] == id), |k: KeyView| m[k])
}

/// The mappings after an insert: unchanged when the key is mapped already.
pub open spec fn insert_model(m: Map<KeyView, u64>, k: KeyView, id: u64) -> Map<KeyView, u64> {
    if m.contains_key(k) {
        m
    } else {
        m.insert(k, id)
    }
}

/// What a lookup answers.
pub open spec fn lookup_model(m: Map<KeyView, u64>, k: KeyView) -> GMResult<u64> {
    if m.contains_key(k) {
        Ok(m[k])
    } else {
        Err(Error::NotFound)
    }
}

/// The identity store: each local key maps to at most one external id.
pub struct IdentityStore {
    entries: Vec<(StoreKey, u64)>,
    model: Ghost<Map<KeyView, u64>>,
}

impl View for IdentityStore {
    type V = Map<KeyView, u64>;

    closed spec fn view(&self) -> Map<KeyView, u64> {
        self.model@
    }
}

impl IdentityStore {
    pub closed spec fn wf(&self) -> bool {
        &&& forall|i: int, j: int|
            0 <= i < j < self.entries@.len() ==> self.entries@[i].0@ != self.entries@[j].0@
        &&& forall|k: KeyView|
            self.model@.contains_key(k) <==> exists|i: int|
                0 <= i < self.entries@.len() && self.entries@[i].0@ == k
        &&& forall|i: int|
            0 <= i < self.entries@.len() ==> #[trigger] self.model@[self.entries@[i].0@]
                == self.entries@[i].1
    }

    pub fn new() -> (r: IdentityStore)
        ensures
            r.wf(),
            r@ == Map::<KeyView, u64>::empty(),
    {
        IdentityStore { entries: Vec::new(), model: Ghost(Map::empty()) }
    }

    fn position(&self, key: &StoreKey) -> (r: Option<usize>)
        requires
            self.wf(),
        ensures
            match r {
                Some(i) => i < self.entries@.len() && self.entries@[i as int].0@ == key@,
                None => !self@.contains_key(key@),
            },
    {
        let mut i: usize = 0;
        while i < self.entries.len()
            invariant
                0 <= i <= self.entries@.len(),
                forall|j: int| 0 <= j < i ==> self.entries@[j].0@ != key@,
            decreases self.entries@.len() - i,
        {
            if self.entries[i].0.same(key) {
                return Some(i);
            }
            i = i + 1;
        }
        None
    }

    /// The external id a key maps to, or `NotFound`.
    pub fn lookup(&self, key: &StoreKey) -> (r: GMResult<u64>)
        requires
            self.wf(),
        ensures
            r == lookup_model(self@, key@),
    {
        match self.position(key) {
            Some(i) => Ok(self.entries[i].1),
            None => Err(Error::NotFound),
        }
    }

    /// Maps a key to an external id; `AlreadyExists`, with nothing changed,
    /// when the key is mapped already.
    pub fn insert(&mut self, key: StoreKey, id: u64) -> (r: GMResult<()>)
        requires
            old(self).wf(),
        ensures
            final(self).wf(),
            final(self)@ == insert_model(old(self)@, key@, id),
            r is Ok <==> !old(self)@.contains_key(key@),
            r is Err ==> r == Err::<(), Error>(Error::AlreadyExists),
    {
        if self.position(&key).is_some() {
            return Err(Error::AlreadyExists);
        }
        let ghost k = key@;
        let ghost before = self.entries@;
        self.entries.push((key, id));
        self.model = Ghost(self.model@.insert(k, id));
        proof {
            assert(self.entries@ == before.push((self.entries@.last().0, id)));
            assert forall|q: KeyView|
                self.model@.contains_key(q) implies exists|i: int|
                    0 <= i < self.entries@.len() && self.entries@[i].0@ == q by {
                if q == k {
                    assert(self.entries@[before.len() as int].0@ == q);
                } else {
                    let i = choose|i: int| 0 <= i < before.len() && before[i].0@ == q;
                    assert(self.entries@[i].0@ == q);
                }
            }
            assert forall|i: int| 0 <= i < self.entries@.len() implies #[trigger] self.model@[self.entries@[i].0@]
                == self.entries@[i].1 by {
                if i < before.len() {
                    assert(before[i].0@ != k);
                }
            }
        }
        Ok(())
    }

    /// Forgets every key of `space` that maps to `id`.
    pub fn forget(&mut self, space: Space, id: u64)
        requires
            old(self).wf(),
        ensures
            final(self).wf(),
            final(self)@ == forget_model(old(self)@, space, id),
    {
        let ghost start = self.model@;
        let mut i: usize = 0;
        while i < self.entries.len()
            invariant
                self.wf(),
                0 <= i <= self.entries@.len(),
                forall|j: int|
                    0 <= j < i ==> !(in_space(self.entries@[j].0@, space) && self.entries@[j].1
                        == id),
                forall|k: KeyView| #[trigger]
                    self.model@.contains_key(k) ==> start.contains_key(k) && self.model@[k]
                        == start[k],
                forall|k: KeyView|
                    start.contains_key(k) && !(in_space(k, space) && start[k] == id)
                        ==> #[trigger] self.model@.contains_key(k),
            decreases self.entries@.len() - i,
        {
            let hit = match self.entries[i].0 {
                StoreKey::Group(_) => space == Space::Groups,
                StoreKey::Repo(_, _, _) => space == Space::Repos,
                StoreKey::User(_) => false,
            } && self.entries[i].1 == id;
            if hit {
                let ghost before = self.entries@;
                let ghost k = before[i as int].0@;
                let ghost m = self.model@;
                assert(m[k] == id);
                assert(m.contains_key(k));
                assert(in_space(k, space));
                assert(start[k] == id);
                self.entries.remove(i);
                self.model = Ghost(m.remove(k));
                proof {
                    assert forall|q: KeyView|
                        self.model@.contains_key(q) implies exists|j: int|
                            0 <= j < self.entries@.len() && self.entries@[j].0@ == q by {
                        let j = choose|j: int| 0 <= j < before.len() && before[j].0@ == q;
                        assert(j != i);
                        if j < i {
                            assert(self.entries@[j].0@ == q);
                        } else {
                            assert(self.entries@[j - 1].0@ == q);
                        }
                    }
                    assert forall|q: KeyView|
                        (exists|j: int| 0 <= j < self.entries@.len() && self.entries@[j].0@ == q)
                        implies self.model@.contains_key(q) by {
                        let j = choose|j: int| 0 <= j < self.entries@.len() && self.entries@[j].0@ == q;
                        if j < i {
                            assert(before[j].0@ == q);
                        } else {
                            assert(before[j + 1].0@ == q);
                        }
                    }
                    assert forall|a: int| 0 <= a < self.entries@.len() implies #[trigger] self.model@[self.entries@[a].0@]
                        == self.entries@[a].1 by {
                        if a < i {
                            assert(before[a] == self.entries@[a]);
                        } else {
                            assert(before[a + 1] == self.entries@[a]);
                        }
                    }
                }
            } else {
                i = i + 1;
            }
        }
        proof {
            assert forall|k: KeyView|
                #![auto]
                self.model@.contains_key(k) implies !(in_space(k, space) && start[k] == id) by {
                let j = choose|j: int| 0 <= j < self.entries@.len() && self.entries@[j].0@ == k;
                assert(self.model@[self.entries@[j].0@] == self.entries@[j].1);
            }
            assert(self.model@ =~= forget_model(start, space, id));
        }
    }
}

/// A change to the identity store, as a law about it needs to see it.
pub enum Change {
    Insert(KeyView, u64),
    Forget(Space, u64),
}

pub open spec fn apply_change(m: Map<KeyView, u64>, c: Change) -> Map<KeyView, u64> {
    match c {
        Change::Insert(k, v) => insert_model(m, k, v),
        Change::Forget(s, v) => forget_model(m, s, v),
    }
}

/// The store after a sequence of changes, first to last.
pub open spec fn apply_changes(m: Map<KeyView, u64>, cs: Seq<Change>) -> Map<KeyView, u64>
    decreases cs.len(),
{
    if cs.len() == 0 {
        m
    } else {
        apply_changes(apply_change(m, cs[0]), cs.drop_first())
    }
}

/// Whether a change removes the mapping `k -> id`.
pub open spec fn removes(c: Change, k: KeyView, id: u64) -> bool {
    c matches Change::Forget(s, v) && in_space(k, s) && v == id
}

proof fn lemma_mapping_kept(m: Map<KeyView, u64>, k: KeyView, id: u64, cs: Seq<Change>)
    requires
        m.contains_key(k),
        m[k] == id,
        forall|i: int| 0 <= i < cs.len() ==> !removes(#[trigger] cs[i], k, id),
    ensures
        lookup_model(apply_changes(m, cs), k) == Ok::<u64, Error>(id),
    decreases cs.len(),
{
    if cs.len() > 0 {
        let m1 = apply_change(m, cs[0]);
        assert(!removes(cs[0], k, id));
        assert(m1.contains_key(k) && m1[k] == id);
        let rest = cs.drop_first();
        assert forall|i: int| 0 <= i < rest.len() implies !removes(#[trigger] rest[i], k, id) by {
            assert(rest[i] == cs[i + 1]);
        }
        lemma_mapping_kept(m1, k, id, rest);
    }
}

/// Once `insert(k, id)` has succeeded, looking `k` up answers `id` after
/// any later changes, until one of them forgets `k`'s mapping.
pub proof fn lemma_lookup_after_insert(m: Map<KeyView, u64>, k: KeyView, id: u64, later: Seq<Change>)
    requires
        !m.contains_key(k),
        forall|i: int| 0 <= i < later.len() ==> !removes(#[trigger] later[i], k, id),
    ensures
        lookup_model(insert_model(m, k, id), k) == Ok::<u64, Error>(id),
        lookup_model(apply_changes(insert_model(m, k, id), later), k) == Ok::<u64, Error>(id),
{
    lemma_mapping_kept(insert_model(m, k, id), k, id, later);
}

} // verus!

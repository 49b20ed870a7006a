//! The table of running background jobs, each with a cancellation token.
use vstd::prelude::*;

use crate::text::{copy_string, same_text};
use tokio_util::sync::CancellationToken;

verus! {

/// The cancellation token of `tokio_util`, carried through unopened.
#[verifier::external_type_specification]
#[verifier::external_body]
pub struct ExCancellationToken(tokio_util::sync::CancellationToken);

/// Calls `CancellationToken::new`: a fresh token that is not cancelled.
#[verifier::external_body]
fn new_token() -> CancellationToken {
    CancellationToken::new()
}

/// Calls `CancellationToken::clone`: another handle on the same token (the
/// clone shares the token's state, as an `Arc` clone does), so that
/// cancelling one is seen through the other. Verus sees the handle as the
/// same value, as vstd does for `Arc::clone`.
#[verifier::external_body]
fn share_token(t: &CancellationToken) -> (r: CancellationToken)
    ensures
        r == *t,
{
    t.clone()
}

/// Calls `CancellationToken::cancel`, which marks the token and everything
/// cloned from it as cancelled.
#[verifier::external_body]
fn cancel_token(t: &CancellationToken) {
    t.cancel()
}

/// Calls `uuid::Uuid::new_v4` and formats it: a random identifier in the
/// hyphenated form, 36 characters long. Which identifier comes out is left
/// open, as it is random.
#[verifier::external_body]
pub(crate) fn new_uuid_string() -> (id: String)
    ensures
        id@.len() == 36,
{
    uuid::Uuid::new_v4().to_string()
}

struct JobEntry {
    id: String,
    token: CancellationToken,
}

spec fn ids_unique(entries: Seq<JobEntry>) -> bool {
    forall|i: int, j: int| 0 <= i < j < entries.len() ==> entries[i].id@ != entries[j].id@
}

spec fn token_in(entries: Seq<JobEntry>, id: Seq<char>) -> CancellationToken {
    entries[choose|i: int| 0 <= i < entries.len() && #[trigger] entries[i].id@ == id].token
}

/// With unique identifiers, the token found for an entry's identifier is that
/// entry's token.
proof fn lemma_token_in(entries: Seq<JobEntry>, i: int)
    requires
        ids_unique(entries),
        0 <= i < entries.len(),
    ensures
        token_in(entries, entries[i].id@) == entries[i].token,
{
    let id = entries[i].id@;
    assert(entries[i].id@ == id);
    let j = choose|j: int| 0 <= j < entries.len() && #[trigger] entries[j].id@ == id;
    if j < i {
        assert(entries[j].id@ != entries[i].id@);
    } else if j > i {
        assert(entries[i].id@ != entries[j].id@);
    }
}

/// The jobs that are running, by identifier.
pub struct JobManager {
    entries: Vec<JobEntry>,
}

impl View for JobManager {
    type V = Set<Seq<char>>;

    /// The identifiers of the jobs that are running.
    closed spec fn view(&self) -> Set<Seq<char>> {
        self.ids().to_set()
    }
}

impl JobManager {
    spec fn ids(&self) -> Seq<Seq<char>> {
        self.entries@.map_values(|e: JobEntry| e.id@)
    }

    /// No identifier is held twice.
    #[verifier::type_invariant]
    spec fn unique_ids(&self) -> bool {
        ids_unique(self.entries@)
    }

    /// The token of the running job with this identifier.
    pub closed spec fn token_of(&self, id: Seq<char>) -> CancellationToken {
        token_in(self.entries@, id)
    }

    fn find(&self, job_id: &str) -> (r: Option<usize>)
        ensures
            match r {
                Some(i) => i < self.entries@.len() && self.entries@[i as int].id@ == job_id@,
                None => forall|i: int|
                    0 <= i < self.entries@.len() ==> self.entries@[i].id@ != job_id@,
            },
    {
        let mut i: usize = 0;
        while i < self.entries.len()
            invariant
                i <= self.entries@.len(),
                forall|k: int| 0 <= k < i ==> self.entries@[k].id@ != job_id@,
            decreases self.entries@.len() - i,
        {
            if same_text(self.entries[i].id.as_str(), job_id) {
                return Some(i);
            }
            i = i + 1;
        }
        None
    }

    proof fn lemma_view_contains(&self, id: Seq<char>)
        ensures
            self@.contains(id) <==> exists|i: int|
                0 <= i < self.entries@.len() && #[trigger] self.entries@[i].id@ == id,
    {
        if self@.contains(id) {
            let k = choose|k: int| 0 <= k < self.ids().len() && self.ids()[k] == id;
            assert(self.entries@[k].id@ == id);
        }
        if exists|i: int| 0 <= i < self.entries@.len() && #[trigger] self.entries@[i].id@ == id {
            let i = choose|i: int| 0 <= i < self.entries@.len() && #[trigger] self.entries@[i].id@ == id;
            assert(self.ids()[i] == id);
        }
    }

    /// An empty table.
    pub fn new() -> (r: JobManager)
        ensures
            r@ == Set::<Seq<char>>::empty(),
    {
        let r = JobManager { entries: Vec::new() };
        proof {
            assert(r.ids() =~= Seq::<Seq<char>>::empty());
        }
        r
    }

    /// Registers a new job under a fresh random identifier and returns the
    /// identifier with a handle on the job's token.
    pub fn create_job(&mut self) -> (r: (String, CancellationToken))
        ensures
            r.0@.len() == 36,
            final(self)@ == old(self)@.insert(r.0@),
            final(self).token_of(r.0@) == r.1,
            forall|k: Seq<char>|
                old(self)@.contains(k) && k != r.0@ ==> #[trigger] final(self).token_of(k)
                    == old(self).token_of(k),
    {
        proof {
            use_type_invariant(&*self);
        }
        let job_id = new_uuid_string();
        let token = new_token();
        let handle = share_token(&token);
        let ghost before = *self;
        let found = self.find(job_id.as_str());
        let mut entries: Vec<JobEntry> = Vec::new();
        std::mem::swap(&mut entries, &mut self.entries);
        match found {
            Some(i) => {
                // the same identifier again: the new token replaces the old one
                let entry = JobEntry { id: copy_string(&job_id), token };
                entries.set(i, entry);
                self.entries = entries;
                proof {
                    assert(self.ids() =~= before.ids());
                    before.lemma_view_contains(job_id@);
                    assert(before@.insert(job_id@) =~= before@);
                    use_type_invariant(&*self);
                    lemma_token_in(self.entries@, i as int);
                    assert forall|k: Seq<char>|
                        before@.contains(k) && k != job_id@ implies #[trigger] self.token_of(k)
                        == before.token_of(k) by {
                        before.lemma_view_contains(k);
                        let j = choose|j: int|
                            0 <= j < before.entries@.len() && #[trigger] before.entries@[j].id@
                                == k;
                        assert(j != i);
                        assert(self.entries@[j] == before.entries@[j]);
                        lemma_token_in(self.entries@, j);
                        lemma_token_in(before.entries@, j);
                    }
                }
            },
            None => {
                let entry = JobEntry { id: copy_string(&job_id), token };
                entries.push(entry);
                self.entries = entries;
                proof {
                    let n = before.entries@.len();
                    assert forall|x: Seq<char>| #[trigger] self@.contains(x) == before@.insert(
                        job_id@,
                    ).contains(x) by {
                        self.lemma_view_contains(x);
                        before.lemma_view_contains(x);
                        if self@.contains(x) && x != job_id@ {
                            let k = choose|k: int|
                                0 <= k < self.entries@.len() && #[trigger] self.entries@[k].id@
                                    == x;
                            assert(k < n);
                            assert(before.entries@[k] == self.entries@[k]);
                        }
                        if before@.contains(x) {
                            let k = choose|k: int|
                                0 <= k < before.entries@.len() && #[trigger] before.entries@[k].id@
                                    == x;
                            assert(self.entries@[k] == before.entries@[k]);
                        }
                        if x == job_id@ {
                            assert(self.entries@[n as int].id@ == x);
                        }
                    }
                    assert(self@ =~= before@.insert(job_id@));
                    use_type_invariant(&*self);
                    lemma_token_in(self.entries@, n as int);
                    assert forall|k: Seq<char>|
                        before@.contains(k) && k != job_id@ implies #[trigger] self.token_of(k)
                        == before.token_of(k) by {
                        before.lemma_view_contains(k);
                        let j = choose|j: int|
                            0 <= j < before.entries@.len() && #[trigger] before.entries@[j].id@
                                == k;
                        assert(self.entries@[j] == before.entries@[j]);
                        lemma_token_in(self.entries@, j);
                        lemma_token_in(before.entries@, j);
                    }
                }
            },
        }
        (job_id, handle)
    }

    /// Cancels the job's token; tells whether the job was known.
    pub fn cancel(&self, job_id: &str) -> (r: bool)
        ensures
            r == self@.contains(job_id@),
    {
        proof {
            self.lemma_view_contains(job_id@);
        }
        match self.find(job_id) {
            Some(i) => {
                cancel_token(&self.entries[i].token);
                true
            },
            None => false,
        }
    }

    /// Forgets the job; the other jobs keep their tokens.
    pub fn remove(&mut self, job_id: &str)
        ensures
            final(self)@ == old(self)@.remove(job_id@),
            forall|k: Seq<char>|
                final(self)@.contains(k) ==> #[trigger] final(self).token_of(k) == old(
                    self,
                ).token_of(k),
    {
        proof {
            use_type_invariant(&*self);
        }
        let ghost before = *self;
        proof {
            before.lemma_view_contains(job_id@);
        }
        match self.find(job_id) {
            Some(i) => {
                let mut entries: Vec<JobEntry> = Vec::new();
                std::mem::swap(&mut entries, &mut self.entries);
                entries.remove(i);
                self.entries = entries;
                proof {
                    assert forall|x: Seq<char>| #[trigger] self@.contains(x) == before@.remove(
                        job_id@,
                    ).contains(x) by {
                        self.lemma_view_contains(x);
                        before.lemma_view_contains(x);
                        if self@.contains(x) {
                            let k = choose|k: int|
                                0 <= k < self.entries@.len() && #[trigger] self.entries@[k].id@
                                    == x;
                            if k < i {
                                assert(before.entries@[k] == self.entries@[k]);
                            } else {
                                assert(before.entries@[k + 1] == self.entries@[k]);
                            }
                        }
                        if before@.remove(job_id@).contains(x) {
                            let k = choose|k: int|
                                0 <= k < before.entries@.len() && #[trigger] before.entries@[k].id@
                                    == x;
                            if k < i {
                                assert(self.entries@[k] == before.entries@[k]);
                            } else if k > i {
                                assert(self.entries@[k - 1] == before.entries@[k]);
                            }
                        }
                    }
                    assert(self@ =~= before@.remove(job_id@));
                    use_type_invariant(&*self);
                    assert forall|k: Seq<char>| self@.contains(k) implies #[trigger] self.token_of(k)
                        == before.token_of(k) by {
                        self.lemma_view_contains(k);
                        let j = choose|j: int|
                            0 <= j < self.entries@.len() && #[trigger] self.entries@[j].id@ == k;
                        lemma_token_in(self.entries@, j);
                        if j < i {
                            assert(self.entries@[j] == before.entries@[j]);
                            lemma_token_in(before.entries@, j);
                        } else {
                            assert(self.entries@[j] == before.entries@[j + 1]);
                            lemma_token_in(before.entries@, j + 1);
                        }
                    }
                }
            },
            None => {
                proof {
                    assert(before@.remove(job_id@) =~= before@);
                }
            },
        }
    }

    /// A handle on the job's token, if the job is known.
    pub fn get(&self, job_id: &str) -> (r: Option<CancellationToken>)
        ensures
            r is Some == self@.contains(job_id@),
            r matches Some(t) ==> t == self.token_of(job_id@),
    {
        proof {
            use_type_invariant(self);
            self.lemma_view_contains(job_id@);
        }
        match self.find(job_id) {
            Some(i) => {
                proof {
                    lemma_token_in(self.entries@, i as int);
                }
                Some(share_token(&self.entries[i].token))
            },
            None => None,
        }
    }
}


/// A job is known from its creation until it is removed, with its token:
/// `before`, `created` and `removed` are the table before `create_job` gave
/// `(id, token)`, after it, and after `remove(id)`, each related as those
/// operations ensure. In `created`, `cancel(id)` is true and `get(id)` gives
/// `token`; in `removed`, `cancel(id)` is false and `get(id)` is `None`; every
/// other job is known in `removed` exactly when it was in `before`, with the
/// same token.
pub proof fn lemma_job_lifecycle(
    before: JobManager,
    created: JobManager,
    removed: JobManager,
    id: Seq<char>,
    token: CancellationToken,
)
    requires
        created@ == before@.insert(id),
        created.token_of(id) == token,
        forall|k: Seq<char>|
            before@.contains(k) && k != id ==> #[trigger] created.token_of(k) == before.token_of(k),
        removed@ == created@.remove(id),
        forall|k: Seq<char>|
            removed@.contains(k) ==> #[trigger] removed.token_of(k) == created.token_of(k),
    ensures
        created@.contains(id),
        created.token_of(id) == token,
        !removed@.contains(id),
        forall|k: Seq<char>| k != id ==> (#[trigger] removed@.contains(k) <==> before@.contains(k)),
        forall|k: Seq<char>|
            k != id && before@.contains(k) ==> #[trigger] removed.token_of(k) == before.token_of(k),
{
    assert forall|k: Seq<char>| k != id implies (#[trigger] removed@.contains(k) <==> before@.contains(
        k,
    )) by {
        assert(removed@.contains(k) == created@.contains(k));
        assert(created@.contains(k) == before@.contains(k));
    }
    assert forall|k: Seq<char>| k != id && before@.contains(k) implies #[trigger] removed.token_of(k)
        == before.token_of(k) by {
        assert(created@.contains(k));
        assert(removed@.contains(k));
        assert(removed.token_of(k) == created.token_of(k));
    }
}

} // verus!

use vstd::prelude::*;

verus! {

/// The process-wide set of currently-valid opaque session identifiers,
/// shared by every concurrent request. Membership is the sole authority for
/// whether a session is valid: there is no expiry timestamp and no
/// per-session user binding. The registry only grows — the design exposes no
/// removal, a genuine resource-exhaustion risk for a long-lived process that
/// is noted here rather than silently repaired.
pub struct SessionRegistry {
    ids: Vec<String>,
}

impl View for SessionRegistry {
    type V = Set<Seq<char>>;

    closed spec fn view(&self) -> Set<Seq<char>> {
        self.ids.deep_view().to_set()
    }
}

impl SessionRegistry {
    /// The registry starts empty: no session is valid at process start.
    pub fn new() -> (r: SessionRegistry)
        ensures
            r@ == Set::<Seq<char>>::empty(),
    {
        let r = SessionRegistry { ids: Vec::new() };
        proof {
            assert(r@ =~= Set::<Seq<char>>::empty());
        }
        r
    }

    /// Many-reader membership test: whether `id` is a currently-valid
    /// session.
    pub fn contains(&self, id: &String) -> (r: bool)
        ensures
            r == self@.contains(id@),
    {
        let ghost s = self.ids.deep_view();
        let mut i: usize = 0;
        while i < self.ids.len()
            invariant
                0 <= i <= self.ids.len(),
                s == self.ids.deep_view(),
                s.len() == self.ids.len(),
                forall|k: int| 0 <= k < i ==> s[k] != id@,
            decreases self.ids.len() - i,
        {
            proof {
                assert(s[i as int] == self.ids@[i as int]@);
            }
            if self.ids[i] == *id {
                proof {
                    assert(s.contains(id@));
                }
                return true;
            }
            i = i + 1;
        }
        proof {
            assert(!s.contains(id@));
        }
        false
    }

    /// Exclusive-writer insertion: registers `id` as a valid session. The
    /// update is never lost: every membership test against the state after
    /// the insertion sees `id`.
    pub fn insert(&mut self, id: String)
        ensures
            final(self)@ == old(self)@.insert(id@),
    {
        let ghost olds = self.ids.deep_view();
        if !self.contains(&id) {
            self.ids.push(id);
            proof {
                assert(self.ids.deep_view() =~= olds.push(id@));
                assert forall|x: Seq<char>|
                    self.ids.deep_view().contains(x) <==> (olds.contains(x) || x
                        == id@) by {
                    if self.ids.deep_view().contains(x) {
                        let k = choose|k: int|
                            0 <= k < olds.push(id@).len() && olds.push(id@)[k] == x;
                        if k < olds.len() {
                            assert(olds[k] == x);
                        }
                    }
                    if olds.contains(x) {
                        let k = choose|k: int| 0 <= k < olds.len() && olds[k] == x;
                        assert(olds.push(id@)[k] == x);
                    }
                    if x == id@ {
                        assert(olds.push(id@)[olds.len() as int] == x);
                    }
                }
                assert(self@ =~= old(self)@.insert(id@));
            }
        } else {
            proof {
                assert(self@ =~= old(self)@.insert(id@));
            }
        }
    }
}

/// An inserted session identifier is visible to every membership test made
/// against the registry state after the insertion completes, and an
/// insertion never hides an identifier that was already valid.
pub proof fn lemma_insert_visible(sessions: Set<Seq<char>>, id: Seq<char>, other: Seq<char>)
    ensures
        sessions.insert(id).contains(id),
        sessions.contains(other) ==> sessions.insert(id).contains(other),
{
}

} // verus!

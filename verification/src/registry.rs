use vstd::prelude::*;

verus! {

/// The set of lock paths recorded in a sequence of path strings.
pub open spec fn path_set(ps: Seq<String>) -> Set<Seq<char>> {
    Set::new(|p: Seq<char>| exists|i: int| 0 <= i < ps.len() && ps[i]@ == p)
}

/// The process-wide record of lock paths currently held by this process.
///
/// The registry only tracks what to clean up after a crash; it does not
/// grant or deny exclusivity. Its abstract value is the set of recorded
/// paths. A registry built by `new` and mutated only through the methods
/// below is always well formed.
pub struct Registry {
    paths: Vec<String>,
}

impl View for Registry {
    type V = Set<Seq<char>>;

    closed spec fn view(&self) -> Set<Seq<char>> {
        path_set(self.paths@)
    }
}

impl Registry {
    /// Well-formedness: no path is recorded twice.
    pub closed spec fn wf(&self) -> bool {
        forall|i: int, j: int|
            0 <= i < j < self.paths@.len() ==> self.paths@[i]@ != self.paths@[j]@
    }

    /// An empty registry: no path is held yet.
    pub fn new() -> (r: Registry)
        ensures
            r.wf(),
            r@ == Set::<Seq<char>>::empty(),
    {
        let r = Registry { paths: Vec::new() };
        proof {
            assert(r@ =~= Set::<Seq<char>>::empty());
        }
        r
    }

    /// Whether the given path is currently recorded.
    pub fn contains(&self, path: &String) -> (b: bool)
        ensures
            b == self@.contains(path@),
    {
        let n = self.paths.len();
        let mut i: usize = 0;
        while i < n
            invariant
                n == self.paths@.len(),
                0 <= i <= n,
                forall|j: int| 0 <= j < i ==> self.paths@[j]@ != path@,
            decreases n - i,
        {
            if self.paths[i] == *path {
                proof {
                    assert(self.paths@[i as int]@ == path@);
                }
                return true;
            }
            i += 1;
        }
        false
    }

    /// Record a path as held; recording a path twice leaves one record.
    pub fn register(&mut self, path: String)
        ensures
            old(self).wf() ==> final(self).wf(),
            final(self)@ == old(self)@.insert(path@),
    {
        if self.contains(&path) {
            proof {
                assert(self@ =~= old(self)@.insert(path@));
            }
        } else {
            self.paths.push(path);
            proof {
                let op = old(self).paths@;
                let np = self.paths@;
                assert forall|p: Seq<char>| self@.contains(p) implies old(self)@.insert(
                    path@,
                ).contains(p) by {
                    let i = choose|i: int| 0 <= i < np.len() && np[i]@ == p;
                    if i < op.len() {
                        assert(op[i]@ == p);
                    }
                }
                assert forall|p: Seq<char>| old(self)@.insert(path@).contains(p) implies
                    self@.contains(p) by {
                    if old(self)@.contains(p) {
                        let i = choose|i: int| 0 <= i < op.len() && op[i]@ == p;
                        assert(np[i]@ == p);
                    } else {
                        assert(np[op.len() as int]@ == p);
                    }
                }
                assert(self@ =~= old(self)@.insert(path@));
                if old(self).wf() {
                    assert forall|a: int, b: int| 0 <= a < b < np.len() implies np[a]@ != np[b]@ by {
                        if b == op.len() {
                            assert(!old(self)@.contains(path@));
                            assert(op[a]@ != path@);
                        }
                    }
                }
            }
        }
    }

    /// Forget a path; a no-op if the path is not recorded.
    pub fn unregister(&mut self, path: &String)
        ensures
            old(self).wf() ==> final(self).wf(),
            old(self).wf() ==> final(self)@ == old(self)@.remove(path@),
    {
        let n = self.paths.len();
        let mut i: usize = 0;
        while i < n
            invariant
                self.paths@ == old(self).paths@,
                n == self.paths@.len(),
                0 <= i <= n,
                forall|j: int| 0 <= j < i ==> self.paths@[j]@ != path@,
            decreases n - i,
        {
            if self.paths[i] == *path {
                proof {
                    assert(old(self).paths@[i as int]@ == path@);
                }
                self.paths.remove(i);
                proof {
                    if old(self).wf() {
                        let op = old(self).paths@;
                        let np = self.paths@;
                        assert(np == op.remove(i as int));
                        assert forall|a: int| 0 <= a < np.len() implies np[a] == op[
                            if a < i { a } else { a + 1 }
                        ] by {}
                        assert forall|p: Seq<char>| self@.contains(p) implies old(self)@.remove(
                            path@,
                        ).contains(p) by {
                            let a = choose|a: int| 0 <= a < np.len() && np[a]@ == p;
                            let a2: int = if a < i { a } else { a + 1 };
                            assert(op[a2]@ == p);
                            assert(a2 != i);
                            assert(op[a2]@ != op[i as int]@);
                        }
                        assert forall|p: Seq<char>| old(self)@.remove(path@).contains(p) implies
                            self@.contains(p) by {
                            let a = choose|a: int| 0 <= a < op.len() && op[a]@ == p;
                            assert(a != i);
                            let a2: int = if a < i { a } else { a - 1 };
                            assert(np[a2]@ == p);
                        }
                        assert(self@ =~= old(self)@.remove(path@));
                        assert forall|a: int, b: int| 0 <= a < b < np.len() implies np[a]@ != np[
                            b
                        ]@ by {
                            let a2: int = if a < i { a } else { a + 1 };
                            let b2: int = if b < i { b } else { b + 1 };
                            assert(np[a]@ == op[a2]@);
                            assert(np[b]@ == op[b2]@);
                        }
                    }
                }
                return;
            }
            i += 1;
        }
        proof {
            assert(!old(self)@.contains(path@));
            assert(self@ =~= old(self)@.remove(path@));
        }
    }

    /// Hand out every recorded path for the cleanup sweep and forget them all.
    ///
    /// Used by the signal-driven cleanup: the caller deletes each returned
    /// file best-effort, and the registry is empty afterwards.
    pub fn snapshot_and_clear(&mut self) -> (v: Vec<String>)
        ensures
            final(self).wf(),
            final(self)@ == Set::<Seq<char>>::empty(),
            path_set(v@) == old(self)@,
            old(self).wf() ==> forall|a: int, b: int| 0 <= a < b < v@.len() ==> v@[a]@ != v@[b]@,
    {
        let mut v: Vec<String> = Vec::new();
        core::mem::swap(&mut v, &mut self.paths);
        proof {
            assert(self@ =~= Set::<Seq<char>>::empty());
        }
        v
    }

    /// Whether no path at all is currently recorded.
    pub fn is_empty(&self) -> (b: bool)
        ensures
            b == (self@ == Set::<Seq<char>>::empty()),
    {
        let b = self.paths.len() == 0;
        proof {
            if self.paths@.len() == 0 {
                assert(self@ =~= Set::<Seq<char>>::empty());
            } else {
                assert(self@.contains(self.paths@[0]@));
            }
        }
        b
    }
}

} // verus!

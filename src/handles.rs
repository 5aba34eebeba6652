//! Exclusive handles on ledger databases. The underlying storage admits one
//! writer per path, so a path may be held by at most one handle at a time, and
//! a handle must be released before the path is opened again.
use vstd::prelude::*;

use crate::error::GenesisError;

verus! {

/// The right to use the database at one path. Only
/// [`DatabaseHandles::open`] makes one, and [`DatabaseHandles::close`]
/// consumes it.
pub struct DbHandle {
    path: String,
}

impl View for DbHandle {
    type V = Seq<char>;

    closed spec fn view(&self) -> Seq<char> {
        self.path@
    }
}

impl DbHandle {
    /// The path this handle holds.
    pub fn path(&self) -> (r: &String)
        ensures
            r@ == self@,
    {
        &self.path
    }
}

/// The paths whose databases are held open.
pub struct DatabaseHandles {
    open_paths: Vec<String>,
}

impl View for DatabaseHandles {
    type V = Set<Seq<char>>;

    closed spec fn view(&self) -> Set<Seq<char>> {
        self.held().to_set()
    }
}

/// Whether opening `path` succeeds while the paths in `held` are open.
pub open spec fn may_open(held: Set<Seq<char>>, path: Seq<char>) -> bool {
    !held.contains(path)
}

impl DatabaseHandles {
    closed spec fn held(&self) -> Seq<Seq<char>> {
        self.open_paths@.map_values(|s: String| s@)
    }

    /// Each path is held at most once.
    pub closed spec fn wf(&self) -> bool {
        self.held().no_duplicates()
    }

    /// No database is held.
    pub fn new() -> (r: DatabaseHandles)
        ensures
            r.wf(),
            r@ == Set::<Seq<char>>::empty(),
    {
        let r = DatabaseHandles { open_paths: Vec::new() };
        assert(r@ =~= Set::<Seq<char>>::empty());
        r
    }

    fn position(&self, path: &String) -> (r: Option<usize>)
        ensures
            r is None <==> !self@.contains(path@),
            r matches Some(i) ==> i < self.held().len() && self.held()[i as int] == path@,
    {
        let mut i: usize = 0;
        while i < self.open_paths.len()
            invariant
                i <= self.held().len(),
                self.held().len() == self.open_paths@.len(),
                forall|j: int| 0 <= j < i ==> self.held()[j] != path@,
            decreases self.open_paths@.len() - i,
        {
            if self.open_paths[i] == *path {
                assert(self.held()[i as int] == path@);
                assert(self.held().contains(path@));
                return Some(i);
            }
            i = i + 1;
        }
        proof {
            if self@.contains(path@) {
                let k = choose|k: int| 0 <= k < self.held().len() && self.held()[k] == path@;
                assert(self.held()[k] == path@);
            }
        }
        None
    }

    /// Whether the database at `path` is held.
    pub fn is_open(&self, path: &String) -> (r: bool)
        ensures
            r == self@.contains(path@),
    {
        self.position(path).is_some()
    }

    /// Opens the database at `path`. Fails while another handle holds it.
    pub fn open(&mut self, path: &String) -> (r: Result<DbHandle, GenesisError>)
        requires
            old(self).wf(),
        ensures
            final(self).wf(),
            r is Ok <==> may_open(old(self)@, path@),
            r matches Ok(h) ==> h@ == path@ && final(self)@ == old(self)@.insert(path@),
            r matches Err(e) ==> final(self)@ == old(self)@ && (e matches GenesisError::StorageOpen {
                path: p,
            } && p@ == path@),
    {
        if self.is_open(path) {
            return Err(GenesisError::StorageOpen { path: path.clone() });
        }
        let ghost before = self.held();
        self.open_paths.push(path.clone());
        proof {
            assert(self.held() =~= before.push(path@));
            before.lemma_push_to_set_commute(path@);
            assert(self@ =~= old(self)@.insert(path@));
            assert(self.wf()) by {
                assert forall|a: int, b: int|
                    0 <= a < b < self.held().len() implies self.held()[a] != self.held()[b] by {
                    if b == before.len() {
                        assert(before.contains(before[a]));
                    }
                }
            }
        }
        Ok(DbHandle { path: path.clone() })
    }

    /// Releases `handle`: its path may be opened again.
    pub fn close(&mut self, handle: DbHandle)
        requires
            old(self).wf(),
        ensures
            final(self).wf(),
            final(self)@ == old(self)@.remove(handle@),
    {
        match self.position(&handle.path) {
            None => {
                assert(self@ =~= old(self)@.remove(handle@));
            },
            Some(i) => {
                let ghost before = self.held();
                self.open_paths.remove(i);
                proof {
                    assert(self.held() =~= before.remove(i as int));
                    assert forall|q: Seq<char>|
                        self@.contains(q) <==> old(self)@.remove(handle@).contains(q) by {
                        if self@.contains(q) {
                            let k = choose|k: int| 0 <= k < self.held().len() && self.held()[k] == q;
                            if k < i {
                                assert(before[k] == q);
                            } else {
                                assert(before[k + 1] == q);
                            }
                        }
                        if old(self)@.remove(handle@).contains(q) {
                            let k = choose|k: int| 0 <= k < before.len() && before[k] == q;
                            assert(k != i);
                            if k < i {
                                assert(self.held()[k] == q);
                            } else {
                                assert(self.held()[k - 1] == q);
                            }
                        }
                    }
                    assert(self@ =~= old(self)@.remove(handle@));
                }
            },
        }
    }
}

/// While a handle holds a path, a second open of that path fails; once the
/// handle is released, the path can be opened again.
pub proof fn lemma_handle_discipline(held: Set<Seq<char>>, path: Seq<char>)
    requires
        may_open(held, path),
    ensures
        !may_open(held.insert(path), path),
        may_open(held.insert(path).remove(path), path),
{
}

} // verus!

use vstd::prelude::*;

use crate::paths::bytes_eq;

verus! {

/// One file: where it lives and the bytes it holds.
pub struct FsEntry {
    pub path: Vec<u8>,
    pub contents: Vec<u8>,
}

/// The map a directory of files denotes: each entry's path bound to its
/// contents, later entries taking precedence.
pub open spec fn files_map(s: Seq<FsEntry>) -> Map<Seq<u8>, Seq<u8>>
    decreases s.len(),
{
    if s.len() == 0 {
        Map::empty()
    } else {
        files_map(s.drop_last()).insert(s.last().path@, s.last().contents@)
    }
}

/// No two entries name the same path.
pub open spec fn unique_paths(s: Seq<FsEntry>) -> bool {
    forall|i: int, j: int| 0 <= i < j < s.len() ==> s[i].path@ != s[j].path@
}

proof fn lemma_files_map_contains(s: Seq<FsEntry>, k: Seq<u8>)
    ensures
        files_map(s).contains_key(k) <==> exists|i: int| 0 <= i < s.len() && s[i].path@ == k,
    decreases s.len(),
{
    if s.len() == 0 {
    } else {
        lemma_files_map_contains(s.drop_last(), k);
        if s.last().path@ == k {
            assert(s[s.len() - 1].path@ == k);
        } else if files_map(s).contains_key(k) {
            let i = choose|i: int| 0 <= i < s.drop_last().len() && s.drop_last()[i].path@ == k;
            assert(s[i].path@ == k);
        } else if exists|i: int| 0 <= i < s.len() && s[i].path@ == k {
            let i = choose|i: int| 0 <= i < s.len() && s[i].path@ == k;
            assert(s.drop_last()[i].path@ == k);
        }
    }
}

proof fn lemma_files_map_value(s: Seq<FsEntry>, i: int)
    requires
        unique_paths(s),
        0 <= i < s.len(),
    ensures
        files_map(s).contains_key(s[i].path@),
        files_map(s)[s[i].path@] == s[i].contents@,
    decreases s.len(),
{
    if i == s.len() - 1 {
    } else {
        assert(unique_paths(s.drop_last()));
        lemma_files_map_value(s.drop_last(), i);
        assert(s.drop_last()[i] == s[i]);
        assert(s[i].path@ != s.last().path@);
    }
}

proof fn lemma_files_map_remove(s: Seq<FsEntry>, i: int)
    requires
        unique_paths(s),
        0 <= i < s.len(),
    ensures
        files_map(s.remove(i)) == files_map(s).remove(s[i].path@),
    decreases s.len(),
{
    let k = s[i].path@;
    if i == s.len() - 1 {
        assert(s.remove(i) =~= s.drop_last());
        lemma_files_map_contains(s.drop_last(), k);
        assert forall|j: int| 0 <= j < s.drop_last().len() implies s.drop_last()[j].path@ != k by {
            assert(s[j].path@ != s[i].path@);
        }
        assert(!files_map(s.drop_last()).contains_key(k));
        assert(files_map(s.remove(i)) =~= files_map(s).remove(k));
    } else {
        assert(unique_paths(s.drop_last()));
        lemma_files_map_remove(s.drop_last(), i);
        assert(s.remove(i).drop_last() =~= s.drop_last().remove(i));
        assert(s.remove(i).last() == s.last());
        assert(s.drop_last()[i] == s[i]);
        assert(k != s.last().path@);
        assert(files_map(s.remove(i)) == files_map(s.drop_last().remove(i)).insert(
            s.last().path@,
            s.last().contents@,
        ));
        assert(files_map(s.drop_last()).remove(k).insert(s.last().path@, s.last().contents@)
            =~= files_map(s.drop_last()).insert(s.last().path@, s.last().contents@).remove(k));
        assert(files_map(s.remove(i)) =~= files_map(s).remove(k));
    }
}

/// A model of the filesystem shared by the worker and its subworkers: a
/// finite map from absolute paths to file contents. Localization performs
/// its relocation against this model; the embedding process mirrors the
/// same operations onto the real filesystem.
pub struct FileSystem {
    entries: Vec<FsEntry>,
}

impl View for FileSystem {
    type V = Map<Seq<u8>, Seq<u8>>;

    closed spec fn view(&self) -> Map<Seq<u8>, Seq<u8>> {
        files_map(self.entries@)
    }
}

impl FileSystem {
    /// Internal invariant: one entry per path.
    pub closed spec fn wf(self) -> bool {
        unique_paths(self.entries@)
    }

    /// An empty filesystem.
    pub fn new() -> (fs: FileSystem)
        ensures
            fs.wf(),
            fs@ == Map::<Seq<u8>, Seq<u8>>::empty(),
    {
        FileSystem { entries: Vec::new() }
    }

    /// The index of the entry for `p`, if one exists.
    fn find(&self, p: &Vec<u8>) -> (r: Option<usize>)
        ensures
            match r {
                Some(i) => i < self.entries@.len() && self.entries@[i as int].path@ == p@,
                None => forall|j: int|
                    0 <= j < self.entries@.len() ==> self.entries@[j].path@ != p@,
            },
    {
        let mut i: usize = 0;
        while i < self.entries.len()
            invariant
                i <= self.entries@.len(),
                forall|j: int| 0 <= j < i ==> self.entries@[j].path@ != p@,
            decreases self.entries@.len() - i,
        {
            if bytes_eq(&self.entries[i].path, p) {
                return Some(i);
            }
            i += 1;
        }
        None
    }

    /// Whether a file exists at `p`.
    pub fn contains(&self, p: &Vec<u8>) -> (r: bool)
        ensures
            r == self@.contains_key(p@),
    {
        proof {
            lemma_files_map_contains(self.entries@, p@);
        }
        self.find(p).is_some()
    }

    /// The contents of the file at `p`, if one exists.
    pub fn read(&self, p: &Vec<u8>) -> (r: Option<&Vec<u8>>)
        requires
            self.wf(),
        ensures
            match r {
                Some(v) => self@.contains_key(p@) && v@ == self@[p@],
                None => !self@.contains_key(p@),
            },
    {
        proof {
            lemma_files_map_contains(self.entries@, p@);
        }
        match self.find(p) {
            Some(i) => {
                proof {
                    lemma_files_map_value(self.entries@, i as int);
                }
                Some(&self.entries[i].contents)
            },
            None => None,
        }
    }

    /// Creates or replaces the file at `p` with the given contents.
    pub fn write(&mut self, p: Vec<u8>, contents: Vec<u8>)
        requires
            old(self).wf(),
        ensures
            final(self).wf(),
            final(self)@ == old(self)@.insert(p@, contents@),
    {
        match self.find(&p) {
            Some(i) => {
                proof {
                    lemma_files_map_remove(self.entries@, i as int);
                    self.entries@.remove_ensures(i as int);
                }
                let ghost before = self.entries@;
                let ghost at = i as int;
                self.entries.remove(i);
                proof {
                    assert forall|a: int, b: int|
                        0 <= a < b < self.entries@.len() implies self.entries@[a].path@
                        != self.entries@[b].path@ by {
                        assert(self.entries@[a] == if a < at {
                            before[a]
                        } else {
                            before[a + 1]
                        });
                        assert(self.entries@[b] == if b < at {
                            before[b]
                        } else {
                            before[b + 1]
                        });
                    }
                    assert forall|j: int| 0 <= j < self.entries@.len() implies self.entries@[j].path@
                        != p@ by {
                        assert(self.entries@[j] == if j < at {
                            before[j]
                        } else {
                            before[j + 1]
                        });
                    }
                }
            },
            None => {
                proof {
                    lemma_files_map_contains(self.entries@, p@);
                    assert(old(self)@.remove(p@) =~= old(self)@);
                }
            },
        }
        let ghost mid = self.entries@;
        proof {
            assert(unique_paths(mid));
            assert(forall|j: int| 0 <= j < mid.len() ==> #[trigger] mid[j].path@ != p@);
            assert(files_map(mid) == old(self)@.remove(p@));
        }
        let entry = FsEntry { path: p, contents };
        self.entries.push(entry);
        proof {
            assert(self.entries@.drop_last() =~= mid);
            assert(self.entries@.last().path@ == p@ && self.entries@.last().contents@
                == contents@);
            assert(files_map(self.entries@) == files_map(mid).insert(p@, contents@));
            assert(files_map(self.entries@) =~= old(self)@.insert(p@, contents@));
            assert forall|a: int, b: int|
                0 <= a < b < self.entries@.len() implies self.entries@[a].path@
                != self.entries@[b].path@ by {
                if b < self.entries@.len() - 1 {
                    assert(self.entries@[a] == mid[a] && self.entries@[b] == mid[b]);
                } else {
                    assert(self.entries@[a] == mid[a]);
                }
            }
        }
    }

    /// Deletes the file at `p`, returning its contents when it existed.
    pub fn remove(&mut self, p: &Vec<u8>) -> (r: Option<Vec<u8>>)
        requires
            old(self).wf(),
        ensures
            final(self).wf(),
            final(self)@ == old(self)@.remove(p@),
            match r {
                Some(v) => old(self)@.contains_key(p@) && v@ == old(self)@[p@],
                None => !old(self)@.contains_key(p@),
            },
    {
        proof {
            lemma_files_map_contains(self.entries@, p@);
        }
        match self.find(p) {
            Some(i) => {
                proof {
                    lemma_files_map_value(self.entries@, i as int);
                    lemma_files_map_remove(self.entries@, i as int);
                    self.entries@.remove_ensures(i as int);
                }
                let ghost before = self.entries@;
                let ghost at = i as int;
                let entry = self.entries.remove(i);
                proof {
                    assert forall|a: int, b: int|
                        0 <= a < b < self.entries@.len() implies self.entries@[a].path@
                        != self.entries@[b].path@ by {
                        assert(self.entries@[a] == if a < at {
                            before[a]
                        } else {
                            before[a + 1]
                        });
                        assert(self.entries@[b] == if b < at {
                            before[b]
                        } else {
                            before[b + 1]
                        });
                    }
                }
                Some(entry.contents)
            },
            None => {
                proof {
                    assert(old(self)@.remove(p@) =~= old(self)@);
                }
                None
            },
        }
    }

    /// Relocates the file at `src` to `dst`: after the call `src` names no
    /// file, and `dst` holds exactly the bytes `src` held. The move performs
    /// no copy of the contents.
    pub fn move_file(&mut self, src: &Vec<u8>, dst: Vec<u8>)
        requires
            old(self).wf(),
            old(self)@.contains_key(src@),
        ensures
            final(self).wf(),
            final(self)@ == old(self)@.remove(src@).insert(dst@, old(self)@[src@]),
    {
        match self.remove(src) {
            Some(contents) => {
                self.write(dst, contents);
            },
            None => {
                proof {
                    assert(false);
                }
            },
        }
    }
}

} // verus!

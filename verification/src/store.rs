use vstd::prelude::*;
use vstd::slice::slice_to_vec;

verus! {

/// The file-system boundary: write a whole file at a path (creating or
/// truncating it), or read a whole file. `files()` is the map from path to
/// contents.
pub trait FileStore {
    spec fn files(&self) -> Map<Seq<char>, Seq<u8>>;

    /// Create or truncate the file at `path` and write `data` to it. After
    /// a failure the state of that one file is unspecified; no other file
    /// is touched either way.
    fn write_file(&mut self, path: &str, data: &[u8]) -> (r: Result<(), String>)
        ensures
            r is Ok ==> final(self).files() == old(self).files().insert(path@, data@),
            r is Err ==> final(self).files().remove(path@) == old(self).files().remove(path@),
    ;

    /// Read the whole file at `path`. A missing file is a failure.
    fn read_file(&self, path: &str) -> (r: Result<Vec<u8>, String>)
        ensures
            r is Ok ==> self.files().contains_key(path@) && r->Ok_0@ == self.files()[path@],
            !self.files().contains_key(path@) ==> r is Err,
    ;
}

/// An in-memory file store. Writes append an entry; the newest entry for a
/// path is the file's content.
pub struct MemStore {
    pub entries: Vec<(String, Vec<u8>)>,
}

/// The map a sequence of write entries amounts to: later entries win.
pub open spec fn files_of(s: Seq<(String, Vec<u8>)>) -> Map<Seq<char>, Seq<u8>>
    decreases s.len(),
{
    if s.len() == 0 {
        Map::empty()
    } else {
        files_of(s.drop_last()).insert(s.last().0@, s.last().1@)
    }
}

proof fn lemma_files_of_found(s: Seq<(String, Vec<u8>)>, i: int)
    requires
        0 <= i < s.len(),
        forall|j: int| i < j < s.len() ==> s[j].0@ != s[i].0@,
    ensures
        files_of(s).contains_key(s[i].0@),
        files_of(s)[s[i].0@] == s[i].1@,
    decreases s.len(),
{
    if i < s.len() - 1 {
        assert forall|j: int| i < j < s.drop_last().len() implies s.drop_last()[j].0@
            != s.drop_last()[i].0@ by {
            assert(s.drop_last()[j] == s[j]);
        }
        lemma_files_of_found(s.drop_last(), i);
    }
}

proof fn lemma_files_of_absent(s: Seq<(String, Vec<u8>)>, k: Seq<char>)
    requires
        forall|j: int| 0 <= j < s.len() ==> s[j].0@ != k,
    ensures
        !files_of(s).contains_key(k),
    decreases s.len(),
{
    if s.len() > 0 {
        lemma_files_of_absent(s.drop_last(), k);
    }
}

impl MemStore {
    pub fn new() -> (r: MemStore)
        ensures
            r.files() == Map::<Seq<char>, Seq<u8>>::empty(),
    {
        MemStore { entries: Vec::new() }
    }
}

impl FileStore for MemStore {
    open spec fn files(&self) -> Map<Seq<char>, Seq<u8>> {
        files_of(self.entries@)
    }

    fn write_file(&mut self, path: &str, data: &[u8]) -> (r: Result<(), String>)
        ensures
            r is Ok,
    {
        let entry = (path.to_owned(), slice_to_vec(data));
        self.entries.push(entry);
        proof {
            assert(self.entries@.drop_last() =~= old(self).entries@);
        }
        Ok(())
    }

    fn read_file(&self, path: &str) -> (r: Result<Vec<u8>, String>)
        ensures
            r is Ok <==> self.files().contains_key(path@),
    {
        let key = path.to_owned();
        let n = self.entries.len();
        let mut i: usize = n;
        while i > 0
            invariant
                i <= n,
                n == self.entries.len(),
                key@ == path@,
                forall|j: int| i <= j < n ==> self.entries@[j].0@ != path@,
            decreases i,
        {
            i = i - 1;
            let entry = &self.entries[i];
            if entry.0 == key {
                proof {
                    assert(self.entries@[i as int].0@ == path@);
                    lemma_files_of_found(self.entries@, i as int);
                }
                return Ok(slice_to_vec(entry.1.as_slice()));
            }
        }
        proof {
            lemma_files_of_absent(self.entries@, path@);
        }
        Err("no such file".to_owned())
    }
}

} // verus!

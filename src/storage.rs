//! The server's name index: files by name, in a public namespace or in
//! private ones selected by a key phrase. Within a namespace a name is held
//! at most once.
use vstd::prelude::*;
use crate::errors::StorageError;
use crate::models::FileInfo;
use crate::naming::{candidate_name, candidate_name_spec, lemma_candidates_distinct};
use vstd::set_lib::{lemma_int_range, lemma_len_subset, lemma_map_size, set_int_range};

verus! {

/// Files with pairwise distinct names.
pub open spec fn names_distinct(files: Seq<FileInfo>) -> bool {
    forall|i: int, j: int|
        0 <= i < files.len() && 0 <= j < files.len() && i != j ==> files[i].name@
            != files[j].name@
}

/// Whether `files` holds a file named `name`.
pub open spec fn holds_name(files: Seq<FileInfo>, name: Seq<char>) -> bool {
    exists|i: int| 0 <= i < files.len() && files[i].name@ == name
}

/// `files` after adding `file`: unchanged when a file of that name is there.
pub open spec fn with_file(files: Seq<FileInfo>, file: FileInfo) -> Seq<FileInfo> {
    if holds_name(files, file.name@) {
        files
    } else {
        files.push(file)
    }
}

/// The namespace a key phrase selects: `None` for the public one.
pub open spec fn key_of(keyphrase: Option<String>) -> Option<Seq<char>> {
    match keyphrase {
        Some(k) => Some(k@),
        None => None,
    }
}

/// If the names tried at attempts `0..m` are all held by `files`, whose
/// names are distinct, then `files` holds at least `m` files.
proof fn lemma_taken_bound(files: Seq<FileInfo>, name: Seq<char>, m: nat)
    requires
        forall|j: nat| j < m ==> holds_name(files, #[trigger] candidate_name_spec(name, j)),
    ensures
        m <= files.len(),
{
    let names = files.map_values(|f: FileInfo| f.name@);
    let held = names.to_set();
    let f = |j: int| candidate_name_spec(name, j as nat);
    let tried = set_int_range(0, m as int).map(f);
    lemma_int_range(0, m as int);
    assert(vstd::relations::injective_on(f, set_int_range(0, m as int))) by {
        assert forall|a: int, b: int|
            set_int_range(0, m as int).contains(a) && set_int_range(0, m as int).contains(b) && #[trigger] f(a)
                == #[trigger] f(b) implies a == b by {
            lemma_candidates_distinct(name, a as nat, b as nat);
        }
    }
    lemma_map_size(set_int_range(0, m as int), tried, f);
    assert(tried.subset_of(held)) by {
        assert forall|c: Seq<char>| tried.contains(c) implies held.contains(c) by {
            let j = choose|j: int| set_int_range(0, m as int).contains(j) && f(j) == c;
            assert(holds_name(files, candidate_name_spec(name, j as nat)));
            let i = choose|i: int| 0 <= i < files.len() && files[i].name@ == c;
            assert(names[i] == c);
        }
    }
    vstd::seq_lib::seq_to_set_is_finite(names);
    lemma_len_subset(tried, held);
    names.lemma_cardinality_of_set();
}

/// The private namespace of one key phrase.
pub struct PrivateShard {
    key: String,
    files: Vec<FileInfo>,
}

/// The name index.
pub struct FileStorage {
    public: Vec<FileInfo>,
    private: Vec<PrivateShard>,
}

impl FileStorage {
    /// The files of a namespace (`None` for the public one), or `None` when
    /// no private namespace of that key exists.
    pub closed spec fn files_in(&self, key: Option<Seq<char>>) -> Option<Seq<FileInfo>> {
        match key {
            None => Some(self.public@),
            Some(k) => if self.has_shard(k) {
                Some(self.private@[self.shard_index(k)].files@)
            } else {
                None
            },
        }
    }

    closed spec fn has_shard(&self, k: Seq<char>) -> bool {
        exists|i: int| 0 <= i < self.private@.len() && self.private@[i].key@ == k
    }

    closed spec fn shard_index(&self, k: Seq<char>) -> int {
        choose|i: int| 0 <= i < self.private@.len() && self.private@[i].key@ == k
    }

    /// Names are distinct within each namespace, and key phrases among the
    /// private ones.
    pub closed spec fn wf(&self) -> bool {
        &&& names_distinct(self.public@)
        &&& forall|i: int| 0 <= i < self.private@.len() ==> names_distinct(#[trigger] self.private@[i].files@)
        &&& forall|i: int, j: int|
            0 <= i < self.private@.len() && 0 <= j < self.private@.len() && i != j
                ==> self.private@[i].key@ != self.private@[j].key@
    }

    /// The files of a namespace, empty when it does not exist.
    pub open spec fn files_or_empty(&self, key: Option<Seq<char>>) -> Seq<FileInfo> {
        match self.files_in(key) {
            Some(f) => f,
            None => Seq::empty(),
        }
    }

    proof fn lemma_shard_index(&self, k: Seq<char>, i: int)
        requires
            self.wf(),
            0 <= i < self.private@.len(),
            self.private@[i].key@ == k,
        ensures
            self.has_shard(k),
            self.shard_index(k) == i,
    {
    }

    /// An empty index: an empty public namespace and no private one.
    pub fn new() -> (r: Self)
        ensures
            r.wf(),
            r.files_in(None) == Some(Seq::<FileInfo>::empty()),
            forall|k: Seq<char>| r.files_in(Some(k)) is None,
    {
        FileStorage { public: Vec::new(), private: Vec::new() }
    }

    fn find_in(files: &Vec<FileInfo>, name: &String) -> (r: Option<usize>)
        ensures
            r is None <==> !holds_name(files@, name@),
            r matches Some(i) ==> i < files@.len() && files@[i as int].name@ == name@,
    {
        let mut i: usize = 0;
        while i < files.len()
            invariant
                0 <= i <= files@.len(),
                forall|k: int| 0 <= k < i ==> files@[k].name@ != name@,
            decreases files.len() - i,
        {
            if files[i].name == *name {
                return Some(i);
            }
            i = i + 1;
        }
        None
    }

    fn find_shard(&self, key: &String) -> (r: Option<usize>)
        requires
            self.wf(),
        ensures
            r is None <==> !self.has_shard(key@),
            r matches Some(i) ==> i < self.private@.len() && self.shard_index(key@) == i
                && self.private@[i as int].key@ == key@,
    {
        let mut i: usize = 0;
        while i < self.private.len()
            invariant
                self.wf(),
                0 <= i <= self.private@.len(),
                forall|k: int| 0 <= k < i ==> self.private@[k].key@ != key@,
            decreases self.private.len() - i,
        {
            if self.private[i].key == *key {
                proof {
                    self.lemma_shard_index(key@, i as int);
                }
                return Some(i);
            }
            i = i + 1;
        }
        None
    }

    /// Whether the namespace holds a file of the same name as `file_info`.
    pub fn is_file_exists(&self, file_info: &FileInfo, keyphrase: &Option<String>) -> (r: bool)
        requires
            self.wf(),
        ensures
            r == holds_name(self.files_or_empty(key_of(*keyphrase)), file_info.name@),
    {
        match keyphrase {
            Some(key) => match self.find_shard(key) {
                Some(s) => Self::find_in(&self.private[s].files, &file_info.name).is_some(),
                None => false,
            },
            None => Self::find_in(&self.public, &file_info.name).is_some(),
        }
    }

    /// The file named `file_name` in the namespace, if any.
    pub fn get_file(&self, file_name: String, keyphrase: &Option<String>) -> (r: Option<&FileInfo>)
        requires
            self.wf(),
        ensures
            r is None <==> !holds_name(self.files_or_empty(key_of(*keyphrase)), file_name@),
            r matches Some(f) ==> f.name@ == file_name@ && self.files_or_empty(
                key_of(*keyphrase),
            ).contains(*f),
    {
        let files = match keyphrase {
            Some(key) => match self.find_shard(key) {
                Some(s) => &self.private[s].files,
                None => {
                    return None;
                },
            },
            None => &self.public,
        };
        match Self::find_in(files, &file_name) {
            Some(i) => {
                assert(files@.contains(files@[i as int]));
                Some(&files[i])
            },
            None => None,
        }
    }

    /// Adds a file to a namespace, creating a private one on first use; a file
    /// whose name is already there is not added again. Other namespaces are
    /// unchanged.
    pub fn add_file(&mut self, file_info: FileInfo, keyphrase: Option<String>)
        requires
            old(self).wf(),
        ensures
            final(self).wf(),
            final(self).files_in(key_of(keyphrase)) == Some(
                with_file(old(self).files_or_empty(key_of(keyphrase)), file_info),
            ),
            forall|k: Option<Seq<char>>|
                k != key_of(keyphrase) ==> #[trigger] final(self).files_in(k)
                    == old(self).files_in(k),
    {
        let ghost key = key_of(keyphrase);
        match keyphrase {
            None => {
                if Self::find_in(&self.public, &file_info.name).is_none() {
                    self.public.push(file_info);
                }
                assert forall|k: Option<Seq<char>>| k != key implies #[trigger] self.files_in(k)
                    == old(self).files_in(k) by {
                    if let Some(kk) = k {
                        assert(self.has_shard(kk) == old(self).has_shard(kk));
                    }
                }
            },
            Some(k) => {
                let ghost kk = k@;
                let s = match self.find_shard(&k) {
                    Some(s) => s,
                    None => {
                        self.private.push(PrivateShard { key: k, files: Vec::new() });
                        let s = self.private.len() - 1;
                        assert(self.private@[s as int].key@ == kk);
                        s
                    },
                };
                let ghost mid = self.private@;
                assert(names_distinct(self.private@[s as int].files@));
                if Self::find_in(&self.private[s].files, &file_info.name).is_none() {
                    self.private[s].files.push(file_info);
                }
                assert(forall|i: int| 0 <= i < self.private@.len() && i != s ==> self.private@[i] == mid[i]);
                assert(self.private@[s as int].key@ == kk);
                assert(self.wf());
                proof {
                    self.lemma_shard_index(kk, s as int);
                }
                assert forall|k2: Option<Seq<char>>| k2 != key implies #[trigger] self.files_in(k2)
                    == old(self).files_in(k2) by {
                    if let Some(k3) = k2 {
                        if old(self).has_shard(k3) {
                            let i = old(self).shard_index(k3);
                            old(self).lemma_shard_index(k3, i);
                            assert(self.private@[i].key@ == k3);
                            self.lemma_shard_index(k3, i);
                        } else {
                            assert(!self.has_shard(k3)) by {
                                if self.has_shard(k3) {
                                    let j = self.shard_index(k3);
                                    assert(j < old(self).private@.len() ==> old(self).private@[j].key@ == k3);
                                }
                            }
                        }
                    }
                }
            },
        }
    }

    /// The metadata of `file_info` under the first name that the namespace
    /// does not hold among the file's name, then the name followed by `(1)`,
    /// `(2)`, and so on.
    pub fn unique_file_info(&self, file_info: &FileInfo, keyphrase: &Option<String>) -> (r: FileInfo)
        requires
            self.wf(),
        ensures
            exists|k: nat|
                r.name@ == candidate_name_spec(file_info.name@, k) && forall|j: nat|
                    j < k ==> holds_name(
                        self.files_or_empty(key_of(*keyphrase)),
                        #[trigger] candidate_name_spec(file_info.name@, j),
                    ),
            !holds_name(self.files_or_empty(key_of(*keyphrase)), r.name@),
            r.size == file_info.size,
            r.upload_date == file_info.upload_date,
            r.storage_path == file_info.storage_path,
    {
        let files = match keyphrase {
            Some(key) => match self.find_shard(key) {
                Some(s) => &self.private[s].files,
                None => {
                    let r = file_info.copied();
                    assert(candidate_name_spec(file_info.name@, 0) == r.name@);
                    return r;
                },
            },
            None => &self.public,
        };
        assert(files@ == self.files_or_empty(key_of(*keyphrase)));
        let ghost name = file_info.name@;
        let held = files.len();
        let mut attempt: usize = 0;
        loop
            invariant
                held == files@.len(),
                files@ == self.files_or_empty(key_of(*keyphrase)),
                name == file_info.name@,
                attempt <= files@.len(),
                forall|j: nat| j < attempt ==> holds_name(files@, #[trigger] candidate_name_spec(name, j)),
            decreases files@.len() - attempt,
        {
            let candidate = candidate_name(&file_info.name, attempt as u64);
            if Self::find_in(files, &candidate).is_none() {
                return file_info.renamed(candidate);
            }
            proof {
                assert forall|j: nat| j < attempt + 1 implies holds_name(
                    files@,
                    #[trigger] candidate_name_spec(name, j),
                ) by {}
                lemma_taken_bound(files@, name, (attempt + 1) as nat);
            }
            attempt = attempt + 1;
        }
    }

    /// Stores an uploaded file under the name `unique_file_info` picks, and
    /// returns the metadata stored.
    pub fn store_unique(&mut self, file_info: &FileInfo, keyphrase: Option<String>) -> (r: FileInfo)
        requires
            old(self).wf(),
        ensures
            final(self).wf(),
            exists|k: nat|
                r.name@ == candidate_name_spec(file_info.name@, k) && forall|j: nat|
                    j < k ==> holds_name(
                        old(self).files_or_empty(key_of(keyphrase)),
                        #[trigger] candidate_name_spec(file_info.name@, j),
                    ),
            !holds_name(old(self).files_or_empty(key_of(keyphrase)), r.name@),
            r.size == file_info.size,
            r.upload_date == file_info.upload_date,
            r.storage_path == file_info.storage_path,
            final(self).files_in(key_of(keyphrase)) == Some(
                old(self).files_or_empty(key_of(keyphrase)).push(r),
            ),
            forall|k: Option<Seq<char>>|
                k != key_of(keyphrase) ==> #[trigger] final(self).files_in(k) == old(
                    self,
                ).files_in(k),
    {
        let stored = self.unique_file_info(file_info, &keyphrase);
        let r = stored.copied();
        self.add_file(stored, keyphrase);
        r
    }

    /// The files of a namespace; a private namespace that does not exist is
    /// an error.
    pub fn list(&self, keyphrase: &Option<String>) -> (r: Result<&Vec<FileInfo>, StorageError>)
        requires
            self.wf(),
        ensures
            self.files_in(key_of(*keyphrase)) is None <==> r is Err,
            r matches Ok(v) ==> self.files_in(key_of(*keyphrase)) == Some(v@),
    {
        match keyphrase {
            Some(key) => match self.find_shard(key) {
                Some(s) => Ok(&self.private[s].files),
                None => Err(StorageError::DoesntExist),
            },
            None => Ok(&self.public),
        }
    }
}

} // verus!

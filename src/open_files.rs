use vstd::prelude::*;

verus! {

/// A file opened on the remote peer: its remote handle and the path it was
/// opened with.
#[derive(Debug, Clone, PartialEq, Eq)]
pub struct RemoteFile {
    pub fd: u64,
    pub path: Vec<u8>,
}

impl RemoteFile {
    pub fn new(fd: u64, path: Vec<u8>) -> (r: Self)
        ensures
            r.fd == fd,
            r.path@ == path@,
    {
        RemoteFile { fd, path }
    }

    pub open spec fn view(&self) -> (u64, Seq<u8>) {
        (self.fd, self.path@)
    }
}

/// One local descriptor bound to a remote file.
#[derive(Debug)]
pub struct FileEntry {
    pub local: i32,
    pub file: RemoteFile,
}

/// The table from local descriptors to the remote files they stand for.
///
/// Several local descriptors may be aliases of one remote file (after `dup`);
/// two entries are aliases when they carry the same remote handle. The remote
/// file is to be closed once, when its last alias leaves the table: the
/// operations that drop an entry say which remote handle, if any, is owed a
/// close.
pub struct OpenFiles {
    entries: Vec<FileEntry>,
}

/// `local` is in `m`, and no other local descriptor of `m` shares its remote handle.
pub open spec fn is_last_alias(m: Map<i32, (u64, Seq<u8>)>, local: i32) -> bool {
    m.contains_key(local) && forall|k: i32|
        #[trigger] m.contains_key(k) && k != local ==> m[k].0 != m[local].0
}

/// The remote handle that must be closed when `local` leaves `m`, if any.
pub open spec fn close_owed(m: Map<i32, (u64, Seq<u8>)>, local: i32) -> Option<u64> {
    if is_last_alias(m, local) {
        Some(m[local].0)
    } else {
        None
    }
}

impl OpenFiles {
    pub closed spec fn wf(&self) -> bool {
        uniq(self.entries@)
    }

    pub closed spec fn view(&self) -> Map<i32, (u64, Seq<u8>)> {
        entries_view(self.entries@)
    }

    proof fn lemma_view_at(&self, i: int)
        requires
            self.wf(),
            0 <= i < self.entries@.len(),
        ensures
            self@.contains_key(self.entries@[i].local),
            self@[self.entries@[i].local] == self.entries@[i].file@,
    {
        lemma_view_at(self.entries@, i);
    }

    pub fn new() -> (r: Self)
        ensures
            r.wf(),
            r@ == Map::<i32, (u64, Seq<u8>)>::empty(),
    {
        let r = OpenFiles { entries: Vec::new() };
        assert(r@ =~= Map::<i32, (u64, Seq<u8>)>::empty());
        r
    }

    fn find(&self, local: i32) -> (r: Option<usize>)
        requires
            self.wf(),
        ensures
            match r {
                Some(i) => seq_has_at(self.entries@, local, i as int),
                None => !self@.contains_key(local),
            },
    {
        let mut i: usize = 0;
        while i < self.entries.len()
            invariant
                0 <= i <= self.entries@.len(),
                forall|j: int| 0 <= j < i ==> self.entries@[j].local != local,
            decreases self.entries@.len() - i,
        {
            if self.entries[i].local == local {
                return Some(i);
            }
            i = i + 1;
        }
        None
    }

    /// The remote handle bound to `local`; `None` for a descriptor that is not ours.
    pub fn get_remote_fd(&self, local: i32) -> (r: Option<u64>)
        requires
            self.wf(),
        ensures
            r == (if self@.contains_key(local) {
                Some(self@[local].0)
            } else {
                None::<u64>
            }),
    {
        match self.find(local) {
            Some(i) => {
                proof {
                    self.lemma_view_at(i as int);
                }
                Some(self.entries[i].file.fd)
            },
            None => None,
        }
    }

    /// Whether `local` is a descriptor of this table.
    pub fn contains(&self, local: i32) -> (r: bool)
        requires
            self.wf(),
        ensures
            r == self@.contains_key(local),
    {
        match self.find(local) {
            Some(i) => {
                proof {
                    self.lemma_view_at(i as int);
                }
                true
            },
            None => false,
        }
    }

    fn shares_remote(&self, skip: usize, fd: u64) -> (r: bool)
        requires
            self.wf(),
            skip < self.entries@.len(),
        ensures
            r == exists|k: i32|
                #[trigger] self@.contains_key(k) && k != self.entries@[skip as int].local
                    && self@[k].0 == fd,
    {
        let ghost skipped = self.entries@[skip as int].local;
        let mut i: usize = 0;
        while i < self.entries.len()
            invariant
                0 <= i <= self.entries@.len(),
                skip < self.entries@.len(),
                skipped == self.entries@[skip as int].local,
                self.wf(),
                forall|j: int|
                    0 <= j < i && j != skip ==> self.entries@[j].file.fd != fd,
            decreases self.entries@.len() - i,
        {
            if i != skip && self.entries[i].file.fd == fd {
                proof {
                    self.lemma_view_at(i as int);
                    let k = self.entries@[i as int].local;
                    assert(self@.contains_key(k) && k != skipped && self@[k].0 == fd);
                }
                return true;
            }
            i = i + 1;
        }
        proof {
            assert forall|k: i32|
                #[trigger] self@.contains_key(k) && k != skipped implies self@[k].0 != fd by {
                let j = index_of(self.entries@, k);
                assert(j != skip);
            }
        }
        false
    }

    /// Takes `local` out of the table. Returns the remote handle to close: the
    /// one `local` was bound to, when `local` was its last alias.
    pub fn remove(&mut self, local: i32) -> (r: Option<u64>)
        requires
            old(self).wf(),
        ensures
            final(self).wf(),
            final(self)@ == old(self)@.remove(local),
            r == close_owed(old(self)@, local),
    {
        match self.find(local) {
            None => {
                assert(self@ =~= old(self)@.remove(local));
                None
            },
            Some(i) => {
                proof {
                    self.lemma_view_at(i as int);
                }
                let fd = self.entries[i].file.fd;
                let shared = self.shares_remote(i, fd);
                let ghost old_entries = self.entries@;
                self.entries.remove(i);
                proof {
                    lemma_remove(old_entries, i as int);
                }
                if shared {
                    None
                } else {
                    Some(fd)
                }
            },
        }
    }

    /// Binds `local` to `file`. Returns the remote handle to close when `local`
    /// was already bound, as the last alias of its remote file.
    pub fn insert(&mut self, local: i32, file: RemoteFile) -> (r: Option<u64>)
        requires
            old(self).wf(),
        ensures
            final(self).wf(),
            final(self)@ == old(self)@.insert(local, file@),
            r == close_owed(old(self)@, local),
    {
        let r = self.remove(local);
        let ghost mid = self@;
        let ghost fv = file@;
        let ghost before = self.entries@;
        self.entries.push(FileEntry { local, file });
        proof {
            lemma_push(before, self.entries@.last());
            assert(before.push(self.entries@.last()) == self.entries@);
            assert(old(self)@.remove(local).insert(local, fv) =~= old(self)@.insert(local, fv));
        }
        r
    }

    /// Makes `new_fd` an alias of whatever `old_fd` is bound to, as `dup`
    /// does to descriptors; `new_fd` loses any binding it had when `old_fd`
    /// is not ours. Returns the remote handle to close for the binding that
    /// `new_fd` lost, if that was a last alias.
    pub fn dup(&mut self, old_fd: i32, new_fd: i32) -> (r: Option<u64>)
        requires
            old(self).wf(),
        ensures
            final(self).wf(),
            old_fd == new_fd ==> final(self)@ == old(self)@ && r is None,
            old_fd != new_fd && old(self)@.contains_key(old_fd) ==> final(self)@ == old(
                self,
            )@.insert(new_fd, old(self)@[old_fd]),
            old_fd != new_fd && !old(self)@.contains_key(old_fd) ==> final(self)@ == old(
                self,
            )@.remove(new_fd),
            old_fd != new_fd ==> r == close_owed(old(self)@, new_fd),
    {
        if old_fd == new_fd {
            return None;
        }
        match self.find(old_fd) {
            Some(i) => {
                proof {
                    self.lemma_view_at(i as int);
                }
                let file = self.entries[i].file.clone_file();
                self.insert(new_fd, file)
            },
            None => self.remove(new_fd),
        }
    }
}

impl RemoteFile {
    /// A copy of the record, for a second alias.
    pub fn clone_file(&self) -> (r: RemoteFile)
        ensures
            r@ == self@,
    {
        RemoteFile { fd: self.fd, path: self.path.clone() }
    }
}

pub open spec fn seq_has_at(s: Seq<FileEntry>, local: i32, i: int) -> bool {
    0 <= i < s.len() && s[i].local == local
}

/// The binding held by a list of entries with distinct local descriptors.
pub open spec fn entries_view(s: Seq<FileEntry>) -> Map<i32, (u64, Seq<u8>)> {
    Map::new(
        |l: i32| exists|i: int| seq_has_at(s, l, i),
        |l: i32| s[choose|i: int| seq_has_at(s, l, i)].file@,
    )
}

/// Local descriptors are distinct.
pub open spec fn uniq(s: Seq<FileEntry>) -> bool {
    forall|i: int, j: int| 0 <= i < s.len() && 0 <= j < s.len() && i != j ==> s[i].local != s[j].local
}

proof fn lemma_view_at(s: Seq<FileEntry>, i: int)
    requires
        uniq(s),
        0 <= i < s.len(),
    ensures
        entries_view(s).contains_key(s[i].local),
        entries_view(s)[s[i].local] == s[i].file@,
{
    let l = s[i].local;
    assert(seq_has_at(s, l, i));
    assert(entries_view(s).dom().contains(l));
    let j = choose|j: int| seq_has_at(s, l, j);
    assert(j == i);
}

proof fn index_of(s: Seq<FileEntry>, k: i32) -> (i: int)
    requires
        uniq(s),
        entries_view(s).contains_key(k),
    ensures
        seq_has_at(s, k, i),
        entries_view(s)[k] == s[i].file@,
{
    assert(exists|i: int| seq_has_at(s, k, i));
    let i = choose|i: int| seq_has_at(s, k, i);
    lemma_view_at(s, i);
    i
}

proof fn lemma_remove(s: Seq<FileEntry>, i: int)
    requires
        uniq(s),
        0 <= i < s.len(),
    ensures
        uniq(s.remove(i)),
        entries_view(s.remove(i)) == entries_view(s).remove(s[i].local),
{
    let t = s.remove(i);
    let l = s[i].local;
    assert forall|a: int, b: int| 0 <= a < t.len() && 0 <= b < t.len() && a != b implies t[a].local
        != t[b].local by {
        let oa = if a < i { a } else { a + 1 };
        let ob = if b < i { b } else { b + 1 };
        assert(t[a] == s[oa]);
        assert(t[b] == s[ob]);
    }
    let m = entries_view(s).remove(l);
    assert forall|k: i32| #[trigger] entries_view(t).contains_key(k) == m.contains_key(k) by {
        if entries_view(t).contains_key(k) {
            let a = index_of(t, k);
            let oa = if a < i { a } else { a + 1 };
            assert(t[a] == s[oa]);
            lemma_view_at(s, oa);
        }
        if m.contains_key(k) {
            let oa = index_of(s, k);
            assert(oa != i);
            let a = if oa < i { oa } else { oa - 1 };
            assert(t[a] == s[oa]);
            lemma_view_at(t, a);
        }
    }
    assert forall|k: i32| #[trigger] entries_view(t).contains_key(k) implies entries_view(t)[k]
        == m[k] by {
        let a = index_of(t, k);
        let oa = if a < i { a } else { a + 1 };
        assert(t[a] == s[oa]);
        lemma_view_at(s, oa);
    }
    assert(entries_view(t) =~= m);
}

proof fn lemma_push(s: Seq<FileEntry>, e: FileEntry)
    requires
        uniq(s),
        !entries_view(s).contains_key(e.local),
    ensures
        uniq(s.push(e)),
        entries_view(s.push(e)) == entries_view(s).insert(e.local, e.file@),
{
    let t = s.push(e);
    let n = s.len() as int;
    assert forall|a: int, b: int| 0 <= a < t.len() && 0 <= b < t.len() && a != b implies t[a].local
        != t[b].local by {
        if a < n && b < n {
            assert(t[a] == s[a] && t[b] == s[b]);
        } else if a < n {
            assert(t[a] == s[a]);
            lemma_view_at(s, a);
        } else {
            assert(t[b] == s[b]);
            lemma_view_at(s, b);
        }
    }
    let m = entries_view(s).insert(e.local, e.file@);
    lemma_view_at(t, n);
    assert forall|k: i32| #[trigger] entries_view(t).contains_key(k) == m.contains_key(k) by {
        if entries_view(t).contains_key(k) && k != e.local {
            let a = index_of(t, k);
            assert(a != n);
            assert(t[a] == s[a]);
            lemma_view_at(s, a);
        }
        if m.contains_key(k) && k != e.local {
            let a = index_of(s, k);
            assert(t[a] == s[a]);
            lemma_view_at(t, a);
        }
    }
    assert forall|k: i32| #[trigger] entries_view(t).contains_key(k) implies entries_view(t)[k]
        == m[k] by {
        if k != e.local {
            let a = index_of(t, k);
            assert(a != n);
            assert(t[a] == s[a]);
            lemma_view_at(s, a);
        }
    }
    assert(entries_view(t) =~= m);
}

/// A descriptor bound to a remote file keeps resolving to that remote
/// handle while other descriptors are bound, rebound, duplicated or closed;
/// only closing or rebinding the descriptor itself ends that.
pub proof fn lemma_binding_kept(
    m: Map<i32, (u64, Seq<u8>)>,
    local: i32,
    other: i32,
    v: (u64, Seq<u8>),
)
    requires
        m.contains_key(local),
        other != local,
    ensures
        m.insert(other, v).contains_key(local) && m.insert(other, v)[local] == m[local],
        m.remove(other).contains_key(local) && m.remove(other)[local] == m[local],
{
}

/// After `dup` makes `dup_fd` an alias of `fd`, both resolve to the same
/// remote handle; closing either one owes no remote close and leaves the
/// other bound; closing the last alias then owes exactly one close, of that
/// handle, when `fd` had no other alias before. A `dup` onto a descriptor
/// with no binding of its own owes no close at all.
pub proof fn lemma_dup_then_close(m: Map<i32, (u64, Seq<u8>)>, fd: i32, dup_fd: i32)
    requires
        m.contains_key(fd),
        fd != dup_fd,
    ensures
        ({
            let d = m.insert(dup_fd, m[fd]);
            &&& d[fd].0 == m[fd].0 && d[dup_fd].0 == m[fd].0
            &&& close_owed(d, fd) is None && close_owed(d, dup_fd) is None
            &&& d.remove(fd).contains_key(dup_fd) && d.remove(fd)[dup_fd] == m[fd]
            &&& d.remove(dup_fd).contains_key(fd) && d.remove(dup_fd)[fd] == m[fd]
            &&& !m.contains_key(dup_fd) ==> close_owed(m, dup_fd) is None
            &&& is_last_alias(m.remove(dup_fd), fd) ==> close_owed(d.remove(fd), dup_fd) == Some(
                m[fd].0,
            ) && close_owed(d.remove(dup_fd), fd) == Some(m[fd].0)
        }),
{
    let d = m.insert(dup_fd, m[fd]);
    assert(d.contains_key(dup_fd) && dup_fd != fd && d[dup_fd].0 == d[fd].0);
    assert(d.contains_key(fd) && fd != dup_fd && d[fd].0 == d[dup_fd].0);
    if is_last_alias(m.remove(dup_fd), fd) {
        let a = d.remove(fd);
        assert forall|k: i32| #[trigger] a.contains_key(k) && k != dup_fd implies a[k].0 != a[dup_fd].0 by {
            assert(m.remove(dup_fd).contains_key(k));
        }
        let b = d.remove(dup_fd);
        assert forall|k: i32| #[trigger] b.contains_key(k) && k != fd implies b[k].0 != b[fd].0 by {
            assert(m.remove(dup_fd).contains_key(k));
        }
    }
}

} // verus!

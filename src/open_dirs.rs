use vstd::prelude::*;
use vstd::hash_map::HashMapWithView;

use crate::detour::{Detour, HookError};

verus! {

broadcast use vstd::std_specs::hash::group_hash_axioms;

/// A directory stream opened on the remote peer, and the local descriptor
/// of the file it was opened from.
#[derive(Debug, Clone, Copy, PartialEq, Eq)]
pub struct DirStream {
    pub remote_dir_fd: u64,
    pub owner_fd: i32,
}

/// The table from local directory handles to remote directory streams.
/// Its entries live on their own: closing the owning file leaves them.
pub struct OpenDirs {
    map: HashMapWithView<usize, DirStream>,
}

impl OpenDirs {
    pub closed spec fn view(&self) -> Map<usize, DirStream> {
        self.map@
    }

    pub fn new() -> (r: Self)
        ensures
            r@ == Map::<usize, DirStream>::empty(),
    {
        OpenDirs { map: HashMapWithView::new() }
    }

    pub fn insert(&mut self, local_dir: usize, remote_dir_fd: u64, owner_fd: i32)
        ensures
            final(self)@ == old(self)@.insert(local_dir, DirStream { remote_dir_fd, owner_fd }),
    {
        self.map.insert(local_dir, DirStream { remote_dir_fd, owner_fd });
    }

    pub fn get(&self, local_dir: usize) -> (r: Option<DirStream>)
        ensures
            r == (if self@.contains_key(local_dir) {
                Some(self@[local_dir])
            } else {
                None::<DirStream>
            }),
    {
        match self.map.get(&local_dir) {
            Some(d) => Some(*d),
            None => None,
        }
    }

    pub fn remove(&mut self, local_dir: usize) -> (r: Option<DirStream>)
        ensures
            final(self)@ == old(self)@.remove(local_dir),
            r == (if old(self)@.contains_key(local_dir) {
                Some(old(self)@[local_dir])
            } else {
                None::<DirStream>
            }),
    {
        let r = self.map.remove(&local_dir);
        proof {
            if r is None {
                assert(self@ =~= old(self)@.remove(local_dir));
            }
        }
        r
    }
}

/// Finishes `fdopendir` once the remote peer opened directory stream
/// `remote_dir_fd` for local file `owner_fd` and a placeholder descriptor
/// was asked for. With one, the stream is registered under it and it is
/// returned. Without one (or with an invalid one), the remote stream is
/// closed again and the call fails; the table is left as it was. The second
/// result lists the remote handles owed a close.
pub fn complete_fdopendir(
    dirs: &mut OpenDirs,
    remote_dir_fd: u64,
    owner_fd: i32,
    placeholder: Option<i32>,
) -> (r: (Detour<usize>, Vec<u64>))
    ensures
        (placeholder is Some && placeholder->0 >= 0) ==> r.0 == Detour::Success(
            placeholder->0 as usize,
        ) && final(dirs)@ == old(dirs)@.insert(
            placeholder->0 as usize,
            DirStream { remote_dir_fd, owner_fd },
        ) && r.1@.len() == 0,
        !(placeholder is Some && placeholder->0 >= 0) ==> r.0 == Detour::<usize>::Error(
            HookError::LocalFileCreation(remote_dir_fd),
        ) && r.1@ == seq![remote_dir_fd] && final(dirs)@ == old(dirs)@,
{
    let mut closes: Vec<u64> = Vec::new();
    if let Some(l) = placeholder {
        if l >= 0 {
            dirs.insert(l as usize, remote_dir_fd, owner_fd);
            return (Detour::Success(l as usize), closes);
        }
    }
    closes.push(remote_dir_fd);
    assert(closes@ =~= seq![remote_dir_fd]);
    (Detour::Error(HookError::LocalFileCreation(remote_dir_fd)), closes)
}

} // verus!

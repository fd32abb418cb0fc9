//! Model of the engine's global registry of virtual filesystems.
//!
//! The real registry lives inside the engine and is reached only through its
//! registration call; the adapter hands it a descriptor and keeps no handle on
//! it.  This module states the registry's documented behaviour — a descriptor
//! is accepted exactly when its name is still free, an accepted filesystem is
//! discoverable by name, and one filesystem may be marked the process default
//! — so the registration protocol can be verified against it.

use vstd::prelude::*;

use crate::ext_after_open;
use crate::FileExt;
use crate::FileState;
use crate::NativeError;
use crate::VFSState;
use crate::SQLITE_CANTOPEN;
use crate::SQLITE_ERROR;
use crate::SQLITE_OK;
use crate::VFS;
use vstd::string::StrSliceExecFns;

verus! {

/// The engine-visible record describing one registered filesystem.
pub struct Descriptor {
    /// ABI variant selector of the callback table.
    pub version: i32,
    /// Bytes the engine must allocate for each open file handle.
    pub handle_size: usize,
    /// The longest path the filesystem accepts.
    pub max_pathname: i32,
    /// The registered name; the engine keeps a pointer to it for the rest of
    /// the process, so the adapter owns it permanently.
    pub name: Vec<char>,
    /// Whether the open slot of the callback table is provided.  A missing
    /// slot is reported to the engine as "operation unsupported".
    pub has_open: bool,
    /// Whether the close slot of the handle method table is provided.
    pub has_close: bool,
}

struct Entry<T: VFS> {
    desc: Descriptor,
    state: VFSState<T>,
}

/// The registry: the engine's list of registered filesystems, at most one of
/// which is the process-wide default.
pub struct Registry<T: VFS> {
    entries: Vec<Entry<T>>,
    default_idx: Option<usize>,
}

impl<T: VFS> Registry<T> {
    /// The registered names, in registration order.
    pub closed spec fn name_seq(self) -> Seq<Seq<char>> {
        self.entries@.map(|i: int, e: Entry<T>| e.desc.name@)
    }

    /// The number of registered filesystems.
    pub open spec fn len_spec(self) -> nat {
        self.name_seq().len()
    }

    /// The descriptor of the filesystem registered at position `i`.
    pub closed spec fn desc_at(self, i: int) -> Descriptor {
        self.entries@[i].desc
    }

    /// The shared state of the filesystem registered at position `i`.
    pub closed spec fn state_at(self, i: int) -> VFSState<T> {
        self.entries@[i].state
    }

    /// The position of the process-default filesystem, if one was marked.
    pub closed spec fn default_spec(self) -> Option<int> {
        match self.default_idx {
            Some(d) => Some(d as int),
            None => None,
        }
    }

    /// Whether some filesystem is registered under `n`.
    pub open spec fn contains_name(self, n: Seq<char>) -> bool {
        exists|i: int| 0 <= i < self.len_spec() && self.name_seq()[i] == n
    }

    /// The registry's invariant: registered names are pairwise distinct and
    /// the default marker, if set, points at a registered filesystem.
    pub closed spec fn wf(self) -> bool {
        &&& forall|i: int, j: int|
            0 <= i < j < self.entries@.len() ==> self.entries@[i].desc.name@
                != self.entries@[j].desc.name@
        &&& match self.default_idx {
            Some(d) => (d as int) < self.entries@.len(),
            None => true,
        }
    }

    /// An empty registry, before anything is registered.
    pub fn new() -> (r: Registry<T>)
        ensures
            r.wf(),
            r.name_seq() == Seq::<Seq<char>>::empty(),
            r.default_spec() is None,
    {
        let r = Registry { entries: Vec::new(), default_idx: None };
        proof {
            assert(r.name_seq() =~= Seq::<Seq<char>>::empty());
        }
        r
    }

    /// How many filesystems are registered.
    pub fn len(&self) -> (n: usize)
        ensures
            n == self.len_spec(),
    {
        self.entries.len()
    }

    /// Look a filesystem up by name, as the engine does when a connection
    /// names the filesystem it wants: the position is returned exactly when
    /// a filesystem is registered under `name`.
    pub fn find(&self, name: &str) -> (r: Option<usize>)
        ensures
            r is Some <==> self.contains_name(name@),
            r matches Some(i) ==> (i as int) < self.len_spec() && self.name_seq()[i as int]
                == name@,
    {
        let n = self.entries.len();
        let mut i: usize = 0;
        while i < n
            invariant
                i <= n,
                n == self.entries@.len(),
                forall|j: int| 0 <= j < i ==> self.name_seq()[j] != name@,
            decreases n - i,
        {
            proof {
                assert(self.name_seq()[i as int] == self.entries@[i as int].desc.name@);
            }
            if name_matches(&self.entries[i].desc.name, name) {
                return Some(i);
            }
            i += 1;
        }
        None
    }

    /// Whether some filesystem is registered under the name held in `name`.
    fn contains(&self, name: &Vec<char>) -> (r: bool)
        ensures
            r == self.contains_name(name@),
    {
        let n = self.entries.len();
        let mut i: usize = 0;
        while i < n
            invariant
                i <= n,
                n == self.entries@.len(),
                forall|j: int| 0 <= j < i ==> self.name_seq()[j] != name@,
            decreases n - i,
        {
            proof {
                assert(self.name_seq()[i as int] == self.entries@[i as int].desc.name@);
            }
            if char_vecs_eq(&self.entries[i].desc.name, name) {
                return true;
            }
            i += 1;
        }
        false
    }

    /// The engine's registration call.  A descriptor whose name is already
    /// taken is refused with the engine's generic error code and the registry
    /// is left as it was; otherwise the descriptor and its shared state are
    /// appended, the filesystem is marked the process default if asked, and
    /// the success code is returned.
    pub fn install(&mut self, desc: Descriptor, as_default: bool, state: VFSState<T>) -> (code:
        i32)
        requires
            old(self).wf(),
        ensures
            final(self).wf(),
            code == SQLITE_OK || code == SQLITE_ERROR,
            code == SQLITE_OK <==> !old(self).contains_name(desc.name@),
            old(self).contains_name(desc.name@) ==> *final(self) == *old(self),
            !old(self).contains_name(desc.name@) ==> final(self).name_seq()
                == old(self).name_seq().push(desc.name@)
                && final(self).desc_at(old(self).len_spec() as int) == desc
                && final(self).state_at(old(self).len_spec() as int) == state
                && (forall|j: int|
                0 <= j < old(self).len_spec() ==> final(self).desc_at(j) == old(self).desc_at(j)
                    && final(self).state_at(j) == old(self).state_at(j))
                && (as_default ==> final(self).default_spec() == Some(
                old(self).len_spec() as int,
            ))
                && (!as_default ==> final(self).default_spec() == old(self).default_spec()),
    {
        if self.contains(&desc.name) {
            return SQLITE_ERROR;
        }
        let ghost pre = *self;
        let ghost pushed_name = desc.name@;
        let idx = self.entries.len();
        self.entries.push(Entry { desc, state });
        if as_default {
            self.default_idx = Some(idx);
        }
        proof {
            assert(self.name_seq() =~= pre.name_seq().push(pushed_name));
            assert forall|i: int, j: int|
                0 <= i < j < self.entries@.len() implies self.entries@[i].desc.name@
                != self.entries@[j].desc.name@ by {
                if j == pre.entries@.len() {
                    assert(pre.name_seq()[i] == pre.entries@[i].desc.name@);
                    if self.entries@[i].desc.name@ == pushed_name {
                        assert(pre.contains_name(pushed_name));
                        assert(false);
                    }
                } else {
                    assert(pre.entries@[i].desc.name@ != pre.entries@[j].desc.name@);
                }
            }
        }
        SQLITE_OK
    }

    /// A read of the descriptor registered at position `i`.
    pub fn descriptor(&self, i: usize) -> (d: &Descriptor)
        requires
            (i as int) < self.len_spec(),
        ensures
            *d == self.desc_at(i as int),
    {
        &self.entries[i].desc
    }

    /// A read of the backend registered at position `i`.
    pub fn backend(&self, i: usize) -> (b: &T)
        requires
            (i as int) < self.len_spec(),
        ensures
            *b == self.state_at(i as int).backend_spec(),
    {
        self.entries[i].state.backend()
    }

    /// A read of the last-error slot of the filesystem at position `i`.
    pub fn last_error_of(&self, i: usize) -> (r: Option<(i32, NativeError)>)
        requires
            (i as int) < self.len_spec(),
        ensures
            r == self.state_at(i as int).last_error_spec(),
    {
        self.entries[i].state.last_error()
    }

    /// The position of the process-default filesystem, if one was marked.
    pub fn default_index(&self) -> (r: Option<usize>)
        ensures
            r matches Some(d) ==> self.default_spec() == Some(d as int),
            r is None ==> self.default_spec() is None,
    {
        self.default_idx
    }

    /// The open trampoline, reached through the filesystem registered at
    /// position `i`, as the engine reaches it through the descriptor's
    /// callback table.  The outcome is that of `crate::vfs::x_open` with a
    /// valid filesystem pointer: an unusable file-handle buffer records a
    /// cannot-open error in this filesystem's last-error slot; a usable one
    /// has its extension region initialized after the backend's `x_open`
    /// capability ran.
    pub fn open_file(&mut self, i: usize, file_arg: &mut Option<FileState>) -> (code: i32)
        requires
            old(self).wf(),
            (i as int) < old(self).len_spec(),
        ensures
            final(self).wf(),
            final(self).name_seq() == old(self).name_seq(),
            final(self).default_spec() == old(self).default_spec(),
            forall|j: int|
                0 <= j < old(self).len_spec() ==> final(self).desc_at(j) == old(self).desc_at(j),
            forall|j: int|
                0 <= j < old(self).len_spec() && j != i ==> final(self).state_at(j)
                    == old(self).state_at(j),
            (*old(file_arg)) is None ==> code == SQLITE_CANTOPEN
                && *final(file_arg) == *old(file_arg)
                && final(self).state_at(i as int) == old(self).state_at(i as int).with_last_error(
                SQLITE_CANTOPEN,
                NativeError::InvalidFilePointer,
            ),
            (*old(file_arg)) is Some ==> code == SQLITE_OK
                && final(self).state_at(i as int) == old(self).state_at(i as int)
                && (*final(file_arg)) is Some
                && (*final(file_arg))->Some_0.ext_spec() == ext_after_open(
                (*old(file_arg))->Some_0.ext_spec(),
            ),
    {
        let ghost pre = *self;
        let code = match file_arg {
            None => self.entries[i].state.set_last_error(
                SQLITE_CANTOPEN,
                NativeError::InvalidFilePointer,
            ),
            Some(file) => {
                self.entries[i].state.backend().x_open();
                file.ext = FileExt::Init;
                SQLITE_OK
            },
        };
        proof {
            assert(self.name_seq() =~= pre.name_seq());
        }
        code
    }
}

/// Whether a stored name and a queried one are the same text.
fn name_matches(stored: &Vec<char>, name: &str) -> (r: bool)
    ensures
        r == (stored@ == name@),
{
    let n = name.unicode_len();
    if stored.len() != n {
        return false;
    }
    let mut i: usize = 0;
    while i < n
        invariant
            i <= n,
            n == name@.len(),
            stored@.len() == n,
            forall|j: int| 0 <= j < i ==> stored@[j] == name@[j],
        decreases n - i,
    {
        if stored[i] != name.get_char(i) {
            return false;
        }
        i += 1;
    }
    proof {
        assert(stored@ =~= name@);
    }
    true
}

/// Whether two stored names are the same text.
fn char_vecs_eq(a: &Vec<char>, b: &Vec<char>) -> (r: bool)
    ensures
        r == (a@ == b@),
{
    let n = a.len();
    if b.len() != n {
        return false;
    }
    let mut i: usize = 0;
    while i < n
        invariant
            i <= n,
            n == a@.len(),
            b@.len() == n,
            forall|j: int| 0 <= j < i ==> a@[j] == b@[j],
        decreases n - i,
    {
        if a[i] != b[i] {
            return false;
        }
        i += 1;
    }
    proof {
        assert(a@ =~= b@);
    }
    true
}

} // verus!

//! Per-file trampoline logic.
//!
//! The engine calls the slots of a handle's method table with a pointer to the
//! file-handle buffer it allocated.  As in the filesystem-level trampolines,
//! a nullable pointer is modelled as an `Option`, and the extension region of
//! a recovered handle is read only when its lifecycle stage allows it.

use vstd::prelude::*;

use crate::FileExt;
use crate::FileState;
use crate::SQLITE_ERROR;
use crate::SQLITE_OK;
use crate::ext_after_close;
use crate::ext_after_open;

verus! {

/// The close trampoline.
///
/// A null handle pointer is answered with the engine's generic failure code.
/// A handle whose extension region is not initialized is refused the same
/// way, without reading or finalizing the region: finalization happens only
/// on a region that open initialized, and only once.  An initialized region
/// is finalized here and success is returned.
pub fn x_close(file_arg: &mut Option<FileState>) -> (code: i32)
    ensures
        (*old(file_arg)) is None ==> code == SQLITE_ERROR && *final(file_arg) == *old(file_arg),
        (*old(file_arg)) is Some ==> (*final(file_arg)) is Some
            && (*final(file_arg))->Some_0.ext_spec() == ext_after_close(
            (*old(file_arg))->Some_0.ext_spec(),
        )
            && code == (if (*old(file_arg))->Some_0.ext_spec() is Init {
            SQLITE_OK
        } else {
            SQLITE_ERROR
        }),
{
    match file_arg {
        None => SQLITE_ERROR,
        Some(file) => match file.ext() {
            FileExt::Init => {
                file.ext = FileExt::Closed;
                SQLITE_OK
            },
            _ => SQLITE_ERROR,
        },
    }
}

/// One step of the extension lifecycle, as the trampolines' contracts state
/// it: what a single open or close call does to the extension region.
pub open spec fn ext_step(e: FileExt, open_call: bool) -> FileExt {
    if open_call {
        ext_after_open(e)
    } else {
        ext_after_close(e)
    }
}

/// The extension region after a sequence of trampoline calls, `true` standing
/// for an open call and `false` for a close call.
pub open spec fn ext_run(e: FileExt, calls: Seq<bool>) -> FileExt
    decreases calls.len(),
{
    if calls.len() == 0 {
        e
    } else {
        ext_run(ext_step(e, calls[0]), calls.drop_first())
    }
}

/// The extension lifecycle law: starting from the uninitialized region the
/// engine allocates, no sequence of close calls alone ever finalizes the
/// region — it stays uninitialized until an open succeeds; the close that
/// follows an open finalizes it; and once finalized, further close calls
/// leave it finalized rather than finalizing it again.
pub proof fn lemma_extension_lifecycle(calls: Seq<bool>)
    ensures
        (forall|i: int| 0 <= i < calls.len() ==> !calls[i]) ==> ext_run(FileExt::Uninit, calls)
            == FileExt::Uninit,
        ext_step(ext_step(FileExt::Uninit, true), false) == FileExt::Closed,
        (forall|i: int| 0 <= i < calls.len() ==> !calls[i]) ==> ext_run(FileExt::Closed, calls)
            == FileExt::Closed,
    decreases calls.len(),
{
    if calls.len() > 0 {
        lemma_extension_lifecycle(calls.drop_first());
    }
}

} // verus!

//! Raw filesystem notifications and the synchronization intents they become.
//!
//! The kinds mirror those of the native notification facility, one for one;
//! [`translate`] is the single place that decides which of them matter.
use vstd::prelude::*;

use crate::synchronizer::SynchronizerEvent;

verus! {

/// What was created.
#[derive(Clone, Copy, PartialEq, Eq, Structural, Debug)]
pub enum CreateKind {
    Any,
    File,
    Folder,
    Other,
}

/// What was modified.
#[derive(Clone, Copy, PartialEq, Eq, Structural, Debug)]
pub enum ModifyKind {
    Any,
    /// The content of a file changed.
    Data,
    /// Times, permissions, attributes and the like changed.
    Metadata,
    /// A name changed, in any direction of a rename.
    Name,
    Other,
}

/// What was removed.
#[derive(Clone, Copy, PartialEq, Eq, Structural, Debug)]
pub enum RemoveKind {
    Any,
    File,
    Folder,
    Other,
}

/// The kind of a raw filesystem notification.
#[derive(Clone, Copy, PartialEq, Eq, Structural, Debug)]
pub enum RawEventKind {
    Any,
    Access,
    Create(CreateKind),
    Modify(ModifyKind),
    Remove(RemoveKind),
    Other,
}

/// Whether notifications of this kind lead to synchronization: a created
/// file, a changed name, a removed file. Data modifications do not, nor does
/// anything else.
pub open spec fn forwards(kind: RawEventKind) -> bool {
    match kind {
        RawEventKind::Create(CreateKind::File) => true,
        RawEventKind::Modify(ModifyKind::Name) => true,
        RawEventKind::Remove(RemoveKind::File) => true,
        _ => false,
    }
}

/// `e` is the intent that a notification of this kind stands for.
pub open spec fn intent_of(kind: RawEventKind, e: SynchronizerEvent) -> bool {
    match kind {
        RawEventKind::Create(CreateKind::File) => e is Create,
        RawEventKind::Modify(ModifyKind::Name) => e is Rename,
        RawEventKind::Remove(RemoveKind::File) => e is Delete,
        _ => false,
    }
}

/// A change of a file's data is never forwarded: it becomes no intent, and
/// so no remote call.
pub proof fn data_changes_are_dropped()
    ensures
        !forwards(RawEventKind::Modify(ModifyKind::Data)),
{
}

/// The intent for one path of a notification of a forwarded kind.
fn intent(kind: RawEventKind, path: String) -> (r: SynchronizerEvent)
    requires
        forwards(kind),
    ensures
        intent_of(kind, r),
        r.path_view() == path@,
{
    match kind {
        RawEventKind::Create(_) => SynchronizerEvent::Create(path),
        RawEventKind::Modify(_) => SynchronizerEvent::Rename(path),
        _ => SynchronizerEvent::Delete(path),
    }
}

/// The intents that a raw notification of `kind` about `paths` becomes: one
/// per path, in order, for a forwarded kind; none otherwise.
pub fn translate(kind: RawEventKind, paths: Vec<String>) -> (r: Vec<SynchronizerEvent>)
    ensures
        forwards(kind) ==> r@.len() == paths@.len(),
        !forwards(kind) ==> r@.len() == 0,
        forall|i: int|
            0 <= i < r@.len() ==> intent_of(kind, #[trigger] r@[i]) && r@[i].path_view()
                == paths@[i]@,
{
    let mut events: Vec<SynchronizerEvent> = Vec::new();
    let forwarded = match kind {
        RawEventKind::Create(CreateKind::File) => true,
        RawEventKind::Modify(ModifyKind::Name) => true,
        RawEventKind::Remove(RemoveKind::File) => true,
        _ => false,
    };
    if !forwarded {
        return events;
    }
    let n = paths.len();
    let mut i: usize = 0;
    while i < n
        invariant
            forwards(kind),
            n == paths@.len(),
            i <= n,
            events@.len() == i,
            forall|j: int|
                0 <= j < i ==> intent_of(kind, #[trigger] events@[j]) && events@[j].path_view()
                    == paths@[j]@,
        decreases n - i,
    {
        let e = intent(kind, paths[i].clone());
        events.push(e);
        i = i + 1;
    }
    events
}

} // verus!

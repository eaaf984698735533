//! The resource table: a registry from numeric handles to native resources.
//!
//! The table is generic in the resource value `R`: it stores the value beside
//! its kind and hands it back on lookup and on close. Releasing the value is
//! the caller's work; the table says which release action the kind calls for
//! and whether that release completes at once.

use crate::error::ErrorKind;
use std::collections::HashMap;
use vstd::prelude::*;

verus! {

/// Handle under which the standard input is seeded.
pub const STDIN: u32 = 0;

/// Handle under which the standard output is seeded.
pub const STDOUT: u32 = 1;

/// Handle under which the standard error stream is seeded.
pub const STDERR: u32 = 2;

/// What kind of native resource an entry holds.
#[derive(Clone, Copy, Debug, PartialEq, Eq, Structural)]
pub enum ResourceKind {
    Stdin,
    Stdout,
    Stderr,
    File,
    Socket,
    ChildProcess,
    Timer,
    Signal,
}

/// What releasing a resource amounts to.
#[derive(Clone, Copy, Debug, PartialEq, Eq, Structural)]
pub enum ReleaseAction {
    /// Close the descriptor behind a stream, a file or a socket.
    CloseDescriptor,
    /// Cancel the timer.
    CancelTimer,
    /// Let go of the child's handle; the child itself keeps running.
    DetachChild,
    /// End the signal subscription.
    Unsubscribe,
}

/// Whether a release is over when `close` returns.
#[derive(Clone, Copy, Debug, PartialEq, Eq, Structural)]
pub enum ReleaseStatus {
    /// Nothing is left to do.
    Completed,
    /// Buffered output is flushed first; the release completes later.
    Pending,
}

impl ResourceKind {
    /// The release action of each kind.
    pub open spec fn spec_release_action(self) -> ReleaseAction {
        match self {
            ResourceKind::Timer => ReleaseAction::CancelTimer,
            ResourceKind::ChildProcess => ReleaseAction::DetachChild,
            ResourceKind::Signal => ReleaseAction::Unsubscribe,
            _ => ReleaseAction::CloseDescriptor,
        }
    }

    /// Kinds that buffer output release later; the others at once.
    pub open spec fn spec_release_status(self) -> ReleaseStatus {
        match self {
            ResourceKind::Stdout => ReleaseStatus::Pending,
            ResourceKind::Stderr => ReleaseStatus::Pending,
            ResourceKind::File => ReleaseStatus::Pending,
            ResourceKind::Socket => ReleaseStatus::Pending,
            _ => ReleaseStatus::Completed,
        }
    }

    /// The release action that closing a resource of this kind calls for.
    #[verifier::when_used_as_spec(spec_release_action)]
    pub fn release_action(self) -> (action: ReleaseAction)
        ensures
            action == self.spec_release_action(),
    {
        match self {
            ResourceKind::Timer => ReleaseAction::CancelTimer,
            ResourceKind::ChildProcess => ReleaseAction::DetachChild,
            ResourceKind::Signal => ReleaseAction::Unsubscribe,
            _ => ReleaseAction::CloseDescriptor,
        }
    }

    /// Whether closing a resource of this kind completes at once.
    #[verifier::when_used_as_spec(spec_release_status)]
    pub fn release_status(self) -> (status: ReleaseStatus)
        ensures
            status == self.spec_release_status(),
    {
        match self {
            ResourceKind::Stdout => ReleaseStatus::Pending,
            ResourceKind::Stderr => ReleaseStatus::Pending,
            ResourceKind::File => ReleaseStatus::Pending,
            ResourceKind::Socket => ReleaseStatus::Pending,
            _ => ReleaseStatus::Completed,
        }
    }
}

/// One entry of the table: a resource and its kind.
pub struct Entry<R> {
    pub kind: ResourceKind,
    pub resource: R,
}

/// A resource that has left the table, with what its release takes.
pub struct Released<R> {
    pub handle: u32,
    pub kind: ResourceKind,
    pub resource: R,
    pub action: ReleaseAction,
    pub status: ReleaseStatus,
}

/// What `close` hands out for the entry that was open under `handle`.
pub open spec fn released<R>(handle: u32, entry: Entry<R>) -> Released<R> {
    Released {
        handle,
        kind: entry.kind,
        resource: entry.resource,
        action: entry.kind.spec_release_action(),
        status: entry.kind.spec_release_status(),
    }
}

/// The table as a mathematical value: the open entries by handle, and the
/// handle that the next `add` returns.
pub struct TableModel<R> {
    pub entries: Map<u32, Entry<R>>,
    pub next: nat,
}

/// One change to a table.
pub enum TableOp<R> {
    Add(ResourceKind, R),
    Close(u32),
}

impl<R> TableModel<R> {
    /// The table before its first `add`.
    pub open spec fn empty() -> Self {
        TableModel { entries: Map::empty(), next: 0 }
    }

    /// Every open handle was returned by an earlier `add`.
    pub open spec fn wf(self) -> bool {
        forall|h: u32| self.entries.contains_key(h) ==> (h as nat) < self.next
    }

    /// Whether `handle` is open.
    pub open spec fn contains(self, handle: u32) -> bool {
        self.entries.contains_key(handle)
    }

    /// Whether the handle space has a handle left for one more `add`.
    pub open spec fn has_room(self) -> bool {
        self.next < u32::MAX
    }

    /// The table after `add`: the entry is stored under the handle `next`.
    pub open spec fn add(self, kind: ResourceKind, resource: R) -> Self {
        TableModel {
            entries: self.entries.insert(self.next as u32, Entry { kind, resource }),
            next: self.next + 1,
        }
    }

    /// The table after `close`: the entry under `handle`, if any, is gone.
    pub open spec fn close(self, handle: u32) -> Self {
        TableModel { entries: self.entries.remove(handle), next: self.next }
    }

    /// What `get` answers.
    pub open spec fn lookup(self, handle: u32) -> Result<R, ErrorKind> {
        if self.contains(handle) {
            Ok(self.entries[handle].resource)
        } else {
            Err(ErrorKind::NotFound)
        }
    }

    /// What `get_typed` answers.
    pub open spec fn lookup_typed(self, handle: u32, expected: ResourceKind) -> Result<
        R,
        ErrorKind,
    > {
        if !self.contains(handle) {
            Err(ErrorKind::NotFound)
        } else if self.entries[handle].kind != expected {
            Err(ErrorKind::TypeMismatch)
        } else {
            Ok(self.entries[handle].resource)
        }
    }

    /// What `close` answers.
    pub open spec fn closing(self, handle: u32) -> Result<Released<R>, ErrorKind> {
        if self.contains(handle) {
            Ok(released(handle, self.entries[handle]))
        } else {
            Err(ErrorKind::NotFound)
        }
    }

    /// Whether `op` may be applied: an `add` needs a free handle.
    pub open spec fn admits(self, op: TableOp<R>) -> bool {
        match op {
            TableOp::Add(_, _) => self.has_room(),
            TableOp::Close(_) => true,
        }
    }

    /// The table after `op`.
    pub open spec fn apply(self, op: TableOp<R>) -> Self {
        match op {
            TableOp::Add(kind, resource) => self.add(kind, resource),
            TableOp::Close(handle) => self.close(handle),
        }
    }

    /// Whether each op of `ops` may be applied in its turn.
    pub open spec fn admits_all(self, ops: Seq<TableOp<R>>) -> bool
        decreases ops.len(),
    {
        if ops.len() == 0 {
            true
        } else {
            self.admits(ops[0]) && self.apply(ops[0]).admits_all(ops.drop_first())
        }
    }

    /// The table after all of `ops`, first to last.
    pub open spec fn run(self, ops: Seq<TableOp<R>>) -> Self
        decreases ops.len(),
    {
        if ops.len() == 0 {
            self
        } else {
            self.apply(ops[0]).run(ops.drop_first())
        }
    }
}

/// Whether some op of `ops` closes `handle`.
pub open spec fn closes<R>(ops: Seq<TableOp<R>>, handle: u32) -> bool {
    exists|i: int| 0 <= i < ops.len() && #[trigger] ops[i] == TableOp::<R>::Close(handle)
}

/// Whether `out` holds each entry of `table` once, lowest handle first, as
/// `close` would have handed it out.
pub open spec fn drained<R>(table: TableModel<R>, out: Seq<Released<R>>) -> bool {
    &&& forall|i: int, j: int| 0 <= i < j < out.len() ==> out[i].handle < out[j].handle
    &&& forall|i: int|
        0 <= i < out.len() ==> table.closing(#[trigger] out[i].handle) == Ok::<
            Released<R>,
            ErrorKind,
        >(out[i])
    &&& forall|h: u32|
        table.contains(h) ==> exists|i: int| 0 <= i < out.len() && #[trigger] out[i].handle == h
}

/// Whether `list` names each open handle of `table` once, lowest first,
/// with the kind of its resource.
pub open spec fn listed<R>(table: TableModel<R>, list: Seq<(u32, ResourceKind)>) -> bool {
    &&& forall|i: int, j: int| 0 <= i < j < list.len() ==> list[i].0 < list[j].0
    &&& forall|i: int|
        0 <= i < list.len() ==> table.contains((#[trigger] list[i]).0)
            && table.entries[list[i].0].kind == list[i].1
    &&& forall|h: u32|
        table.contains(h) ==> exists|i: int| 0 <= i < list.len() && (#[trigger] list[i]).0 == h
}

/// The registry of open resources of one worker.
pub struct ResourceTable<R> {
    map: HashMap<u32, Entry<R>>,
    next: u32,
}

impl<R> ResourceTable<R> {
    /// The table as a mathematical value.
    pub closed spec fn view(&self) -> TableModel<R> {
        TableModel { entries: self.map@, next: self.next as nat }
    }

    /// A table with no entry.
    pub fn new() -> (table: Self)
        ensures
            table@ == TableModel::<R>::empty(),
            table@.wf(),
    {
        ResourceTable { map: HashMap::new(), next: 0 }
    }

    /// Whether one more `add` can be served.
    pub fn has_room(&self) -> (b: bool)
        ensures
            b == self@.has_room(),
    {
        self.next < u32::MAX
    }

    /// Stores `resource` under a fresh handle and returns the handle.
    pub fn add(&mut self, kind: ResourceKind, resource: R) -> (handle: u32)
        requires
            old(self)@.wf(),
            old(self)@.has_room(),
        ensures
            handle == old(self)@.next,
            !old(self)@.contains(handle),
            final(self)@ == old(self)@.add(kind, resource),
            final(self)@.wf(),
    {
        let handle = self.next;
        self.next = handle + 1;
        self.map.insert(handle, Entry { kind, resource });
        handle
    }

    /// Whether `handle` is open.
    pub fn contains(&self, handle: u32) -> (b: bool)
        ensures
            b == self@.contains(handle),
    {
        self.map.contains_key(&handle)
    }

    /// The resource under `handle`.
    pub fn get(&self, handle: u32) -> (r: Result<&R, ErrorKind>)
        ensures
            match r {
                Ok(resource) => self@.lookup(handle) == Ok::<R, ErrorKind>(*resource),
                Err(e) => self@.lookup(handle) == Err::<R, ErrorKind>(e),
            },
    {
        match self.map.get(&handle) {
            Some(entry) => Ok(&entry.resource),
            None => Err(ErrorKind::NotFound),
        }
    }

    /// The resource under `handle`, provided it is of the kind `expected`.
    pub fn get_typed(&self, handle: u32, expected: ResourceKind) -> (r: Result<&R, ErrorKind>)
        ensures
            match r {
                Ok(resource) => self@.lookup_typed(handle, expected) == Ok::<R, ErrorKind>(
                    *resource,
                ),
                Err(e) => self@.lookup_typed(handle, expected) == Err::<R, ErrorKind>(e),
            },
    {
        match self.map.get(&handle) {
            Some(entry) => {
                if entry.kind == expected {
                    Ok(&entry.resource)
                } else {
                    Err(ErrorKind::TypeMismatch)
                }
            },
            None => Err(ErrorKind::NotFound),
        }
    }

    /// The kind of the resource under `handle`.
    pub fn kind_of(&self, handle: u32) -> (r: Option<ResourceKind>)
        ensures
            r == (if self@.contains(handle) {
                Some(self@.entries[handle].kind)
            } else {
                None
            }),
    {
        match self.map.get(&handle) {
            Some(entry) => Some(entry.kind),
            None => None,
        }
    }

    /// The open handles, lowest first, each with the kind of its resource.
    pub fn entries(&self) -> (list: Vec<(u32, ResourceKind)>)
        requires
            self@.wf(),
        ensures
            listed(self@, list@),
    {
        let mut list: Vec<(u32, ResourceKind)> = Vec::new();
        let mut h: u32 = 0;
        while h < self.next
            invariant
                h <= self.next,
                forall|i: int, j: int| 0 <= i < j < list.len() ==> list[i].0 < list[j].0,
                forall|i: int|
                    0 <= i < list.len() ==> (#[trigger] list[i]).0 < h && self.map@.contains_key(
                        list[i].0,
                    ) && self.map@[list[i].0].kind == list[i].1,
                forall|k: u32|
                    self.map@.contains_key(k) && k < h ==> exists|i: int|
                        0 <= i < list.len() && (#[trigger] list[i]).0 == k,
            decreases self.next - h,
        {
            let ghost so_far = list@;
            match self.map.get(&h) {
                Some(entry) => {
                    list.push((h, entry.kind));
                    assert(list@[so_far.len() as int].0 == h);
                },
                None => {},
            }
            assert forall|k: u32| self.map@.contains_key(k) && k < h + 1 implies exists|i: int|
                0 <= i < list.len() && (#[trigger] list[i]).0 == k by {
                if k < h {
                    let i = choose|i: int| 0 <= i < so_far.len() && (#[trigger] so_far[i]).0 == k;
                    assert(list@[i].0 == k);
                } else {
                    assert(list@[so_far.len() as int].0 == k);
                }
            }
            h += 1;
        }
        list
    }

    /// Removes the entry under `handle` and hands its resource out for release.
    pub fn close(&mut self, handle: u32) -> (r: Result<Released<R>, ErrorKind>)
        ensures
            r == old(self)@.closing(handle),
            final(self)@ == old(self)@.close(handle),
            old(self)@.wf() ==> final(self)@.wf(),
    {
        match self.map.remove(&handle) {
            Some(entry) => {
                let kind = entry.kind;
                Ok(
                    Released {
                        handle,
                        kind,
                        resource: entry.resource,
                        action: kind.release_action(),
                        status: kind.release_status(),
                    },
                )
            },
            None => {
                assert(self.map@ =~= old(self).map@);
                Err(ErrorKind::NotFound)
            },
        }
    }
    /// Closes every entry, lowest handle first, and hands the resources out
    /// for release. No handle is given out again afterwards.
    pub fn close_all(&mut self) -> (out: Vec<Released<R>>)
        requires
            old(self)@.wf(),
        ensures
            final(self)@.entries == Map::<u32, Entry<R>>::empty(),
            final(self)@.next == old(self)@.next,
            final(self)@.wf(),
            drained(old(self)@, out@),
    {
        let ghost before = self@;
        let mut out: Vec<Released<R>> = Vec::new();
        let mut h: u32 = 0;
        while h < self.next
            invariant
                h <= self.next,
                self.next == before.next,
                before.wf(),
                forall|k: u32|
                    #[trigger] self.map@.contains_key(k) ==> before.entries.contains_key(k) && k
                        >= h,
                forall|k: u32|
                    #[trigger] before.entries.contains_key(k) && k >= h
                        ==> self.map@.contains_key(k),
                forall|k: u32| self.map@.contains_key(k) ==> self.map@[k] == before.entries[k],
                forall|i: int, j: int| 0 <= i < j < out.len() ==> out[i].handle < out[j].handle,
                forall|i: int|
                    0 <= i < out.len() ==> (#[trigger] out[i]).handle < h && before.closing(
                        out[i].handle,
                    ) == Ok::<Released<R>, ErrorKind>(out[i]),
                forall|k: u32|
                    before.contains(k) && k < h ==> exists|i: int|
                        0 <= i < out.len() && #[trigger] out[i].handle == k,
            decreases self.next - h,
        {
            let ghost so_far = out@;
            let ghost prev = self.map@;
            match self.map.remove(&h) {
                Some(entry) => {
                    let kind = entry.kind;
                    out.push(
                        Released {
                            handle: h,
                            kind,
                            resource: entry.resource,
                            action: kind.release_action(),
                            status: kind.release_status(),
                        },
                    );
                    assert(out@[so_far.len() as int].handle == h);
                },
                None => {},
            }
            assert(self.map@ =~= prev.remove(h));
            assert forall|k: u32| before.contains(k) && k < h + 1 implies exists|i: int|
                0 <= i < out.len() && #[trigger] out[i].handle == k by {
                if k < h {
                    let i = choose|i: int|
                        0 <= i < so_far.len() && #[trigger] so_far[i].handle == k;
                    assert(out@[i].handle == k);
                } else {
                    assert(out@[so_far.len() as int].handle == k);
                }
            }
            h += 1;
        }
        assert forall|k: u32| !self.map@.contains_key(k) by {
            if self.map@.contains_key(k) {
                assert(before.entries.contains_key(k));
            }
        }
        assert(self.map@ =~= Map::<u32, Entry<R>>::empty());
        out
    }
}

/// Applying an admitted op keeps a table well formed.
pub proof fn lemma_apply_keeps_wf<R>(m: TableModel<R>, op: TableOp<R>)
    requires
        m.wf(),
        m.admits(op),
    ensures
        m.apply(op).wf(),
        m.apply(op).next >= m.next,
{
}

/// If no op of `ops` closes `handle`, none of its tail does.
proof fn lemma_tail_closes_nothing<R>(ops: Seq<TableOp<R>>, handle: u32)
    requires
        ops.len() > 0,
        !closes(ops, handle),
    ensures
        !closes(ops.drop_first(), handle),
        ops[0] != TableOp::<R>::Close(handle),
{
    let rest = ops.drop_first();
    if closes(rest, handle) {
        let i = choose|i: int|
            0 <= i < rest.len() && #[trigger] rest[i] == TableOp::<R>::Close(handle);
        assert(ops[i + 1] == rest[i]);
    }
}

/// An open handle stays open, with the kind and the resource it was given,
/// through every sequence of adds and closes in which no close names it.
pub proof fn law_open_until_closed<R>(m: TableModel<R>, handle: u32, ops: Seq<TableOp<R>>)
    requires
        m.wf(),
        m.contains(handle),
        m.admits_all(ops),
        !closes(ops, handle),
    ensures
        m.run(ops).wf(),
        m.run(ops).contains(handle),
        m.run(ops).entries[handle] == m.entries[handle],
        m.run(ops).lookup(handle) == m.lookup(handle),
    decreases ops.len(),
{
    if ops.len() > 0 {
        lemma_tail_closes_nothing(ops, handle);
        lemma_apply_keeps_wf(m, ops[0]);
        law_open_until_closed(m.apply(ops[0]), handle, ops.drop_first());
    }
}

/// A handle that was given out and is closed is never open again: whatever
/// adds and closes follow, `get` and `close` on it answer `NotFound`.
pub proof fn law_closed_stays_closed<R>(m: TableModel<R>, handle: u32, ops: Seq<TableOp<R>>)
    requires
        m.wf(),
        (handle as nat) < m.next,
        !m.contains(handle),
        m.admits_all(ops),
    ensures
        m.run(ops).wf(),
        !m.run(ops).contains(handle),
        m.run(ops).lookup(handle) == Err::<R, ErrorKind>(ErrorKind::NotFound),
        m.run(ops).closing(handle) == Err::<Released<R>, ErrorKind>(ErrorKind::NotFound),
    decreases ops.len(),
{
    if ops.len() > 0 {
        lemma_apply_keeps_wf(m, ops[0]);
        law_closed_stays_closed(m.apply(ops[0]), handle, ops.drop_first());
    }
}

/// The life of a handle. From the `add` that returns it, `get` finds the
/// resource until the first `close` of it, through any other adds and closes;
/// from that close on, `get` and `close` answer `NotFound` for good.
pub proof fn law_handle_lifetime<R>(
    m: TableModel<R>,
    kind: ResourceKind,
    resource: R,
    before: Seq<TableOp<R>>,
    after: Seq<TableOp<R>>,
)
    requires
        m.wf(),
        m.has_room(),
        m.add(kind, resource).admits_all(before),
        !closes(before, m.next as u32),
        m.add(kind, resource).run(before).close(m.next as u32).admits_all(after),
    ensures
        ({
            let handle = m.next as u32;
            let open = m.add(kind, resource).run(before);
            let closed = open.close(handle).run(after);
            &&& open.lookup(handle) == Ok::<R, ErrorKind>(resource)
            &&& open.closing(handle) == Ok::<Released<R>, ErrorKind>(
                released(handle, Entry { kind, resource }),
            )
            &&& closed.lookup(handle) == Err::<R, ErrorKind>(ErrorKind::NotFound)
            &&& closed.closing(handle) == Err::<Released<R>, ErrorKind>(ErrorKind::NotFound)
        }),
{
    let handle = m.next as u32;
    let start = m.add(kind, resource);
    law_open_until_closed(start, handle, before);
    law_closed_stays_closed(start.run(before).close(handle), handle, after);
}

/// A typed lookup with the wrong kind answers `TypeMismatch` for as long as
/// the handle is open, whatever is added or closed under other handles.
pub proof fn law_kind_mismatch_is_stable<R>(
    m: TableModel<R>,
    handle: u32,
    expected: ResourceKind,
    ops: Seq<TableOp<R>>,
)
    requires
        m.wf(),
        m.contains(handle),
        m.entries[handle].kind != expected,
        m.admits_all(ops),
        !closes(ops, handle),
    ensures
        m.lookup_typed(handle, expected) == Err::<R, ErrorKind>(ErrorKind::TypeMismatch),
        m.run(ops).lookup_typed(handle, expected) == Err::<R, ErrorKind>(
            ErrorKind::TypeMismatch,
        ),
{
    law_open_until_closed(m, handle, ops);
}

} // verus!

//! The worker: one execution context with its resource table, its
//! permissions and its ops, from bootstrap to tear-down.
//!
//! The dispatch boundary stands here. An op call is screened against the
//! worker's phase, the registry, the permissions and the resource table
//! before anything is attempted; what passes is routed either inline or to
//! the background, and background work comes back through `finish` into one
//! queue that is delivered in the order of completion.

use crate::error::ErrorKind;
use crate::global::GlobalState;
use crate::lifecycle::{Action, Lifecycle, Outcome, Phase};
use crate::ops::{OpRegistry, RegistryModel};
use crate::permission::{
    any_covers, Access, Category, PermissionModel, Permissions, Reply, Verdict,
};
use crate::resource::{
    drained, Entry, Released, ResourceKind, ResourceTable, TableModel, STDERR, STDIN, STDOUT,
};
use crate::text::chars_of;
use std::collections::HashMap;
use std::collections::VecDeque;
use std::rc::Rc;
use vstd::prelude::*;

verus! {

/// Whether a call returns its result to the calling frame or completes later.
/// An asynchronous call carries the token that its completion is matched by.
#[derive(Clone, Copy, Debug, PartialEq, Eq)]
pub enum Mode {
    Sync,
    Async(u64),
}

/// Where an admitted call runs.
#[derive(Clone, Copy, Debug, PartialEq, Eq)]
pub enum Route {
    /// On the execution thread, before the calling frame resumes.
    Inline,
    /// In the background; the completion will bear this token.
    Background(u64),
}

/// One op call as it arrives at the boundary.
pub struct Invocation {
    /// The identifier of the op.
    pub op: usize,
    pub mode: Mode,
    /// The resource that the privileged action is aimed at: a path, a
    /// `host[:port]`, or a name, as the op's category has it.
    pub target: Option<String>,
    /// The open resource that the call works on, if it works on one.
    pub handle: Option<u32>,
    /// The structured arguments, encoded.
    pub payload: Vec<u8>,
    /// Raw buffers that are handed over without a copy.
    pub buffers: Vec<Vec<u8>>,
}

/// What of a call the boundary decides by.
pub struct CallModel {
    pub op: usize,
    pub mode: Mode,
    pub target: Option<Seq<char>>,
    pub handle: Option<u32>,
}

impl Invocation {
    pub open spec fn view(&self) -> CallModel {
        CallModel {
            op: self.op,
            mode: self.mode,
            target: match self.target {
                Some(t) => Some(t@),
                None => None,
            },
            handle: self.handle,
        }
    }
}

/// An asynchronous call that is in flight.
#[derive(Clone, Copy, Debug)]
pub struct PendingOp {
    pub op: usize,
    pub handle: Option<u32>,
}

/// The result of an asynchronous call, waiting to be delivered.
pub struct Completion {
    pub token: u64,
    pub op: usize,
    pub result: Result<Vec<u8>, ErrorKind>,
}

/// A completion as a mathematical value.
pub struct CompletionModel {
    pub token: u64,
    pub op: usize,
    pub result: Result<Seq<u8>, ErrorKind>,
}

/// The bytes of a result.
pub open spec fn result_view(result: Result<Vec<u8>, ErrorKind>) -> Result<Seq<u8>, ErrorKind> {
    match result {
        Ok(bytes) => Ok(bytes@),
        Err(e) => Err(e),
    }
}

impl Completion {
    pub open spec fn view(&self) -> CompletionModel {
        CompletionModel { token: self.token, op: self.op, result: result_view(self.result) }
    }
}

/// What a step of the lifecycle hands to the embedder: the action to
/// perform next, and the resources to release.
pub struct Step<R> {
    pub action: Option<Action>,
    pub released: Vec<Released<R>>,
}

/// The worker as a mathematical value.
pub struct WorkerModel<R> {
    pub life: Lifecycle,
    pub registry: RegistryModel,
    pub permissions: PermissionModel,
    pub resources: TableModel<R>,
    /// The asynchronous calls in flight, by token.
    pub pending: Map<u64, PendingOp>,
    /// The completions not yet delivered, oldest first.
    pub completed: Seq<CompletionModel>,
}

impl<R> WorkerModel<R> {
    /// The worker as it is built: the registry sealed, the three standard
    /// streams seeded at their handles, nothing in flight.
    pub open spec fn fresh(
        registry: RegistryModel,
        permissions: PermissionModel,
        stdin: R,
        stdout: R,
        stderr: R,
    ) -> Self {
        WorkerModel {
            life: Lifecycle::spec_start(),
            registry: registry.seal(),
            permissions,
            resources: TableModel::empty().add(ResourceKind::Stdin, stdin).add(
                ResourceKind::Stdout,
                stdout,
            ).add(ResourceKind::Stderr, stderr),
            pending: Map::empty(),
            completed: Seq::empty(),
        }
    }

    /// The registry is sealed, the table is well formed, and a terminated
    /// worker holds no resource, no call in flight and no completion.
    pub open spec fn wf(self) -> bool {
        &&& self.registry.sealed
        &&& self.resources.wf()
        &&& self.life.phase == Phase::Terminated ==> {
            &&& self.resources.entries == Map::<u32, Entry<R>>::empty()
            &&& self.pending == Map::<u64, PendingOp>::empty()
            &&& self.completed == Seq::<CompletionModel>::empty()
        }
    }

    /// What the permissions find for a call: the op must be registered; an
    /// op that requires no category is granted.
    pub open spec fn finding(self, call: CallModel) -> Result<Verdict, ErrorKind> {
        match self.registry.resolve(call.op) {
            Err(e) => Err(e),
            Ok(decl) => match decl.needs {
                None => Ok(Verdict::Granted),
                Some(category) => self.permissions.decide_call(category, call.target),
            },
        }
    }

    /// The screening of a call, in this order: a terminated worker takes no
    /// call; the op must be registered; the permissions must not deny; the
    /// handle, if the call names one, must be open; the token of an
    /// asynchronous call must not be in flight. What passes is `Granted`, or
    /// `Ask` where only the operator's word is missing.
    pub open spec fn screen(self, call: CallModel) -> Result<Verdict, ErrorKind> {
        if self.life.phase == Phase::Terminated {
            Err(ErrorKind::AlreadyClosed)
        } else {
            match self.finding(call) {
                Err(e) => Err(e),
                Ok(Verdict::Denied) => Err(ErrorKind::PermissionDenied),
                Ok(verdict) => if call.handle is Some && !self.resources.contains(call.handle->0) {
                    Err(ErrorKind::NotFound)
                } else if call.mode is Async && self.pending.contains_key(call.mode->Async_0) {
                    Err(ErrorKind::InvalidInput)
                } else {
                    Ok(verdict)
                },
            }
        }
    }

    /// Where a call of that mode runs.
    pub open spec fn route(mode: Mode) -> Route {
        match mode {
            Mode::Sync => Route::Inline,
            Mode::Async(token) => Route::Background(token),
        }
    }

    /// What `dispatch` answers: the route of a call that passed the
    /// screening, a due question being settled by `reply`.
    pub open spec fn dispatching(self, call: CallModel, reply: Reply) -> Result<Route, ErrorKind> {
        match self.screen(call) {
            Err(e) => Err(e),
            Ok(Verdict::Ask) => if reply == Reply::Confirm {
                Ok(Self::route(call.mode))
            } else {
                Err(ErrorKind::PermissionDenied)
            },
            Ok(_) => Ok(Self::route(call.mode)),
        }
    }

    /// The worker after `dispatch`. A rejected call leaves it as it was. An
    /// admitted call leaves its confirmation, if one was given, and, if it is
    /// asynchronous, its entry among the calls in flight.
    pub open spec fn dispatched(self, call: CallModel, reply: Reply) -> Self {
        if self.dispatching(call, reply) is Ok {
            WorkerModel {
                permissions: if self.screen(call) == Ok::<Verdict, ErrorKind>(Verdict::Ask) {
                    self.permissions.record(
                        self.registry.resolve(call.op)->Ok_0.needs->0,
                        call.target->0,
                        reply,
                    )
                } else {
                    self.permissions
                },
                pending: match call.mode {
                    Mode::Sync => self.pending,
                    Mode::Async(token) => self.pending.insert(
                        token,
                        PendingOp { op: call.op, handle: call.handle },
                    ),
                },
                ..self
            }
        } else {
            self
        }
    }

    /// The completion that `finish` queues for a call in flight: the outcome
    /// as reported, unless the call worked on a handle that has been closed
    /// since; then the completion is `NotFound`.
    pub open spec fn completion(
        self,
        token: u64,
        outcome: Result<Seq<u8>, ErrorKind>,
    ) -> CompletionModel {
        let call = self.pending[token];
        CompletionModel {
            token,
            op: call.op,
            result: if call.handle is Some && !self.resources.contains(call.handle->0) {
                Err(ErrorKind::NotFound)
            } else {
                outcome
            },
        }
    }

    /// The worker after `finish`: the call has left the calls in flight and
    /// its completion stands last in the queue. A token that is not in
    /// flight changes nothing.
    pub open spec fn finished(self, token: u64, outcome: Result<Seq<u8>, ErrorKind>) -> Self {
        if self.pending.contains_key(token) {
            WorkerModel {
                pending: self.pending.remove(token),
                completed: self.completed.push(self.completion(token, outcome)),
                ..self
            }
        } else {
            self
        }
    }

    /// The completion that is delivered next.
    pub open spec fn delivering(self) -> Option<CompletionModel> {
        if self.completed.len() > 0 {
            Some(self.completed[0])
        } else {
            None
        }
    }

    /// The worker after a delivery.
    pub open spec fn delivered(self) -> Self {
        if self.completed.len() > 0 {
            WorkerModel { completed: self.completed.drop_first(), ..self }
        } else {
            self
        }
    }

    /// Whether no asynchronous work is left.
    pub open spec fn quiescent(self) -> bool {
        self.pending.dom() =~= Set::<u64>::empty() && self.completed.len() == 0
    }

    /// The worker after a resource was opened.
    pub open spec fn opened(self, kind: ResourceKind, resource: R) -> Self {
        if self.life.phase == Phase::Terminated {
            self
        } else {
            WorkerModel { resources: self.resources.add(kind, resource), ..self }
        }
    }

    /// The worker after `handle` was closed.
    pub open spec fn closed(self, handle: u32) -> Self {
        WorkerModel { resources: self.resources.close(handle), ..self }
    }

    /// The worker after a step of its lifecycle. The step into `Terminated`
    /// empties the table and drops the calls in flight and the completions
    /// that were not delivered.
    pub open spec fn advanced(self, outcome: Outcome) -> Self {
        let life = self.life.spec_advance(outcome);
        if life.phase == Phase::Terminated && self.life.phase != Phase::Terminated {
            WorkerModel {
                life,
                resources: TableModel { entries: Map::empty(), next: self.resources.next },
                pending: Map::empty(),
                completed: Seq::empty(),
                ..self
            }
        } else {
            WorkerModel { life, ..self }
        }
    }
}

/// One worker.
pub struct Worker<R> {
    name: String,
    global: Rc<GlobalState>,
    main_module: String,
    life: Lifecycle,
    registry: OpRegistry,
    permissions: Permissions,
    resources: ResourceTable<R>,
    pending: HashMap<u64, PendingOp>,
    completed: VecDeque<Completion>,
}

impl<R> Worker<R> {
    /// The worker as a mathematical value.
    pub closed spec fn view(&self) -> WorkerModel<R> {
        WorkerModel {
            life: self.life,
            registry: self.registry@,
            permissions: self.permissions@,
            resources: self.resources@,
            pending: self.pending@,
            completed: Seq::new(self.completed@.len(), |i: int| self.completed@[i]@),
        }
    }

    /// The name of the worker.
    pub closed spec fn spec_name(&self) -> Seq<char> {
        self.name@
    }

    /// The shared state that the worker was built on.
    pub closed spec fn spec_global(&self) -> Rc<GlobalState> {
        self.global
    }

    /// The identifier of the module that the worker runs.
    pub closed spec fn spec_main_module(&self) -> Seq<char> {
        self.main_module@
    }

    /// What is fixed when the worker is built.
    pub open spec fn same_identity(&self, other: &Self) -> bool {
        &&& self.spec_name() == other.spec_name()
        &&& self.spec_global() == other.spec_global()
        &&& self.spec_main_module() == other.spec_main_module()
    }

    /// Builds a worker on the shared state `global`, to run `main_module`.
    /// Its permissions are those that the flags of `global` configure. The
    /// registry is sealed, so that no op can be added or replaced once
    /// script code runs, and the three standard streams are stored at
    /// their handles.
    pub fn new(
        name: &str,
        global: Rc<GlobalState>,
        main_module: &str,
        registry: OpRegistry,
        stdin: R,
        stdout: R,
        stderr: R,
    ) -> (worker: Worker<R>)
        ensures
            worker@ == WorkerModel::fresh(registry@, global.permissions(), stdin, stdout, stderr),
            worker@.wf(),
            worker.spec_name() == name@,
            worker.spec_global() == global,
            worker.spec_main_module() == main_module@,
    {
        let permissions = global.snapshot();
        let mut registry = registry;
        registry.seal();
        let mut resources: ResourceTable<R> = ResourceTable::new();
        resources.add(ResourceKind::Stdin, stdin);
        resources.add(ResourceKind::Stdout, stdout);
        resources.add(ResourceKind::Stderr, stderr);
        let worker = Worker {
            name: name.to_string(),
            global,
            main_module: main_module.to_string(),
            life: Lifecycle::start(),
            registry,
            permissions,
            resources,
            pending: HashMap::new(),
            completed: VecDeque::new(),
        };
        assert(worker@.completed =~= Seq::<CompletionModel>::empty());
        worker
    }

    /// The name of the worker.
    pub fn name(&self) -> (name: &String)
        ensures
            name@ == self.spec_name(),
    {
        &self.name
    }

    /// The shared state that the worker was built on. A child worker is
    /// built on a clone of this reference.
    pub fn global(&self) -> (global: &Rc<GlobalState>)
        ensures
            *global == self.spec_global(),
    {
        &self.global
    }

    /// The identifier of the module that the worker runs.
    pub fn main_module(&self) -> (module: &String)
        ensures
            module@ == self.spec_main_module(),
    {
        &self.main_module
    }

    /// The present phase.
    pub fn phase(&self) -> (phase: Phase)
        ensures
            phase == self@.life.phase,
    {
        self.life.phase
    }

    /// The action that the embedder is to perform next; none once the
    /// worker has terminated.
    pub fn pending_action(&self) -> (action: Option<Action>)
        ensures
            action == self@.life.spec_pending(),
    {
        self.life.pending()
    }

    /// The result of the run, once the worker has terminated.
    pub fn result(&self) -> (r: Option<Result<(), ErrorKind>>)
        ensures
            r == self@.life.spec_result(),
    {
        self.life.result()
    }

    /// The op registry.
    pub fn registry(&self) -> (registry: &OpRegistry)
        ensures
            registry@ == self@.registry,
    {
        &self.registry
    }

    /// The permissions.
    pub fn permissions(&self) -> (permissions: &Permissions)
        ensures
            permissions@ == self@.permissions,
    {
        &self.permissions
    }

    /// The resource table.
    pub fn resources(&self) -> (resources: &ResourceTable<R>)
        ensures
            resources@ == self@.resources,
    {
        &self.resources
    }

    /// Screens a call whose target is given as characters.
    fn screen(&self, call: &Invocation, target: &Option<Vec<char>>) -> (r: Result<
        Verdict,
        ErrorKind,
    >)
        requires
            match target {
                Some(t) => call@.target == Some(t@),
                None => call@.target is None,
            },
        ensures
            r == self@.screen(call@),
    {
        if self.life.phase == Phase::Terminated {
            return Err(ErrorKind::AlreadyClosed);
        }
        let verdict = match self.registry.resolve(call.op) {
            Err(e) => {
                return Err(e);
            },
            Ok(decl) => match decl.needs() {
                None => Verdict::Granted,
                Some(category) => match self.permissions.decide_call(category, target) {
                    Err(e) => {
                        return Err(e);
                    },
                    Ok(verdict) => verdict,
                },
            },
        };
        if verdict == Verdict::Denied {
            return Err(ErrorKind::PermissionDenied);
        }
        match call.handle {
            Some(handle) => {
                if !self.resources.contains(handle) {
                    return Err(ErrorKind::NotFound);
                }
            },
            None => {},
        }
        match call.mode {
            Mode::Async(token) => {
                if self.pending.contains_key(&token) {
                    return Err(ErrorKind::InvalidInput);
                }
            },
            Mode::Sync => {},
        }
        Ok(verdict)
    }

    /// Whether `dispatch` would settle this call by the operator's reply:
    /// the call passes the screening and only a confirmation is missing.
    pub fn needs_prompt(&self, call: &Invocation) -> (b: bool)
        ensures
            b == (self@.screen(call@) == Ok::<Verdict, ErrorKind>(Verdict::Ask)),
    {
        let target = match &call.target {
            Some(t) => Some(chars_of(t.as_str())),
            None => None,
        };
        match self.screen(call, &target) {
            Ok(Verdict::Ask) => true,
            _ => false,
        }
    }

    /// Takes an op call across the boundary. The call is screened; a call
    /// that fails the screening is rejected with its error and nothing
    /// changes. An admitted synchronous call is to run inline; an admitted
    /// asynchronous call joins the calls in flight until `finish` reports
    /// it. `reply` is the operator's answer and counts only where
    /// `needs_prompt` holds.
    pub fn dispatch(&mut self, call: &Invocation, reply: Reply) -> (r: Result<Route, ErrorKind>)
        ensures
            r == old(self)@.dispatching(call@, reply),
            final(self)@ == old(self)@.dispatched(call@, reply),
            old(self)@.wf() ==> final(self)@.wf(),
            final(self).same_identity(old(self)),
    {
        let target = match &call.target {
            Some(t) => Some(chars_of(t.as_str())),
            None => None,
        };
        let verdict = match self.screen(call, &target) {
            Err(e) => {
                return Err(e);
            },
            Ok(verdict) => verdict,
        };
        if verdict == Verdict::Ask {
            match reply {
                Reply::Confirm => {},
                _ => {
                    return Err(ErrorKind::PermissionDenied);
                },
            }
            let category = match self.registry.resolve(call.op) {
                Ok(decl) => decl.needs(),
                Err(_) => None,
            };
            match category {
                Some(category) => match &target {
                    Some(t) => {
                        self.permissions.check_text(category, t, reply);
                    },
                    None => {},
                },
                None => {},
            }
        }
        let route = match call.mode {
            Mode::Sync => Route::Inline,
            Mode::Async(token) => {
                self.pending.insert(token, PendingOp { op: call.op, handle: call.handle });
                Route::Background(token)
            },
        };
        assert(self@.completed =~= old(self)@.completed);
        assert(self@.pending =~= old(self)@.dispatched(call@, reply).pending);
        Ok(route)
    }

    /// Reports that the asynchronous call with `token` has ended with
    /// `outcome`. Its completion is queued behind those that ended before
    /// it. Where the call worked on a handle that is closed by now, the
    /// completion is `NotFound` in place of the outcome. The table is never
    /// touched. A token that is not in flight, as after the worker's
    /// termination, is discarded: the answer is `false` and nothing changes.
    pub fn finish(&mut self, token: u64, outcome: Result<Vec<u8>, ErrorKind>) -> (accepted: bool)
        ensures
            accepted == old(self)@.pending.contains_key(token),
            final(self)@ == old(self)@.finished(token, result_view(outcome)),
            old(self)@.wf() ==> final(self)@.wf(),
            final(self).same_identity(old(self)),
    {
        match self.pending.remove(&token) {
            None => {
                assert(self@.pending =~= old(self)@.pending);
                assert(self@.completed =~= old(self)@.completed);
                false
            },
            Some(call) => {
                let stale = match call.handle {
                    Some(handle) => !self.resources.contains(handle),
                    None => false,
                };
                let result = if stale {
                    Err(ErrorKind::NotFound)
                } else {
                    outcome
                };
                let ghost queued = self.completed@;
                self.completed.push_back(Completion { token, op: call.op, result });
                assert(self.completed@ =~= queued.push(Completion { token, op: call.op, result }));
                assert(self@.completed =~= old(self)@.completed.push(
                    old(self)@.completion(token, result_view(outcome)),
                ));
                assert(self@.pending =~= old(self)@.pending.remove(token));
                true
            },
        }
    }

    /// Takes the oldest completion out of the queue for delivery.
    pub fn next_completion(&mut self) -> (r: Option<Completion>)
        ensures
            match r {
                Some(c) => old(self)@.delivering() == Some(c@),
                None => old(self)@.delivering() is None,
            },
            final(self)@ == old(self)@.delivered(),
            old(self)@.wf() ==> final(self)@.wf(),
            final(self).same_identity(old(self)),
    {
        let r = self.completed.pop_front();
        proof {
            if r is Some {
                assert(self@.completed =~= old(self)@.completed.drop_first());
            } else {
                assert(self@.completed =~= old(self)@.completed);
            }
        }
        r
    }

    /// Checks `target` against `category` on behalf of a handler that needs
    /// more than the category its op is registered with. The rules are those
    /// of `Permissions::check`; nothing but the permissions can change.
    pub fn check(&mut self, category: Category, target: &str, reply: Reply) -> (access: Access)
        ensures
            access == old(self)@.permissions.settle(category, target@, reply),
            final(self)@ == (WorkerModel {
                permissions: old(self)@.permissions.record(category, target@, reply),
                ..old(self)@
            }),
            old(self)@.wf() ==> final(self)@.wf(),
            final(self).same_identity(old(self)),
    {
        let access = self.permissions.check(category, target, reply);
        assert(self@.completed =~= old(self)@.completed);
        access
    }

    /// Whether no asynchronous call is in flight and no completion waits.
    pub fn is_quiescent(&self) -> (b: bool)
        ensures
            b == self@.quiescent(),
    {
        self.pending.len() == 0 && self.completed.len() == 0
    }

    /// Stores a resource that an op has opened and returns its handle. A
    /// terminated worker stores nothing: the resource is dropped and the
    /// answer is `AlreadyClosed`.
    pub fn open(&mut self, kind: ResourceKind, resource: R) -> (r: Result<u32, ErrorKind>)
        requires
            old(self)@.wf(),
            old(self)@.resources.has_room(),
        ensures
            r == (if old(self)@.life.phase == Phase::Terminated {
                Err::<u32, ErrorKind>(ErrorKind::AlreadyClosed)
            } else {
                Ok::<u32, ErrorKind>(old(self)@.resources.next as u32)
            }),
            final(self)@ == old(self)@.opened(kind, resource),
            final(self)@.wf(),
            final(self).same_identity(old(self)),
    {
        if self.life.phase == Phase::Terminated {
            return Err(ErrorKind::AlreadyClosed);
        }
        let handle = self.resources.add(kind, resource);
        assert(self@.completed =~= old(self)@.completed);
        Ok(handle)
    }

    /// Closes `handle` and hands its resource out for release.
    pub fn close(&mut self, handle: u32) -> (r: Result<Released<R>, ErrorKind>)
        ensures
            r == old(self)@.resources.closing(handle),
            final(self)@ == old(self)@.closed(handle),
            old(self)@.wf() ==> final(self)@.wf(),
            final(self).same_identity(old(self)),
    {
        let r = self.resources.close(handle);
        assert(self@.completed =~= old(self)@.completed);
        proof {
            if old(self)@.wf() && old(self)@.life.phase == Phase::Terminated {
                assert(self@.resources.entries =~= Map::<u32, Entry<R>>::empty());
            }
        }
        r
    }

    /// Moves the lifecycle on after the pending action ended with
    /// `outcome`, and names the next action. The step into `Terminated`
    /// closes every resource, lowest handle first, and hands them out for
    /// release; calls in flight and completions that were not delivered are
    /// dropped.
    pub fn advance(&mut self, outcome: Outcome) -> (step: Step<R>)
        requires
            old(self)@.wf(),
        ensures
            final(self)@ == old(self)@.advanced(outcome),
            final(self)@.wf(),
            final(self).same_identity(old(self)),
            step.action == final(self)@.life.spec_pending(),
            if final(self)@.life.phase == Phase::Terminated && old(self)@.life.phase
                != Phase::Terminated {
                drained(old(self)@.resources, step.released@)
            } else {
                step.released@.len() == 0
            },
    {
        let was = self.life.phase;
        self.life = self.life.advance(outcome);
        let released = if self.life.phase == Phase::Terminated && was != Phase::Terminated {
            self.pending.clear();
            self.completed.clear();
            self.resources.close_all()
        } else {
            Vec::new()
        };
        assert(self@.completed =~= old(self)@.advanced(outcome).completed);
        assert(self@.pending =~= old(self)@.advanced(outcome).pending);
        assert(self@.resources.entries =~= old(self)@.advanced(outcome).resources.entries);
        Step { action: self.life.pending(), released }
    }
}

/// A rejected call leaves the worker exactly as it was, and every rejection
/// is an error that script code can catch.
pub proof fn law_rejection_changes_nothing<R>(w: WorkerModel<R>, call: CallModel, reply: Reply)
    ensures
        w.dispatching(call, reply) is Err ==> w.dispatched(call, reply) == w,
        w.dispatching(call, reply) is Err ==> w.dispatching(call, reply)->Err_0.spec_catchable(),
        w.dispatched(call, reply).resources == w.resources,
        w.dispatched(call, reply).completed == w.completed,
        w.dispatched(call, reply).life == w.life,
        w.dispatched(call, reply).registry == w.registry,
{
}

/// While a category denies, every call of an op that requires it is
/// rejected with `PermissionDenied`, whatever its arguments and whatever
/// the operator would say, and the worker stays exactly as it was: no
/// resource is opened, nothing is put in flight, nothing is remembered.
pub proof fn law_denied_category_blocks_every_op<R>(
    w: WorkerModel<R>,
    call: CallModel,
    reply: Reply,
    category: Category,
)
    requires
        w.life.phase != Phase::Terminated,
        w.registry.resolve(call.op) is Ok,
        w.registry.resolve(call.op)->Ok_0.needs == Some(category),
        w.permissions.state(category) is Deny,
    ensures
        w.dispatching(call, reply) == Err::<Route, ErrorKind>(ErrorKind::PermissionDenied),
        w.dispatched(call, reply) == w,
{
}

/// Under an allow-list, a call whose target no pattern covers is rejected
/// with `PermissionDenied` and changes nothing. A call whose target a
/// pattern covers is not held back by the permissions: it is admitted
/// unless its handle is closed or its token is in flight, and the operator
/// is not asked.
pub proof fn law_allow_list_gates_ops<R>(
    w: WorkerModel<R>,
    call: CallModel,
    reply: Reply,
    category: Category,
    target: Seq<char>,
)
    requires
        w.life.phase != Phase::Terminated,
        w.registry.resolve(call.op) is Ok,
        w.registry.resolve(call.op)->Ok_0.needs == Some(category),
        w.permissions.state(category) is AllowList,
        call.target == Some(target),
    ensures
        !any_covers(category, w.permissions.state(category)->AllowList_0, target)
            ==> w.dispatching(call, reply) == Err::<Route, ErrorKind>(ErrorKind::PermissionDenied)
            && w.dispatched(call, reply) == w,
        any_covers(category, w.permissions.state(category)->AllowList_0, target)
            ==> w.dispatching(call, reply) == (if call.handle is Some && !w.resources.contains(
            call.handle->0,
        ) {
            Err::<Route, ErrorKind>(ErrorKind::NotFound)
        } else if call.mode is Async && w.pending.contains_key(call.mode->Async_0) {
            Err::<Route, ErrorKind>(ErrorKind::InvalidInput)
        } else {
            Ok::<Route, ErrorKind>(WorkerModel::<R>::route(call.mode))
        }),
        w.dispatched(call, reply).permissions == w.permissions,
{
}

/// What the operator confirms for one call is confirmed for that call's
/// category and target alone: for any call with another category or
/// another target, the permissions find afterwards what they found before.
pub proof fn law_confirmation_grants_no_other_call<R>(
    w: WorkerModel<R>,
    call: CallModel,
    reply: Reply,
    other: CallModel,
)
    requires
        w.registry.resolve(call.op) is Ok,
        w.registry.resolve(other.op) is Ok,
        w.registry.resolve(other.op)->Ok_0.needs != w.registry.resolve(call.op)->Ok_0.needs
            || other.target != call.target,
    ensures
        w.dispatched(call, reply).finding(other) == w.finding(other),
{
    let after = w.dispatched(call, reply);
    if after.permissions != w.permissions {
        let category = w.registry.resolve(call.op)->Ok_0.needs->0;
        let target = call.target->0;
        assert(after.permissions == w.permissions.record(category, target, reply));
        match w.registry.resolve(other.op)->Ok_0.needs {
            None => {},
            Some(c) => {
                assert(after.permissions.state(c) == w.permissions.state(c));
                match other.target {
                    None => {},
                    Some(t) => {
                        crate::permission::law_confirmation_is_local(
                            w.permissions,
                            category,
                            target,
                            reply,
                            c,
                            t,
                        );
                    },
                }
            },
        }
    }
}

/// A worker that was just built holds the three standard streams at their
/// handles, each under its own kind, and still holds them when the
/// bootstrap is over: they are there before script code can make a call.
pub proof fn law_standard_streams_are_seeded<R>(
    registry: RegistryModel,
    permissions: PermissionModel,
    stdin: R,
    stdout: R,
    stderr: R,
)
    ensures
        ({
            let built = WorkerModel::fresh(registry, permissions, stdin, stdout, stderr);
            let booted = built.advanced(Outcome::Done);
            &&& built.life.phase == Phase::Created
            &&& booted.life.phase == Phase::Bootstrapped
            &&& booted.resources == built.resources
            &&& built.resources.lookup_typed(STDIN, ResourceKind::Stdin) == Ok::<R, ErrorKind>(
                stdin,
            )
            &&& built.resources.lookup_typed(STDOUT, ResourceKind::Stdout) == Ok::<R, ErrorKind>(
                stdout,
            )
            &&& built.resources.lookup_typed(STDERR, ResourceKind::Stderr) == Ok::<R, ErrorKind>(
                stderr,
            )
            &&& built.resources.next == 3
            &&& built.registry.sealed
            &&& built.wf()
        }),
{
}

/// Completions are delivered in the order in which the calls ended: of two
/// calls in flight, the one that is finished first is queued first, behind
/// what was queued before, and the table is not touched.
pub proof fn law_delivery_follows_completion<R>(
    w: WorkerModel<R>,
    first: u64,
    first_outcome: Result<Seq<u8>, ErrorKind>,
    second: u64,
    second_outcome: Result<Seq<u8>, ErrorKind>,
)
    requires
        first != second,
        w.pending.contains_key(first),
        w.pending.contains_key(second),
    ensures
        ({
            let after = w.finished(first, first_outcome).finished(second, second_outcome);
            &&& after.completed == w.completed.push(w.completion(first, first_outcome)).push(
                w.completion(second, second_outcome),
            )
            &&& after.resources == w.resources
            &&& w.completed.len() == 0 ==> after.delivering() == Some(
                w.completion(first, first_outcome),
            ) && after.delivered().delivering() == Some(w.completion(second, second_outcome))
        }),
{
    let mid = w.finished(first, first_outcome);
    assert(mid.pending.contains_key(second));
    assert(mid.pending[second] == w.pending[second]);
    let after = mid.finished(second, second_outcome);
    if w.completed.len() == 0 {
        assert(after.completed.drop_first() =~= seq![w.completion(second, second_outcome)]);
    }
}

/// The order of issue is no order of delivery: of two asynchronous calls
/// that were admitted one after the other, the later one, if it ends
/// first, is delivered first.
pub proof fn law_later_call_may_complete_first<R>(
    w: WorkerModel<R>,
    early: CallModel,
    late: CallModel,
    reply: Reply,
    early_outcome: Result<Seq<u8>, ErrorKind>,
    late_outcome: Result<Seq<u8>, ErrorKind>,
)
    requires
        early.mode is Async,
        late.mode is Async,
        w.completed.len() == 0,
        w.dispatching(early, reply) is Ok,
        w.dispatched(early, reply).dispatching(late, reply) is Ok,
    ensures
        ({
            let issued = w.dispatched(early, reply).dispatched(late, reply);
            let done = issued.finished(late.mode->Async_0, late_outcome).finished(
                early.mode->Async_0,
                early_outcome,
            );
            &&& early.mode->Async_0 != late.mode->Async_0
            &&& done.delivering() is Some
            &&& done.delivering()->0.token == late.mode->Async_0
            &&& done.delivered().delivering() is Some
            &&& done.delivered().delivering()->0.token == early.mode->Async_0
        }),
{
    let a = early.mode->Async_0;
    let b = late.mode->Async_0;
    let one = w.dispatched(early, reply);
    assert(one.pending.contains_key(a));
    let issued = one.dispatched(late, reply);
    assert(issued.pending.contains_key(a));
    assert(issued.pending.contains_key(b));
    assert(issued.completed.len() == 0);
    law_delivery_follows_completion(issued, b, late_outcome, a, early_outcome);
}

/// A completion that arrives after its handle was closed does no harm: it
/// is queued as `NotFound`, and the table stays as the close left it.
pub proof fn law_completion_after_close<R>(
    w: WorkerModel<R>,
    token: u64,
    outcome: Result<Seq<u8>, ErrorKind>,
    handle: u32,
)
    requires
        w.pending.contains_key(token),
        w.pending[token].handle == Some(handle),
    ensures
        ({
            let after = w.closed(handle).finished(token, outcome);
            &&& after.resources == w.resources.close(handle)
            &&& !after.resources.contains(handle)
            &&& after.completed.len() == w.completed.len() + 1
            &&& after.completed.last().token == token
            &&& after.completed.last().result == Err::<Seq<u8>, ErrorKind>(ErrorKind::NotFound)
            &&& !after.pending.contains_key(token)
        }),
{
}

/// A terminated worker is inert: it takes no call, discards what is
/// reported to it, delivers nothing and holds nothing, and no step moves it.
pub proof fn law_terminated_worker_is_inert<R>(
    w: WorkerModel<R>,
    call: CallModel,
    reply: Reply,
    token: u64,
    outcome: Result<Seq<u8>, ErrorKind>,
    handle: u32,
    step: Outcome,
)
    requires
        w.wf(),
        w.life.phase == Phase::Terminated,
    ensures
        w.dispatching(call, reply) == Err::<Route, ErrorKind>(ErrorKind::AlreadyClosed),
        w.dispatched(call, reply) == w,
        w.finished(token, outcome) == w,
        w.delivering() is None,
        w.resources.lookup(handle) == Err::<R, ErrorKind>(ErrorKind::NotFound),
        w.advanced(step) == w,
{
}

} // verus!

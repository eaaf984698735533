//! The op registry: the named host capabilities that script code may call.
//!
//! Ops are registered while the worker is set up. Sealing the registry ends
//! the setup: from then on no op can be added and none can be replaced.

use crate::error::ErrorKind;
use crate::permission::Category;
use crate::text::{chars_of, same_text};
use vstd::prelude::*;

verus! {

/// Why an op could not be registered.
#[derive(Clone, Copy, Debug, PartialEq, Eq, Structural)]
pub enum RegisterError {
    /// The registry is sealed.
    Sealed,
    /// An op of that name is registered already.
    Shadowed,
}

/// One registered op: its name, and the permission category that a call of
/// it requires, if it requires one.
pub struct OpDecl {
    name: Vec<char>,
    needs: Option<Category>,
}

/// A registered op as a mathematical value.
pub struct OpModel {
    pub name: Seq<char>,
    pub needs: Option<Category>,
}

impl OpDecl {
    pub closed spec fn view(&self) -> OpModel {
        OpModel { name: self.name@, needs: self.needs }
    }

    /// The name of the op.
    pub fn name(&self) -> (name: &Vec<char>)
        ensures
            name@ == self@.name,
    {
        &self.name
    }

    /// The category that a call of the op requires.
    pub fn needs(&self) -> (needs: Option<Category>)
        ensures
            needs == self@.needs,
    {
        self.needs
    }
}

/// The registry as a mathematical value: the ops in the order of their
/// registration, an op's identifier being its index, and whether the
/// registry is sealed.
pub struct RegistryModel {
    pub ops: Seq<OpModel>,
    pub sealed: bool,
}

impl RegistryModel {
    /// The registry before the first registration.
    pub open spec fn empty() -> Self {
        RegistryModel { ops: Seq::empty(), sealed: false }
    }

    /// No two ops bear the same name.
    pub open spec fn wf(self) -> bool {
        forall|i: int, j: int|
            0 <= i < j < self.ops.len() ==> (#[trigger] self.ops[i]).name != (
            #[trigger] self.ops[j]).name
    }

    /// Whether an op of that name is registered.
    pub open spec fn has_name(self, name: Seq<char>) -> bool {
        exists|i: int| 0 <= i < self.ops.len() && (#[trigger] self.ops[i]).name == name
    }

    /// What `register` answers.
    pub open spec fn registering(self, name: Seq<char>) -> Result<usize, RegisterError> {
        if self.sealed {
            Err(RegisterError::Sealed)
        } else if self.has_name(name) {
            Err(RegisterError::Shadowed)
        } else {
            Ok(self.ops.len() as usize)
        }
    }

    /// The registry after `register`.
    pub open spec fn registered(self, name: Seq<char>, needs: Option<Category>) -> Self {
        if self.registering(name) is Ok {
            RegistryModel { ops: self.ops.push(OpModel { name, needs }), ..self }
        } else {
            self
        }
    }

    /// The registry after `seal`.
    pub open spec fn seal(self) -> Self {
        RegistryModel { sealed: true, ..self }
    }

    /// The op behind an identifier.
    pub open spec fn resolve(self, id: usize) -> Result<OpModel, ErrorKind> {
        if id < self.ops.len() {
            Ok(self.ops[id as int])
        } else {
            Err(ErrorKind::InvalidOp)
        }
    }
}

/// The op registry of one worker.
pub struct OpRegistry {
    ops: Vec<OpDecl>,
    sealed: bool,
}

impl OpRegistry {
    /// The registry as a mathematical value.
    pub closed spec fn view(&self) -> RegistryModel {
        RegistryModel {
            ops: Seq::new(self.ops.len() as nat, |i: int| self.ops[i]@),
            sealed: self.sealed,
        }
    }

    /// An open registry without ops.
    pub fn new() -> (registry: OpRegistry)
        ensures
            registry@ == RegistryModel::empty(),
    {
        let registry = OpRegistry { ops: Vec::new(), sealed: false };
        assert(registry@.ops =~= Seq::<OpModel>::empty());
        registry
    }

    /// How many ops are registered.
    pub fn len(&self) -> (n: usize)
        ensures
            n == self@.ops.len(),
    {
        self.ops.len()
    }

    /// Whether the registry is sealed.
    pub fn is_sealed(&self) -> (b: bool)
        ensures
            b == self@.sealed,
    {
        self.sealed
    }

    /// Ends the setup. Sealing a sealed registry changes nothing.
    pub fn seal(&mut self)
        ensures
            final(self)@ == old(self)@.seal(),
    {
        self.sealed = true;
        assert(self@.ops =~= old(self)@.ops);
    }

    /// The identifier of the op called `name`: the first op of that name.
    pub fn lookup_text(&self, name: &Vec<char>) -> (r: Option<usize>)
        ensures
            match r {
                Some(id) => id < self@.ops.len() && self@.ops[id as int].name == name@
                    && forall|j: int| 0 <= j < id ==> (#[trigger] self@.ops[j]).name != name@,
                None => !self@.has_name(name@),
            },
    {
        let mut i: usize = 0;
        while i < self.ops.len()
            invariant
                i <= self.ops.len(),
                forall|j: int| 0 <= j < i ==> (#[trigger] self@.ops[j]).name != name@,
            decreases self.ops.len() - i,
        {
            if same_text(&self.ops[i].name, name) {
                return Some(i);
            }
            i += 1;
        }
        None
    }

    /// The identifier of the op called `name`.
    pub fn lookup(&self, name: &str) -> (r: Option<usize>)
        ensures
            match r {
                Some(id) => id < self@.ops.len() && self@.ops[id as int].name == name@
                    && forall|j: int| 0 <= j < id ==> (#[trigger] self@.ops[j]).name != name@,
                None => !self@.has_name(name@),
            },
    {
        let text = chars_of(name);
        self.lookup_text(&text)
    }

    /// Registers an op under the next free identifier and returns the
    /// identifier. A sealed registry takes no op, and no name is taken twice.
    pub fn register(&mut self, name: &str, needs: Option<Category>) -> (r: Result<
        usize,
        RegisterError,
    >)
        ensures
            r == old(self)@.registering(name@),
            final(self)@ == old(self)@.registered(name@, needs),
            old(self)@.wf() ==> final(self)@.wf(),
    {
        if self.sealed {
            return Err(RegisterError::Sealed);
        }
        let text = chars_of(name);
        match self.lookup_text(&text) {
            Some(_) => Err(RegisterError::Shadowed),
            None => {
                let id = self.ops.len();
                self.ops.push(OpDecl { name: text, needs });
                assert(self@.ops =~= old(self)@.ops.push(OpModel { name: name@, needs }));
                Ok(id)
            },
        }
    }

    /// The op behind `id`.
    pub fn resolve(&self, id: usize) -> (r: Result<&OpDecl, ErrorKind>)
        ensures
            match r {
                Ok(decl) => self@.resolve(id) == Ok::<OpModel, ErrorKind>(decl@),
                Err(e) => self@.resolve(id) == Err::<OpModel, ErrorKind>(e),
            },
    {
        if id < self.ops.len() {
            Ok(&self.ops[id])
        } else {
            Err(ErrorKind::InvalidOp)
        }
    }
}

/// A sealed registry is immutable: it refuses every registration and stays
/// as it is, and nothing unseals it.
pub proof fn law_sealed_is_immutable(m: RegistryModel, name: Seq<char>, needs: Option<Category>)
    ensures
        m.sealed ==> m.registering(name) == Err::<usize, RegisterError>(RegisterError::Sealed)
            && m.registered(name, needs) == m,
        m.registered(name, needs).sealed == m.sealed,
        m.seal().sealed,
        m.seal().ops == m.ops,
{
}

/// A registration never touches the ops that are there: each keeps its
/// identifier, its name and its category, so no op is shadowed.
pub proof fn law_registered_ops_are_kept(
    m: RegistryModel,
    name: Seq<char>,
    needs: Option<Category>,
    id: usize,
)
    requires
        m.resolve(id) is Ok,
    ensures
        m.registered(name, needs).resolve(id) == m.resolve(id),
{
}

} // verus!

//! The state that all workers of a process share.
//!
//! It is built once at startup and only read afterwards: the configuration
//! that the command line gave, the logger, and the handles of the module
//! cache and of the import map. A worker keeps a counted reference to it,
//! and a child worker is built on the reference of its parent.

use crate::logging::Logger;
use crate::permission::{Flags, PermissionModel, Permissions};
use std::rc::Rc;
use vstd::prelude::*;

verus! {

/// The shared state of a process.
pub struct GlobalState {
    flags: Flags,
    interactive: bool,
    logger: Logger,
    cache: String,
    import_map: Option<String>,
}

impl GlobalState {
    /// The flags that the state was built with.
    pub closed spec fn spec_flags(&self) -> Flags {
        self.flags
    }

    /// Whether an operator can be asked.
    pub closed spec fn spec_interactive(&self) -> bool {
        self.interactive
    }

    /// The logger that the state was built with.
    pub closed spec fn spec_logger(&self) -> Logger {
        self.logger
    }

    /// The handle of the module cache.
    pub closed spec fn spec_cache(&self) -> Seq<char> {
        self.cache@
    }

    /// The handle of the import map.
    pub closed spec fn spec_import_map(&self) -> Option<Seq<char>> {
        match self.import_map {
            Some(m) => Some(m@),
            None => None,
        }
    }

    /// The permissions that every worker on this state starts with.
    pub open spec fn permissions(&self) -> PermissionModel {
        self.spec_flags().permissions(self.spec_interactive())
    }

    /// Builds the shared state.
    pub fn new(
        flags: Flags,
        interactive: bool,
        logger: Logger,
        cache: String,
        import_map: Option<String>,
    ) -> (state: Rc<GlobalState>)
        ensures
            state.spec_flags() == flags,
            state.spec_interactive() == interactive,
            state.spec_logger() == logger,
            state.spec_cache() == cache@,
            state.spec_import_map() == (match import_map {
                Some(m) => Some(m@),
                None => None,
            }),
    {
        Rc::new(GlobalState { flags, interactive, logger, cache, import_map })
    }

    /// The flags.
    pub fn flags(&self) -> (flags: &Flags)
        ensures
            *flags == self.spec_flags(),
    {
        &self.flags
    }

    /// Whether an operator can be asked.
    pub fn interactive(&self) -> (b: bool)
        ensures
            b == self.spec_interactive(),
    {
        self.interactive
    }

    /// The logger.
    pub fn logger(&self) -> (logger: Logger)
        ensures
            logger == self.spec_logger(),
    {
        self.logger
    }

    /// The handle of the module cache.
    pub fn cache(&self) -> (cache: &String)
        ensures
            cache@ == self.spec_cache(),
    {
        &self.cache
    }

    /// The handle of the import map, if there is one.
    pub fn import_map(&self) -> (map: Option<&String>)
        ensures
            match map {
                Some(m) => self.spec_import_map() == Some(m@),
                None => self.spec_import_map() is None,
            },
    {
        match &self.import_map {
            Some(m) => Some(m),
            None => None,
        }
    }

    /// A permission checker in the state that the flags configure, with
    /// nothing confirmed: what a worker starts with.
    pub fn snapshot(&self) -> (p: Permissions)
        ensures
            p@ == self.permissions(),
    {
        Permissions::from_flags(&self.flags, self.interactive)
    }
}

} // verus!

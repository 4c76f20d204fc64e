//! The module registry: tagged module names resolved to a fixed module set.
//!
//! Modules are registered under names.  The known set is closed, so the
//! registry resolves names to a sum type at registration time and rejects an
//! unknown name with a definite error instead of silently ignoring it.
use vstd::prelude::*;

verus! {

/// The closed set of registrable modules.
#[derive(Clone, Copy, Debug, PartialEq, Eq, Structural)]
pub enum RegisteredModule {
    Ownable,
    Metadata,
}

/// The registry's own error union.
#[derive(Debug, PartialEq, Eq)]
pub enum ManagerError {
    /// An error passed through from the host's storage conventions.
    Std(String),
    CustomError { val: String },
}

/// The module a name resolves to, if any.
pub open spec fn spec_module_of(name: Seq<char>) -> Option<RegisteredModule> {
    if name == "ownable"@ {
        Some(RegisteredModule::Ownable)
    } else if name == "metadata"@ {
        Some(RegisteredModule::Metadata)
    } else {
        None
    }
}

/// A registry of resolved modules, in registration order.
#[derive(Debug, PartialEq, Eq)]
pub struct Manager {
    pub modules: Vec<RegisteredModule>,
}

impl Manager {
    /// An empty registry.
    pub fn new() -> (m: Manager)
        ensures
            m.modules@.len() == 0,
    {
        Manager { modules: Vec::new() }
    }

    /// Appends one module.
    pub fn register(&mut self, module: RegisteredModule)
        ensures
            final(self).modules@ == old(self).modules@.push(module),
    {
        self.modules.push(module);
    }
}

/// Resolves one module name.
pub fn module_of(name: &String) -> (r: Option<RegisteredModule>)
    ensures
        r == spec_module_of(name@),
{
    let ownable_name: String = "ownable".to_owned();
    let metadata_name: String = "metadata".to_owned();
    proof {
        reveal_strlit("ownable");
        reveal_strlit("metadata");
    }
    if *name == ownable_name {
        Some(RegisteredModule::Ownable)
    } else if *name == metadata_name {
        Some(RegisteredModule::Metadata)
    } else {
        None
    }
}

/// Builds a registry from the requested module names, in order.  An unknown
/// name is rejected with a definite error naming it, never silently skipped.
pub fn get_manager(module_names: &Vec<String>) -> (r: Result<Manager, ManagerError>)
    ensures
        r is Ok <==> forall|k: int|
            0 <= k < module_names@.len() ==> spec_module_of(#[trigger] module_names@[k]@) is Some,
        r matches Ok(m) ==> m.modules@.len() == module_names@.len() && forall|k: int|
            0 <= k < module_names@.len() ==> Some(#[trigger] m.modules@[k]) == spec_module_of(
                module_names@[k]@,
            ),
        r matches Err(e) ==> (e matches ManagerError::CustomError { val } && spec_module_of(val@)
            is None),
{
    let mut contract_manager = Manager::new();
    let mut i: usize = 0;
    while i < module_names.len()
        invariant
            i <= module_names@.len(),
            contract_manager.modules@.len() == i,
            forall|k: int|
                0 <= k < i ==> Some(#[trigger] contract_manager.modules@[k]) == spec_module_of(
                    module_names@[k]@,
                ),
        decreases module_names@.len() - i,
    {
        let resolved = module_of(&module_names[i]);
        match resolved {
            Some(module) => {
                contract_manager.register(module);
            },
            None => {
                return Err(ManagerError::CustomError { val: module_names[i].clone() });
            },
        }
        i = i + 1;
    }
    proof {
        assert forall|k: int|
            0 <= k < module_names@.len() implies spec_module_of(
            #[trigger] module_names@[k]@,
        ) is Some by {
            assert(Some(contract_manager.modules@[k]) == spec_module_of(module_names@[k]@));
        }
    }
    Ok(contract_manager)
}

} // verus!

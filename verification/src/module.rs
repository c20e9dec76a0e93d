//! The modules that extensions and data objects belong to.

use vstd::prelude::*;

verus! {

/// A module of the system: the one that accounts belong to, none in particular,
/// or, by its name, one that this library has no part in.
#[derive(Debug, PartialEq, Eq, Hash)]
pub enum Module {
    /// Account management.
    Accounts,
    /// No particular module.
    Unknown,
    /// Any other module, by its name.
    Other(String),
}

impl Module {
    /// How a module is written. The words are this library's own choice.
    pub open spec fn label(self) -> Seq<char> {
        match self {
            Module::Accounts => "ACCOUNTS"@,
            Module::Unknown => "UNKNOWN"@,
            Module::Other(name) => name@,
        }
    }

    /// Returns how the module is written.
    pub fn to_text(&self) -> (r: String)
        ensures
            r@ == self.label(),
    {
        match self {
            Module::Accounts => "ACCOUNTS".to_string(),
            Module::Unknown => "UNKNOWN".to_string(),
            Module::Other(name) => name.clone(),
        }
    }
}

impl Clone for Module {
    fn clone(&self) -> (r: Module)
        ensures
            r == *self,
    {
        match self {
            Module::Accounts => Module::Accounts,
            Module::Unknown => Module::Unknown,
            Module::Other(name) => Module::Other(name.clone()),
        }
    }
}

impl Default for Module {
    fn default() -> (r: Module)
        ensures
            r == Module::Unknown,
    {
        Module::Unknown
    }
}

/// Each module is written in its own word, and one that is known by its name is
/// written by that name.
pub proof fn modules_are_written_by_name(module: Module, text: String)
    requires
        call_ensures(Module::to_text, (&module,), text),
    ensures
        module is Accounts ==> text@ == "ACCOUNTS"@,
        module is Unknown ==> text@ == "UNKNOWN"@,
        module matches Module::Other(name) ==> text@ == name@,
{
}

} // verus!

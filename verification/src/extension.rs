//! What an extension tells about itself.

use vstd::prelude::*;
use vstd::string::StringExecFns;

use crate::module::Module;

verus! {

/// The description of an extension called `name` for the module written `label`.
pub open spec fn description_text(name: Seq<char>, label: Seq<char>) -> Seq<char> {
    name + " is an extension that is designed to be used for "@ + label
}

/// What an extension of a module says about itself.
pub trait Extension {
    /// The id of the extension, by default its name. Best the name of its crate,
    /// such as `warp-module-ext`.
    fn id(&self) -> (r: String)
        default_ensures
            call_ensures(Self::name, (self,), r),
    {
        self.name()
    }

    /// The name of the extension.
    fn name(&self) -> (r: String);

    /// A sentence that says what the extension is for.
    fn description(&self) -> (r: String)
        default_ensures
            exists|name: String, module: Module|
                #![trigger call_ensures(Self::name, (self,), name), call_ensures(Self::module, (self,), module)]
                call_ensures(Self::name, (self,), name) && call_ensures(
                    Self::module,
                    (self,),
                    module,
                ) && r@ == description_text(name@, module.label()),
    {
        let name = self.name();
        let module = self.module();
        let ghost called = name;
        let text = name.concat(" is an extension that is designed to be used for ").concat(
            module.to_text().as_str(),
        );
        assert(call_ensures(Self::name, (self,), called));
        assert(call_ensures(Self::module, (self,), module));
        text
    }

    /// The module that the extension is meant for.
    fn module(&self) -> (r: Module);
}

} // verus!

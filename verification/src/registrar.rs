use crate::function::{Function, FunctionProxy};
use crate::value::LoadError;
use libloading::Library;
use std::sync::Arc;
use vstd::hash_map::StringHashMap;
use vstd::prelude::*;

verus! {

/// The version of the registration protocol that this host speaks. A plugin
/// states in its declaration the version it was built against.
pub const ABI_VERSION: u32 = 1;

/// The name under which a plugin exports its declaration.
pub fn declaration_symbol() -> (symbol: &'static str)
    ensures
        symbol@ == "plugin_declaration"@,
{
    "plugin_declaration"
}

/// What a plugin sees of the host while it registers: it can publish
/// functions, and nothing else.
pub trait PluginRegistrar {
    /// The functions published so far, by name.
    spec fn registered(&self) -> Map<Seq<char>, Box<dyn Function>>;

    /// Publishes `function` under `name`. A function published earlier under
    /// the same name gives way to it.
    fn register_function(&mut self, name: &str, function: Box<dyn Function>)
        ensures
            final(self).registered().contains_key(name@),
            final(self).registered()[name@] == function,
            final(self).registered().remove(name@) == old(self).registered().remove(name@),
    ;
}

/// Collects what one plugin registers, each function bound to the plugin's
/// library, until the manager takes the collection over.
pub struct PluginRegistrarImpl {
    functions: StringHashMap<Arc<FunctionProxy>>,
    lib: Arc<Library>,
}

impl View for PluginRegistrarImpl {
    type V = Map<Seq<char>, Arc<FunctionProxy>>;

    closed spec fn view(&self) -> Self::V {
        self.functions@
    }
}

impl PluginRegistrarImpl {
    /// The library whose plugin this registrar serves.
    pub closed spec fn library(&self) -> Arc<Library> {
        self.lib
    }

    /// A registrar for the plugin in `lib`, with nothing registered.
    pub fn new(lib: Arc<Library>) -> (registrar: PluginRegistrarImpl)
        ensures
            registrar@ == Map::<Seq<char>, Arc<FunctionProxy>>::empty(),
            registrar.library() == lib,
    {
        PluginRegistrarImpl { lib, functions: StringHashMap::new() }
    }

    /// Admits the plugin in `lib` to registration if its declaration states
    /// the host's protocol version, and turns it away otherwise. No registrar
    /// exists for a plugin that was turned away, so its entry point has
    /// nothing to be called with.
    pub fn for_declaration(lib: Arc<Library>, abi_version: u32) -> (admitted: Result<
        PluginRegistrarImpl,
        LoadError,
    >)
        ensures
            abi_version == ABI_VERSION ==> (admitted matches Ok(registrar) && registrar@
                == Map::<Seq<char>, Arc<FunctionProxy>>::empty() && registrar.library() == lib),
            abi_version != ABI_VERSION ==> admitted == Err::<PluginRegistrarImpl, LoadError>(
                LoadError::AbiMismatch,
            ),
    {
        if abi_version == ABI_VERSION {
            Ok(PluginRegistrarImpl::new(lib))
        } else {
            Err(LoadError::AbiMismatch)
        }
    }

    /// Gives up the collection.
    pub(crate) fn into_functions(self) -> (functions: StringHashMap<Arc<FunctionProxy>>)
        ensures
            functions@ == self@,
    {
        self.functions
    }
}

impl PluginRegistrar for PluginRegistrarImpl {
    open spec fn registered(&self) -> Map<Seq<char>, Box<dyn Function>> {
        Map::new(
            |name: Seq<char>| self@.contains_key(name),
            |name: Seq<char>| self@[name].callable(),
        )
    }

    /// Wraps `function` in a proxy that shares this registrar's library and
    /// files it under `name`; every other name keeps what it had.
    fn register_function(&mut self, name: &str, function: Box<dyn Function>)
        ensures
            final(self)@.dom() == old(self)@.dom().insert(name@),
            final(self)@[name@].callable() == function,
            final(self)@[name@].library() == old(self).library(),
            final(self)@.remove(name@) == old(self)@.remove(name@),
            final(self).library() == old(self).library(),
    {
        let proxy = FunctionProxy::new(function, &self.lib);
        self.functions.insert(name.to_owned(), Arc::new(proxy));
        proof {
            assert(self@.dom() =~= old(self)@.dom().insert(name@));
            assert(self@.remove(name@) =~= old(self)@.remove(name@));
            assert(self.registered().remove(name@) =~= old(self).registered().remove(name@));
        }
    }
}

} // verus!

use crate::function::{Context, Function, FunctionProxy};
use crate::library::share;
use crate::registrar::PluginRegistrarImpl;
use crate::value::{InvocationError, LoadError, Value};
use std::sync::Arc;
use vstd::hash_map::StringHashMap;
use vstd::prelude::*;

verus! {

/// The function table as contracts see it: each registered name with the
/// proxy that answers to it.
pub type FunctionTable<F: ?Sized = dyn Function> = Map<Seq<char>, Arc<FunctionProxy<F>>>;

/// `refusal` says that `name` is not registered.
pub open spec fn reports_missing(refusal: InvocationError, name: Seq<char>) -> bool {
    refusal matches InvocationError::NotFound(missing) && missing@ == name
}

/// `outcome` is the refusal that a call to the unregistered `name` gets.
pub open spec fn not_found(outcome: Result<Vec<Value>, InvocationError>, name: Seq<char>) -> bool {
    outcome matches Err(refusal) && reports_missing(refusal, name)
}

/// `outcome` is what a call to `name` may return against `table`: an outcome
/// of the function registered under `name`, for this context and these
/// arguments, or the refusal if there is none.
pub open spec fn answers<F: Function + ?Sized>(
    table: FunctionTable<F>,
    context: &Arc<dyn Context>,
    name: Seq<char>,
    args: Seq<Value>,
    outcome: Result<Vec<Value>, InvocationError>,
) -> bool {
    if table.contains_key(name) {
        table[name].admits(context, args, outcome)
    } else {
        not_found(outcome, name)
    }
}

/// The table once the functions of one more plugin have been taken in: a name
/// that the plugin registered answers to the plugin's function, every other
/// name to what it answered to before.
pub open spec fn merged<F: ?Sized>(
    table: FunctionTable<F>,
    registered: FunctionTable<F>,
) -> FunctionTable<F> {
    table.union_prefer_right(registered)
}

/// Owns the function table: takes in what plugins register, dispatches calls
/// by name, and lets go of everything at once.
pub struct PluginManager {
    functions: StringHashMap<Arc<FunctionProxy>>,
}

impl View for PluginManager {
    type V = FunctionTable;

    closed spec fn view(&self) -> Self::V {
        self.functions@
    }
}

impl PluginManager {
    /// A manager that knows no function.
    pub fn new() -> (manager: PluginManager)
        ensures
            manager@ == FunctionTable::<dyn Function>::empty(),
    {
        PluginManager { functions: StringHashMap::new() }
    }

    /// Calls the function registered under `function` with `context` and
    /// `args`, and returns its outcome as it came. An unregistered name is
    /// refused with `NotFound`, which carries the name.
    pub fn call(&self, context: &Arc<dyn Context>, function: &str, args: &[Value]) -> (outcome:
        Result<Vec<Value>, InvocationError>)
        ensures
            answers(self@, context, function@, args@, outcome),
    {
        match self.lookup(function) {
            Ok(proxy) => proxy.call(context, args),
            Err(refusal) => Err(refusal),
        }
    }

    /// Finds the function registered under `function` and takes a share in
    /// its proxy, so that the function can be invoked, and the library behind
    /// it stays mapped, whatever becomes of the table in the meantime.
    pub fn lookup(&self, function: &str) -> (found: Result<Arc<FunctionProxy>, InvocationError>)
        ensures
            match found {
                Ok(proxy) => self@.contains_key(function@) && proxy == self@[function@],
                Err(refusal) => !self@.contains_key(function@) && reports_missing(
                    refusal,
                    function@,
                ),
            },
    {
        match self.functions.get(function) {
            Some(proxy) => Ok(share(proxy)),
            None => Err(InvocationError::NotFound(function.to_owned())),
        }
    }

    /// Ends the loading of one plugin. `handshake` is how its registration
    /// went: the registrar that its entry point filled, or the reason why the
    /// plugin never got that far. All of the registrar's functions enter the
    /// table in one step; a failed handshake is handed back and leaves the
    /// table as it was.
    pub fn load(&mut self, handshake: Result<PluginRegistrarImpl, LoadError>) -> (loaded: Result<
        (),
        LoadError,
    >)
        ensures
            match handshake {
                Ok(registrar) => loaded is Ok && final(self)@ == merged(old(self)@, registrar@),
                Err(reason) => loaded == Err::<(), LoadError>(reason) && final(self)@ == old(
                    self,
                )@,
            },
    {
        match handshake {
            Ok(registrar) => {
                self.functions.union_prefer_right(registrar.into_functions());
                Ok(())
            },
            Err(reason) => Err(reason),
        }
    }

    /// Forgets every function, and with each its share in a library.
    pub fn unload(&mut self)
        ensures
            final(self)@ == FunctionTable::<dyn Function>::empty(),
    {
        self.functions.clear();
    }
}

impl Default for PluginManager {
    fn default() -> (manager: PluginManager)
        ensures
            manager@ == FunctionTable::<dyn Function>::empty(),
    {
        PluginManager::new()
    }
}

} // verus!

use crate::library::share;
use crate::value::{InvocationError, Value};
use libloading::Library;
use std::sync::Arc;
use vstd::prelude::*;

verus! {

/// The services that the host offers to every function it invokes.
pub trait Context: Send + Sync {
    /// A service of the host, for a function to turn to while it runs.
    fn interface1(&self);
}

/// A function that a plugin publishes.
///
/// What an implementation may return is its own affair. It says so through two
/// relations: `admits` holds of every outcome that `call` can produce for the
/// given context and arguments, and `describes` of every text that `help` can
/// hand out. Nothing here asks that a call succeeds or that two calls agree,
/// and a function that says nothing admits everything.
pub trait Function: Send + Sync {
    /// Whether `call` may return `outcome` for `context` and `args`.
    open spec fn admits(
        &self,
        context: &Arc<dyn Context>,
        args: Seq<Value>,
        outcome: Result<Vec<Value>, InvocationError>,
    ) -> bool {
        true
    }

    /// Whether `help` may return `help`.
    open spec fn describes(&self, help: Option<&str>) -> bool {
        true
    }

    /// Runs the function on `args`, with the host's services at hand.
    fn call(&self, context: &Arc<dyn Context>, args: &[Value]) -> (outcome: Result<
        Vec<Value>,
        InvocationError,
    >)
        ensures
            self.admits(context, args@, outcome),
    ;

    /// A text for the function's users, if it has one.
    fn help(&self) -> (help: Option<&str>)
        ensures
            self.describes(help),
    ;
}

/// A function together with a share in the library that holds its code.
///
/// The library stays mapped for as long as the proxy lives: the proxy owns one
/// of its references, and gives the function up before it gives up that
/// reference. `F` is the function's type; left out, it is any function at all.
pub struct FunctionProxy<F: ?Sized = dyn Function> {
    function: Box<F>,
    _lib: Arc<Library>,
}

impl<F: ?Sized> FunctionProxy<F> {
    /// The function that this proxy stands for.
    pub closed spec fn callable(&self) -> Box<F> {
        self.function
    }

    /// The library that this proxy keeps mapped.
    pub closed spec fn library(&self) -> Arc<Library> {
        self._lib
    }

    /// Binds `function` to `library`, of which the proxy takes a share of its
    /// own.
    pub fn new(function: Box<F>, library: &Arc<Library>) -> (proxy: Self)
        ensures
            proxy.callable() == function,
            proxy.library() == *library,
    {
        FunctionProxy { function, _lib: share(library) }
    }

    /// A proxy is no more than the function and the library it was made of.
    pub proof fn lemma_determined_by_parts(self, other: Self)
        requires
            self.callable() == other.callable(),
            self.library() == other.library(),
        ensures
            self == other,
    {
    }
}

impl<F: Function + ?Sized> Function for FunctionProxy<F> {
    open spec fn admits(
        &self,
        context: &Arc<dyn Context>,
        args: Seq<Value>,
        outcome: Result<Vec<Value>, InvocationError>,
    ) -> bool {
        self.callable().admits(context, args, outcome)
    }

    open spec fn describes(&self, help: Option<&str>) -> bool {
        self.callable().describes(help)
    }

    /// Hands context and arguments to the function and its outcome back,
    /// untouched.
    fn call(&self, context: &Arc<dyn Context>, args: &[Value]) -> (outcome: Result<
        Vec<Value>,
        InvocationError,
    >) {
        self.function.call(context, args)
    }

    /// The function's own help text.
    fn help(&self) -> (help: Option<&str>) {
        self.function.help()
    }
}

} // verus!

use crate::function::{Context, Function, FunctionProxy};
use crate::manager::{answers, merged, not_found, FunctionTable};
use crate::value::{InvocationError, Value};
use std::sync::Arc;
use vstd::prelude::*;

verus! {

/// A proxy is transparent: it admits exactly the outcomes that the function
/// behind it admits, and hands out exactly the help texts that the function
/// hands out.
pub proof fn lemma_proxy_is_transparent<F: Function + ?Sized>(
    proxy: FunctionProxy<F>,
    context: &Arc<dyn Context>,
    args: Seq<Value>,
    outcome: Result<Vec<Value>, InvocationError>,
    help: Option<&str>,
)
    ensures
        proxy.admits(context, args, outcome) <==> proxy.callable().admits(context, args, outcome),
        proxy.describes(help) <==> proxy.callable().describes(help),
{
}

/// Once a plugin is loaded, a call to a name that it registered returns what
/// the registered function itself returns for the same context and arguments:
/// every outcome of the call is an outcome of the function, and every outcome
/// of the function is one that the call may return.
pub proof fn lemma_call_reaches_registered_function<F: Function + ?Sized>(
    table: FunctionTable<F>,
    registered: FunctionTable<F>,
    name: Seq<char>,
    function: Box<F>,
    context: &Arc<dyn Context>,
    args: Seq<Value>,
    outcome: Result<Vec<Value>, InvocationError>,
)
    requires
        registered.contains_key(name),
        registered[name].callable() == function,
    ensures
        answers(merged(table, registered), context, name, args, outcome) <==> function.admits(
            context,
            args,
            outcome,
        ),
{
}

/// What a registrar holds does not reach the table before `load` takes it in:
/// whatever `pending` is, a call against `table` goes by `table` alone. A
/// name that only the registrar knows is refused, and a name that the table
/// knows answers to the table's own function.
pub proof fn lemma_pending_registration_is_invisible<F: Function + ?Sized>(
    table: FunctionTable<F>,
    pending: FunctionTable<F>,
    name: Seq<char>,
    context: &Arc<dyn Context>,
    args: Seq<Value>,
    outcome: Result<Vec<Value>, InvocationError>,
)
    requires
        pending.contains_key(name),
    ensures
        !table.contains_key(name) ==> (answers(table, context, name, args, outcome) <==> not_found(
            outcome,
            name,
        )),
        table.contains_key(name) ==> (answers(table, context, name, args, outcome)
            <==> table[name].admits(context, args, outcome)),
{
}

/// A load takes a plugin in whole and in one step: in the table that it
/// leaves, every name that the plugin registered answers to the plugin's
/// function, and every other name is as it was, registered or not.
pub proof fn lemma_load_takes_in_all_at_once<F: Function + ?Sized>(
    table: FunctionTable<F>,
    registered: FunctionTable<F>,
    name: Seq<char>,
)
    ensures
        registered.contains_key(name) ==> merged(table, registered).contains_key(name) && merged(
            table,
            registered,
        )[name] == registered[name],
        !registered.contains_key(name) ==> (merged(table, registered).contains_key(name)
            <==> table.contains_key(name)),
        !registered.contains_key(name) && table.contains_key(name) ==> merged(
            table,
            registered,
        )[name] == table[name],
{
}

/// Against the empty table, which is what `unload` leaves whatever was loaded
/// before, every name is refused.
pub proof fn lemma_empty_table_refuses_every_name<F: Function + ?Sized>(
    name: Seq<char>,
    context: &Arc<dyn Context>,
    args: Seq<Value>,
    outcome: Result<Vec<Value>, InvocationError>,
)
    ensures
        answers(FunctionTable::<F>::empty(), context, name, args, outcome) <==> not_found(
            outcome,
            name,
        ),
{
}

/// Where two plugins register the same name, the one loaded second answers.
pub proof fn lemma_second_load_wins<F: Function + ?Sized>(
    table: FunctionTable<F>,
    first: FunctionTable<F>,
    second: FunctionTable<F>,
    name: Seq<char>,
    context: &Arc<dyn Context>,
    args: Seq<Value>,
    outcome: Result<Vec<Value>, InvocationError>,
)
    requires
        first.contains_key(name),
        second.contains_key(name),
    ensures
        merged(merged(table, first), second)[name] == second[name],
        answers(merged(merged(table, first), second), context, name, args, outcome)
            <==> second[name].admits(context, args, outcome),
{
}

/// Loading a second plugin leaves alone every name that it does not register
/// itself: such a name answers as it did after the first load, so a name that
/// only the first plugin registered still answers to the first plugin's
/// function.
pub proof fn lemma_other_names_are_unaffected<F: Function + ?Sized>(
    table: FunctionTable<F>,
    first: FunctionTable<F>,
    second: FunctionTable<F>,
    name: Seq<char>,
)
    requires
        !second.contains_key(name),
    ensures
        merged(merged(table, first), second).contains_key(name) <==> merged(
            table,
            first,
        ).contains_key(name),
        merged(table, first).contains_key(name) ==> merged(merged(table, first), second)[name]
            == merged(table, first)[name],
        first.contains_key(name) ==> merged(merged(table, first), second)[name] == first[name],
{
}

/// A name that is not registered is refused, and with nothing else: the
/// refusal carries the name that was asked for.
pub proof fn lemma_unregistered_name_is_refused<F: Function + ?Sized>(
    table: FunctionTable<F>,
    name: Seq<char>,
    context: &Arc<dyn Context>,
    args: Seq<Value>,
    outcome: Result<Vec<Value>, InvocationError>,
)
    requires
        !table.contains_key(name),
    ensures
        answers(table, context, name, args, outcome) <==> not_found(outcome, name),
{
}

} // verus!

//! The serving side's handlers: one method for each registered procedure.

use crate::rpc::BackendRpcArgVariant;
use crate::rpc::BackendRpcRetVariant;
use crate::rpc::BackendRpcRetView;
use crate::rpc::ExampleMessage;
use crate::rpc::ExampleReturn;
use vstd::prelude::*;

verus! {

/// Tags what the example procedure's handler returned with its procedure.
pub fn wrap_example_return(outcome: Result<ExampleReturn, ()>) -> (r: Result<
    BackendRpcRetVariant,
    (),
>)
    ensures
        match outcome {
            Ok(res) => r matches Ok(v) && v@ == BackendRpcRetView::ExampleRpc(res@),
            Err(_) => r is Err,
        },
{
    match outcome {
        Ok(res) => Ok(BackendRpcRetVariant::ExampleRpc(res)),
        Err(e) => Err(e),
    }
}

/// What an application implements to serve the registered procedures.
pub trait BackendRpcHandler {
    /// Serves the example procedure.
    fn handle_example_message(&mut self, msg: ExampleMessage) -> Result<ExampleReturn, ()>;

    /// Routes an argument to the method of its procedure, and tags what the
    /// method returns with that procedure. A result is thus always the result
    /// of the procedure that the argument was for.
    fn handle_rpc_received(&mut self, arg: BackendRpcArgVariant) -> (r: Result<
        BackendRpcRetVariant,
        (),
    >)
        default_ensures
            r matches Ok(v) ==> v@.kind() == arg@.kind(),
    {
        match arg {
            BackendRpcArgVariant::ExampleRpc(m) => wrap_example_return(
                self.handle_example_message(m),
            ),
        }
    }
}

} // verus!

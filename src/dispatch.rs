//! Invoking a tool on a raw tool-call payload: find the arguments, decode them into
//! the tool's parameters, and call the tool with what was decoded.
use vstd::prelude::*;
use crate::normalize::{normalize_arguments, normalized};

verus! {

/// A capability a user implements to expose a function to the model.
///
/// The parameter type's schema and the description are all the model sees of the
/// tool, so every field of the parameters should carry a description.
pub trait Tool: Send + Sync {
    /// The tool's parameter type, decoded from the model's JSON arguments.
    type Params;

    /// What a failed call reports.
    type Error;

    /// The pending result of one call.
    type Call<'a>: core::future::Future<Output = Result<String, Self::Error>> + Send + Sync
        + 'a where Self: 'a;

    /// The name the model calls the tool by.
    fn name() -> &'static str;

    /// What the tool does, as the model reads it.
    fn description() -> &'static str;

    /// Calls the tool. An error is handed up to whoever dispatched the call; to let
    /// the model see a failure, return its text as the result instead.
    fn call<'a>(&'a mut self, parameters: Self::Params) -> Self::Call<'a>;
}

/// Runs one tool call: the arguments found in `raw` go to `decode`; when it
/// succeeds, `invoke` is called once with what it decoded and its result is
/// returned as it is; when it fails, its error is returned and `invoke` is not
/// called.
pub fn dispatch<P, R, E, D, I>(raw: serde_json::Value, decode: D, invoke: I) -> (r: Result<R, E>) where
    D: FnOnce(serde_json::Value) -> Result<P, E>,
    I: FnOnce(P) -> R,

    requires
        decode.requires((normalized(raw),)),
        forall|p: P| decode.ensures((normalized(raw),), Ok::<P, E>(p)) ==> invoke.requires((p,)),
    ensures
        exists|d: Result<P, E>|
            #![trigger decode.ensures((normalized(raw),), d)]
            decode.ensures((normalized(raw),), d) && match d {
                Ok(p) => r is Ok && invoke.ensures((p,), r->Ok_0),
                Err(e) => r == Err::<R, E>(e),
            },
{
    let arguments = normalize_arguments(raw);
    let decoded = decode(arguments);
    match decoded {
        Ok(p) => {
            let out = invoke(p);
            Ok(out)
        },
        Err(e) => Err(e),
    }
}

/// A tool whose name, description and schema are known only at run time, such as
/// one discovered from an outside tool provider. It wraps the handler that runs
/// the tool on JSON arguments.
pub struct DynamicToolHolder<F> {
    handler: F,
}

impl<F> DynamicToolHolder<F> {
    /// The handler that runs the tool.
    pub closed spec fn handler(&self) -> F {
        self.handler
    }

    /// Wraps `handler`.
    pub fn new(handler: F) -> (r: Self)
        ensures
            r.handler() == handler,
    {
        DynamicToolHolder { handler }
    }

    /// Runs the handler once on `raw`, as it is, and returns what it returns.
    pub fn call<R>(&mut self, raw: serde_json::Value) -> (r: R) where F: FnMut(serde_json::Value) -> R
        requires
            old(self).handler().requires((raw,)),
        ensures
            old(self).handler().ensures((raw,), r),
    {
        (self.handler)(raw)
    }
}

/// Runs a dynamic tool on a raw tool-call payload: the arguments found in `raw`
/// are handed to the holder, which passes them to its handler once.
pub fn dispatch_dynamic<F, R>(holder: &mut DynamicToolHolder<F>, raw: serde_json::Value) -> (r:
    R) where F: FnMut(serde_json::Value) -> R
    requires
        old(holder).handler().requires((normalized(raw),)),
    ensures
        old(holder).handler().ensures((normalized(raw),), r),
{
    let arguments = normalize_arguments(raw);
    holder.call(arguments)
}

} // verus!

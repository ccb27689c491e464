//! Payload hooks: capture of outbound and inbound network payloads around
//! the engine's compress and decompress entry points.

use crate::config::Config;
use crate::interceptor::hook_result;
use crate::interceptor::installs;
use crate::interceptor::record;
use crate::interceptor::EngineOutcome;
use crate::interceptor::HookError;
use crate::interceptor::Interceptor;
use crate::notifier::delivers;
use crate::notifier::notify_request;
use crate::notifier::notify_response;
use crate::notifier::request_path;
use crate::notifier::response_path;
use crate::notifier::Notification;
use crate::symbols::LookupError;
use vstd::prelude::*;

verus! {

/// A moment in a hooked call at which the hook decides what to do. A buffer
/// that is absent stands for a null pointer.
pub enum HookCall {
    /// The game has called the hooked function with this argument.
    Entered(Option<Vec<u8>>),
    /// The trampoline has returned this value.
    Returned(Option<Vec<u8>>),
}

/// What the hook does, in the order given.
pub enum HookAction {
    /// Hand the delivery to the notifier transport.
    Notify(Notification),
    /// Call the trampoline with the argument the game passed.
    Forward,
}

/// The actions consist of one delivery of `bytes` to `path`.
pub open spec fn notifies_only(
    actions: Seq<HookAction>,
    config: Config,
    path: Seq<char>,
    bytes: Seq<u8>,
) -> bool {
    &&& actions.len() == 1
    &&& actions[0] matches HookAction::Notify(n)
    &&& delivers(n, config, path, bytes)
}

/// The actions deliver `bytes` to `path` and only then forward the call.
pub open spec fn notifies_then_forwards(
    actions: Seq<HookAction>,
    config: Config,
    path: Seq<char>,
    bytes: Seq<u8>,
) -> bool {
    &&& actions.len() == 2
    &&& actions[0] matches HookAction::Notify(n)
    &&& delivers(n, config, path, bytes)
    &&& actions[1] is Forward
}

/// The actions consist of forwarding the call.
pub open spec fn forwards_only(actions: Seq<HookAction>) -> bool {
    actions.len() == 1 && actions[0] is Forward
}

/// Outbound hook. The buffer the game passes in is captured before the call
/// is forwarded, so the capture does not depend on what the trampoline does;
/// a null buffer is forwarded without a capture. Nothing is left to do when
/// the trampoline returns.
pub fn hooked_compress_request(config: &Config, call: HookCall) -> (actions: Vec<HookAction>)
    ensures
        match call {
            HookCall::Entered(Some(data)) => notifies_then_forwards(
                actions@,
                *config,
                request_path(),
                data@,
            ),
            HookCall::Entered(None) => forwards_only(actions@),
            HookCall::Returned(_) => actions@.len() == 0,
        },
{
    let mut actions: Vec<HookAction> = Vec::new();
    match call {
        HookCall::Entered(Some(data)) => {
            actions.push(HookAction::Notify(notify_request(config, data.as_slice())));
            actions.push(HookAction::Forward);
        },
        HookCall::Entered(None) => {
            actions.push(HookAction::Forward);
        },
        HookCall::Returned(_) => {},
    }
    actions
}

/// Inbound hook. The call is forwarded first, whatever the raw buffer holds;
/// what is captured is the buffer the trampoline returned. A null result is
/// not captured.
pub fn hooked_decompress_response(config: &Config, call: HookCall) -> (actions: Vec<HookAction>)
    ensures
        match call {
            HookCall::Entered(_) => forwards_only(actions@),
            HookCall::Returned(Some(decompressed)) => notifies_only(
                actions@,
                *config,
                response_path(),
                decompressed@,
            ),
            HookCall::Returned(None) => actions@.len() == 0,
        },
{
    let mut actions: Vec<HookAction> = Vec::new();
    match call {
        HookCall::Entered(_) => {
            actions.push(HookAction::Forward);
        },
        HookCall::Returned(Some(decompressed)) => {
            actions.push(HookAction::Notify(notify_response(config, decompressed.as_slice())));
        },
        HookCall::Returned(None) => {},
    }
    actions
}

/// File name of the assembly that holds the payload helper.
pub const ASSEMBLY_NAME: &'static str = "umamusume.dll";

/// Namespace of the payload helper class.
pub const HELPER_NAMESPACE: &'static str = "Gallop";

/// Name of the payload helper class.
pub const HELPER_CLASS: &'static str = "HttpHelper";

/// Name of the outbound method.
pub const COMPRESS_METHOD: &'static str = "CompressRequest";

/// Name of the inbound method.
pub const DECOMPRESS_METHOD: &'static str = "DecompressResponse";

/// Number of parameters of either method.
pub const METHOD_ARITY: i32 = 1;

/// The two hooked methods.
#[derive(Debug, Clone, Copy, PartialEq, Eq, Structural)]
pub enum PayloadHook {
    CompressRequest,
    DecompressResponse,
}

/// What a lookup of the install sequence looks for.
#[derive(Debug, Clone, Copy, PartialEq, Eq, Structural)]
pub enum InstallTarget {
    Assembly,
    Class,
    Method(PayloadHook),
}

/// Why the payload hooks were not installed.
pub enum PayloadError {
    /// A lookup through runtime introspection gave nothing.
    Lookup { target: InstallTarget, cause: LookupError },
    /// The hooking engine refused a hook.
    Hook { hook: PayloadHook, error: HookError },
}

/// Where the install sequence stands; each stage but the last two names the
/// outside work that is due.
pub enum InstallStage {
    /// Find the image of `ASSEMBLY_NAME`.
    FindAssembly,
    /// Find the helper class in the image.
    FindClass { image: usize },
    /// Find the outbound method of the class.
    FindCompress { class: usize },
    /// Find the inbound method of the class.
    FindDecompress { class: usize, compress: usize },
    /// Create and enable the hook on the outbound method.
    HookCompress { compress: usize, decompress: usize },
    /// Create and enable the hook on the inbound method.
    HookDecompress { decompress: usize },
    Installed,
    Failed(PayloadError),
}

/// What the outside world reports back to the install sequence.
pub enum InstallReply {
    /// A lookup ended with this address or for this reason.
    Lookup(Result<usize, LookupError>),
    /// The engine tried to create and enable the hook that is due.
    Hooked(EngineOutcome),
}

/// A lookup's result with a null address counted as not found.
pub open spec fn found(reply: Result<usize, LookupError>) -> Result<usize, LookupError> {
    match reply {
        Ok(addr) => if addr == 0 {
            Err(LookupError::NotFound)
        } else {
            Ok(addr)
        },
        Err(cause) => Err(cause),
    }
}

/// `next` is the stage after a lookup for `target` that was due.
pub open spec fn after_lookup(
    target: InstallTarget,
    reply: Result<usize, LookupError>,
    on_success: spec_fn(usize) -> InstallStage,
    next: InstallStage,
) -> bool {
    match found(reply) {
        Ok(addr) => next == on_success(addr),
        Err(cause) => next == InstallStage::Failed(PayloadError::Lookup { target, cause }),
    }
}

/// `next` is the stage after the engine's attempt on the hook for `target`.
pub open spec fn after_hook(
    target: PayloadHook,
    outcome: EngineOutcome,
    on_success: InstallStage,
    next: InstallStage,
) -> bool {
    if installs(outcome) {
        next == on_success
    } else {
        next matches InstallStage::Failed(PayloadError::Hook { hook, error }) && hook == target
            && hook_result(outcome, Err(error))
    }
}

/// `next` is the stage that follows `stage` on `reply`. The sequence stops
/// at the first failure; a reply that is not due changes nothing.
pub open spec fn advances(stage: InstallStage, reply: InstallReply, next: InstallStage) -> bool {
    match (stage, reply) {
        (InstallStage::FindAssembly, InstallReply::Lookup(r)) => after_lookup(
            InstallTarget::Assembly,
            r,
            |image: usize| InstallStage::FindClass { image },
            next,
        ),
        (InstallStage::FindClass { image }, InstallReply::Lookup(r)) => after_lookup(
            InstallTarget::Class,
            r,
            |class: usize| InstallStage::FindCompress { class },
            next,
        ),
        (InstallStage::FindCompress { class }, InstallReply::Lookup(r)) => after_lookup(
            InstallTarget::Method(PayloadHook::CompressRequest),
            r,
            |compress: usize| InstallStage::FindDecompress { class, compress },
            next,
        ),
        (InstallStage::FindDecompress { class, compress }, InstallReply::Lookup(r)) => after_lookup(
            InstallTarget::Method(PayloadHook::DecompressResponse),
            r,
            |decompress: usize| InstallStage::HookCompress { compress, decompress },
            next,
        ),
        (InstallStage::HookCompress { compress, decompress }, InstallReply::Hooked(outcome)) => after_hook(
            PayloadHook::CompressRequest,
            outcome,
            InstallStage::HookDecompress { decompress },
            next,
        ),
        (InstallStage::HookDecompress { decompress }, InstallReply::Hooked(outcome)) => after_hook(
            PayloadHook::DecompressResponse,
            outcome,
            InstallStage::Installed,
            next,
        ),
        _ => next == stage,
    }
}

/// The hook table after `reply` at `stage`: the engine's attempt on a hook
/// that was due is recorded under the method's address.
pub open spec fn hooks_recorded(
    table: Map<usize, usize>,
    stage: InstallStage,
    reply: InstallReply,
) -> Map<usize, usize> {
    match (stage, reply) {
        (InstallStage::HookCompress { compress, decompress }, InstallReply::Hooked(outcome)) => record(
            table,
            compress,
            outcome,
        ),
        (InstallStage::HookDecompress { decompress }, InstallReply::Hooked(outcome)) => record(
            table,
            decompress,
            outcome,
        ),
        _ => table,
    }
}

/// Starts the install sequence.
pub fn init() -> (stage: InstallStage)
    ensures
        stage is FindAssembly,
{
    InstallStage::FindAssembly
}

fn lookup_step(target: InstallTarget, reply: Result<usize, LookupError>) -> (res: Result<
    usize,
    PayloadError,
>)
    ensures
        match res {
            Ok(addr) => found(reply) == Ok::<usize, LookupError>(addr),
            Err(e) => found(reply) is Err && e == (PayloadError::Lookup {
                target,
                cause: found(reply)->Err_0,
            }),
        },
{
    match reply {
        Ok(addr) => if addr == 0 {
            Err(PayloadError::Lookup { target, cause: LookupError::NotFound })
        } else {
            Ok(addr)
        },
        Err(cause) => Err(PayloadError::Lookup { target, cause }),
    }
}

impl InstallStage {
    /// Takes the reply to the work that the stage named and moves on.
    pub fn advance(self, reply: InstallReply, interceptor: &mut Interceptor) -> (next: InstallStage)
        requires
            old(interceptor).wf(),
        ensures
            final(interceptor).wf(),
            advances(self, reply, next),
            final(interceptor)@ == hooks_recorded(old(interceptor)@, self, reply),
    {
        match (self, reply) {
            (InstallStage::FindAssembly, InstallReply::Lookup(r)) => match lookup_step(
                InstallTarget::Assembly,
                r,
            ) {
                Ok(image) => InstallStage::FindClass { image },
                Err(e) => InstallStage::Failed(e),
            },
            (InstallStage::FindClass { image }, InstallReply::Lookup(r)) => match lookup_step(
                InstallTarget::Class,
                r,
            ) {
                Ok(class) => InstallStage::FindCompress { class },
                Err(e) => InstallStage::Failed(e),
            },
            (InstallStage::FindCompress { class }, InstallReply::Lookup(r)) => match lookup_step(
                InstallTarget::Method(PayloadHook::CompressRequest),
                r,
            ) {
                Ok(compress) => InstallStage::FindDecompress { class, compress },
                Err(e) => InstallStage::Failed(e),
            },
            (
                InstallStage::FindDecompress { class, compress },
                InstallReply::Lookup(r),
            ) => match lookup_step(InstallTarget::Method(PayloadHook::DecompressResponse), r) {
                Ok(decompress) => InstallStage::HookCompress { compress, decompress },
                Err(e) => InstallStage::Failed(e),
            },
            (
                InstallStage::HookCompress { compress, decompress },
                InstallReply::Hooked(outcome),
            ) => match interceptor.hook(compress, outcome) {
                Ok(_) => InstallStage::HookDecompress { decompress },
                Err(error) => InstallStage::Failed(
                    PayloadError::Hook { hook: PayloadHook::CompressRequest, error },
                ),
            },
            (
                InstallStage::HookDecompress { decompress },
                InstallReply::Hooked(outcome),
            ) => match interceptor.hook(decompress, outcome) {
                Ok(_) => InstallStage::Installed,
                Err(error) => InstallStage::Failed(
                    PayloadError::Hook { hook: PayloadHook::DecompressResponse, error },
                ),
            },
            (stage, _) => stage,
        }
    }

    /// Whether the sequence has ended, and how.
    pub fn finished(&self) -> (installed: Option<bool>)
        ensures
            installed == match *self {
                InstallStage::Installed => Some(true),
                InstallStage::Failed(_) => Some(false),
                _ => None::<bool>,
            },
    {
        match self {
            InstallStage::Installed => Some(true),
            InstallStage::Failed(_) => Some(false),
            _ => None,
        }
    }
}

} // verus!

//! Hook manager: the table of active hooks, keyed by original address.

use std::collections::HashMap;
use vstd::prelude::*;
use vstd::std_specs::iter::IteratorSpec;
use vstd::string::StringExecFns;

verus! {

/// One active hook.
pub struct HookEntry {
    pub orig_addr: usize,
    pub trampoline_addr: usize,
}

/// What the hooking engine reported for one install. The engine creates the
/// hook first and enables it only when creation succeeded.
pub enum EngineOutcome {
    /// Creation failed; carries the engine's diagnostic.
    CreateFailed(String),
    /// The hook was created but could not be enabled.
    EnableFailed(String),
    /// The hook is created and enabled; carries the trampoline address.
    Enabled(usize),
}

/// Why an install did not take effect.
pub enum HookError {
    Create(String),
    Enable(String),
}

/// Diagnostic used when the engine claims success without a trampoline.
pub open spec fn null_trampoline_diagnostic() -> Seq<char> {
    "engine returned a null trampoline"@
}

/// The result `hook` reports for an engine outcome.
pub open spec fn hook_result(outcome: EngineOutcome, res: Result<usize, HookError>) -> bool {
    match outcome {
        EngineOutcome::CreateFailed(diagnostic) => res == Err::<usize, HookError>(
            HookError::Create(diagnostic),
        ),
        EngineOutcome::EnableFailed(diagnostic) => res == Err::<usize, HookError>(
            HookError::Enable(diagnostic),
        ),
        EngineOutcome::Enabled(trampoline) => if trampoline == 0 {
            res matches Err(HookError::Create(d)) && d@ == null_trampoline_diagnostic()
        } else {
            res == Ok::<usize, HookError>(trampoline)
        },
    }
}

/// An outcome that puts a record into the table.
pub open spec fn installs(outcome: EngineOutcome) -> bool {
    outcome matches EngineOutcome::Enabled(trampoline) && trampoline != 0
}

/// The table after `hook` has seen `outcome` for `orig_addr`.
pub open spec fn record(table: Map<usize, usize>, orig_addr: usize, outcome: EngineOutcome) -> Map<
    usize,
    usize,
> {
    match outcome {
        EngineOutcome::Enabled(trampoline) if trampoline != 0 => table.insert(
            orig_addr,
            trampoline,
        ),
        _ => table,
    }
}

/// No recorded trampoline is null.
pub open spec fn trampolines_non_null(table: Map<usize, usize>) -> bool {
    forall|addr: usize| table.contains_key(addr) ==> #[trigger] table[addr] != 0
}

pub struct Interceptor {
    hooks: HashMap<usize, HookEntry>,
}

impl Interceptor {
    /// The table as a map from original address to trampoline address.
    pub closed spec fn view(&self) -> Map<usize, usize> {
        Map::new(
            |addr: usize| self.hooks@.contains_key(addr),
            |addr: usize| self.hooks@[addr].trampoline_addr,
        )
    }

    /// Every record sits under its own original address and has a trampoline.
    pub closed spec fn wf(&self) -> bool {
        &&& forall|addr: usize|
            self.hooks@.contains_key(addr) ==> (#[trigger] self.hooks@[addr]).orig_addr == addr
        &&& trampolines_non_null(self@)
    }

    /// A well-formed table holds no null trampoline.
    pub proof fn lemma_trampolines_non_null(&self)
        requires
            self.wf(),
        ensures
            trampolines_non_null(self@),
    {
    }

    pub fn new() -> (interceptor: Interceptor)
        ensures
            interceptor.wf(),
            interceptor@ == Map::<usize, usize>::empty(),
    {
        let interceptor = Interceptor { hooks: HashMap::new() };
        assert(interceptor@ =~= Map::<usize, usize>::empty());
        interceptor
    }

    /// Records the outcome of creating and enabling a hook at `orig_addr`.
    /// A success stores the trampoline under `orig_addr`, replacing an earlier
    /// record for the same address; a failure leaves the table as it was.
    pub fn hook(&mut self, orig_addr: usize, outcome: EngineOutcome) -> (res: Result<
        usize,
        HookError,
    >)
        requires
            old(self).wf(),
        ensures
            final(self).wf(),
            hook_result(outcome, res),
            final(self)@ == record(old(self)@, orig_addr, outcome),
    {
        match outcome {
            EngineOutcome::CreateFailed(diagnostic) => Err(HookError::Create(diagnostic)),
            EngineOutcome::EnableFailed(diagnostic) => Err(HookError::Enable(diagnostic)),
            EngineOutcome::Enabled(trampoline) => {
                if trampoline == 0 {
                    Err(HookError::Create(String::from_str("engine returned a null trampoline")))
                } else {
                    self.hooks.insert(orig_addr, HookEntry { orig_addr, trampoline_addr: trampoline });
                    assert(self@ =~= old(self)@.insert(orig_addr, trampoline));
                    Ok(trampoline)
                }
            },
        }
    }

    /// Looks up the trampoline recorded for `orig_addr`.
    pub fn get_trampoline(&self, orig_addr: usize) -> (trampoline: Option<usize>)
        requires
            self.wf(),
        ensures
            trampoline == self@.get(orig_addr),
            trampoline matches Some(addr) ==> addr != 0,
    {
        match self.hooks.get(&orig_addr) {
            Some(entry) => Some(entry.trampoline_addr),
            None => None,
        }
    }

    /// Empties the table and returns the original addresses that were hooked,
    /// each once, for the engine to disable and remove.
    pub fn unhook_all(&mut self) -> (addrs: Vec<usize>)
        requires
            old(self).wf(),
        ensures
            final(self).wf(),
            final(self)@ == Map::<usize, usize>::empty(),
            addrs@.to_set() == old(self)@.dom(),
            addrs@.no_duplicates(),
    {
        let mut addrs: Vec<usize> = Vec::new();
        proof {
            let keys = self.hooks.keys().remaining();
            assert(keys.len() == 0 ==> keys.unref().to_set() =~= Set::<usize>::empty());
            assert(addrs@.to_set() =~= Set::<usize>::empty());
            assert(old(self)@.dom() =~= self.hooks@.dom());
        }
        for addr in iter: self.hooks.keys()
            invariant
                addrs@ == iter.seq().take(iter.index()).unref(),
                iter.seq().unref().to_set() == self.hooks@.dom(),
                iter.seq().no_duplicates(),
                addrs@.no_duplicates(),
                iter.index() == iter.seq().len() ==> addrs@.to_set() == self.hooks@.dom(),
        {
            addrs.push(*addr);
            proof {
                let done = iter.index() + 1;
                assert(addrs@ =~= iter.seq().take(done).unref());
                assert(done == iter.seq().len() ==> iter.seq().take(done) =~= iter.seq());
            }
        }
        self.hooks.clear();
        assert(self@ =~= Map::<usize, usize>::empty());
        addrs
    }
}

/// One install as the table sees it: the address and what the engine reported.
pub struct InstallCall {
    pub orig_addr: usize,
    pub outcome: EngineOutcome,
}

/// The table after a sequence of installs, applied first to last.
pub open spec fn install_all(table: Map<usize, usize>, calls: Seq<InstallCall>) -> Map<
    usize,
    usize,
>
    decreases calls.len(),
{
    if calls.len() == 0 {
        table
    } else {
        record(
            install_all(table, calls.drop_last()),
            calls.last().orig_addr,
            calls.last().outcome,
        )
    }
}

/// The calls address pairwise different originals.
pub open spec fn distinct_addresses(calls: Seq<InstallCall>) -> bool {
    forall|i: int, j: int|
        0 <= i < j < calls.len() ==> (#[trigger] calls[i]).orig_addr != (#[trigger] calls[j]).orig_addr
}

/// After any sequence of installs on distinct addresses, every install that
/// took effect is found under its address with the very trampoline the engine
/// handed out, and no trampoline in the table is null.
pub proof fn lemma_installs_are_found(table: Map<usize, usize>, calls: Seq<InstallCall>)
    requires
        trampolines_non_null(table),
        distinct_addresses(calls),
    ensures
        trampolines_non_null(install_all(table, calls)),
        forall|i: int|
            0 <= i < calls.len() && installs((#[trigger] calls[i]).outcome) ==> {
                let after = install_all(table, calls);
                &&& after.contains_key(calls[i].orig_addr)
                &&& after[calls[i].orig_addr] != 0
                &&& calls[i].outcome == EngineOutcome::Enabled(after[calls[i].orig_addr])
            },
    decreases calls.len(),
{
    if calls.len() > 0 {
        let earlier = calls.drop_last();
        lemma_installs_are_found(table, earlier);
        let before = install_all(table, earlier);
        let after = install_all(table, calls);
        assert forall|i: int| 0 <= i < calls.len() && installs((#[trigger] calls[i]).outcome) implies {
            &&& after.contains_key(calls[i].orig_addr)
            &&& after[calls[i].orig_addr] != 0
            &&& calls[i].outcome == EngineOutcome::Enabled(after[calls[i].orig_addr])
        } by {
            if i < calls.len() - 1 {
                assert(earlier[i] == calls[i]);
                assert(calls[i].orig_addr != calls[calls.len() - 1].orig_addr);
            }
        }
    }
}

} // verus!

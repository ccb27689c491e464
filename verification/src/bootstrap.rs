//! Bootstrap state machine: decides the attach path and the game variant,
//! sequences proxy and watcher setup, and installs the payload and frame-rate
//! hooks exactly once when the runtime is ready.

use crate::config::Config;
use crate::interceptor::hook_result;
use crate::interceptor::installs;
use crate::interceptor::record;
use crate::interceptor::EngineOutcome;
use crate::interceptor::HookError;
use crate::interceptor::Interceptor;
use crate::text::contains_ignore_ascii_case;
use crate::text::contains_ignoring_case;
use crate::text::eq_ignore_ascii_case;
use crate::text::eq_ignoring_case;
use crate::text::to_chars;
use vstd::prelude::*;

verus! {

/// How long the runtime is given to finish its own setup before first use.
pub const SETTLE_MILLIS: u64 = 100;

/// Where the bootstrap stands.
#[derive(Debug, Clone, Copy, PartialEq, Eq, Structural)]
pub enum BootstrapPhase {
    Start,
    NormalAttach,
    VariantDetermined,
    ProxyInstalled,
    WatchingForLoad,
    RuntimeReady,
    HooksInstalled,
    /// Proxy or watcher setup failed; nothing further is attempted.
    Aborted,
}

/// The single-shot flag that guards hook installation.
#[derive(Debug, Clone, Copy, PartialEq, Eq, Structural)]
pub enum BootstrapState {
    Pending,
    InstallAttempted,
    Installed,
}

/// Whether the runtime module was resident at process attach.
#[derive(Debug, Clone, Copy, PartialEq, Eq, Structural)]
pub enum AttachPath {
    Undecided,
    Late,
    Normal,
}

#[derive(Debug, Clone, Copy, PartialEq, Eq, Structural)]
pub enum GameVariant {
    Steam,
    Dmm,
}

/// Why the proxy-setup path was left.
pub enum BootstrapError {
    /// The host executable's name was not available.
    UnknownVariant,
    /// The proxy collaborator failed; carries its diagnostic.
    Proxy(String),
    /// The module-load watcher could not be installed.
    Watcher(HookError),
}

/// Outside work that the bootstrap asks for, in the order given.
#[derive(Debug, Clone, Copy, PartialEq, Eq, Structural)]
pub enum BootstrapAction {
    /// Report the host executable's file stem.
    DetectVariant,
    /// Load the renamed module of this variant and record its entry points.
    SetupProxy(GameVariant),
    /// Hook the library loader's entry point.
    InstallWatcher,
    /// Load the runtime module and report its handle.
    LoadRuntime,
    /// Initialize runtime introspection against this module handle.
    InitIntrospection { runtime: usize },
    /// Wait for this many milliseconds.
    Settle { millis: u64 },
    /// Install the frame-rate and vsync hooks with these override values.
    InstallFrameHooks { target_fps: i32, vsync_count: i32 },
    /// Install the payload hooks and report whether that succeeded.
    InstallPayloadHooks,
}

/// The state of the machine.
pub struct Bootstrap {
    pub phase: BootstrapPhase,
    pub hooking: BootstrapState,
    /// Base address of the runtime module; zero until it is known.
    pub runtime: usize,
    pub path: AttachPath,
}

/// A state together with the work that led to it.
pub struct Step {
    pub next: Bootstrap,
    pub actions: Seq<BootstrapAction>,
}

/// The file stem of the executable that only the Steam release uses.
pub open spec fn steam_executable() -> Seq<char> {
    "umamusumeprettyderby_jpn"@
}

/// The variant an executable's file stem stands for.
pub open spec fn variant_of(executable: Seq<char>) -> Option<GameVariant> {
    if executable.len() == 0 {
        None
    } else if eq_ignoring_case(executable, steam_executable()) {
        Some(GameVariant::Steam)
    } else {
        Some(GameVariant::Dmm)
    }
}

/// A module name that signals that the engine's subsystems are up.
pub open spec fn is_marker(name: Seq<char>) -> bool {
    contains_ignoring_case(name, "cri_ware_unity"@) || contains_ignoring_case(
        name,
        "cri_mana_vpx"@,
    )
}

/// The hook-install sequence: introspection, the settling delay, the
/// frame-rate hooks whatever the override values are, then the payload hooks.
pub open spec fn install_plan(runtime: usize, target_fps: i32, vsync_count: i32) -> Seq<
    BootstrapAction,
> {
    seq![
        BootstrapAction::InitIntrospection { runtime },
        BootstrapAction::Settle { millis: SETTLE_MILLIS },
        BootstrapAction::InstallFrameHooks { target_fps, vsync_count },
        BootstrapAction::InstallPayloadHooks,
    ]
}

impl Bootstrap {
    /// The state before anything has happened.
    pub open spec fn start() -> Bootstrap {
        Bootstrap {
            phase: BootstrapPhase::Start,
            hooking: BootstrapState::Pending,
            runtime: 0,
            path: AttachPath::Undecided,
        }
    }

    /// Nothing downstream of the runtime handle is under way before the
    /// handle is set, the flag and the phase agree, and a late attach is never
    /// found on the proxy and watcher path.
    pub open spec fn wf(self) -> bool {
        &&& self.hooking != BootstrapState::Pending ==> self.runtime != 0
        &&& self.phase == BootstrapPhase::RuntimeReady ==> self.runtime != 0
        &&& self.hooking == BootstrapState::Installed <==> self.phase
            == BootstrapPhase::HooksInstalled
        &&& self.hooking == BootstrapState::InstallAttempted ==> self.phase
            == BootstrapPhase::RuntimeReady
        &&& self.path == AttachPath::Undecided <==> self.phase == BootstrapPhase::Start
        &&& self.path == AttachPath::Late ==> self.phase == BootstrapPhase::RuntimeReady
            || self.phase == BootstrapPhase::HooksInstalled
    }

    /// The state with nothing to do.
    pub open spec fn idle(self) -> Step {
        Step { next: self, actions: Seq::empty() }
    }

    /// The runtime handle is assigned once: a valid handle is taken while
    /// none is set and ignored afterwards.
    pub open spec fn assembly_loaded(self, handle: usize) -> Bootstrap {
        if self.runtime == 0 {
            Bootstrap { runtime: handle, ..self }
        } else {
            self
        }
    }

    /// The guarded transition to hook installation: taken only while the flag
    /// is clear and the runtime handle is set.
    pub open spec fn ready(self, target_fps: i32, vsync_count: i32) -> Step {
        if self.hooking == BootstrapState::Pending && self.runtime != 0 && (self.phase
            == BootstrapPhase::WatchingForLoad || self.phase == BootstrapPhase::RuntimeReady) {
            Step {
                next: Bootstrap {
                    phase: BootstrapPhase::RuntimeReady,
                    hooking: BootstrapState::InstallAttempted,
                    ..self
                },
                actions: install_plan(self.runtime, target_fps, vsync_count),
            }
        } else {
            self.idle()
        }
    }

    /// The entry decision. A resident runtime module means a late attach:
    /// proxy and watcher are skipped and hook installation starts at once.
    pub open spec fn attached(self, resident: usize, target_fps: i32, vsync_count: i32) -> Step {
        if self.phase != BootstrapPhase::Start {
            self.idle()
        } else if resident != 0 {
            let runtime = self.assembly_loaded(resident).runtime;
            Step {
                next: Bootstrap {
                    phase: BootstrapPhase::RuntimeReady,
                    hooking: BootstrapState::InstallAttempted,
                    runtime,
                    path: AttachPath::Late,
                },
                actions: install_plan(runtime, target_fps, vsync_count),
            }
        } else {
            Step {
                next: Bootstrap {
                    phase: BootstrapPhase::NormalAttach,
                    path: AttachPath::Normal,
                    ..self
                },
                actions: seq![BootstrapAction::DetectVariant],
            }
        }
    }

    /// The variant decision on the normal path.
    pub open spec fn executable_named(self, executable: Seq<char>) -> Step {
        if self.phase != BootstrapPhase::NormalAttach {
            self.idle()
        } else {
            match variant_of(executable) {
                Some(variant) => Step {
                    next: Bootstrap { phase: BootstrapPhase::VariantDetermined, ..self },
                    actions: seq![BootstrapAction::SetupProxy(variant)],
                },
                None => Step {
                    next: Bootstrap { phase: BootstrapPhase::Aborted, ..self },
                    actions: Seq::empty(),
                },
            }
        }
    }

    /// The proxy collaborator has finished.
    pub open spec fn proxy_finished(self, loaded: bool) -> Step {
        if self.phase != BootstrapPhase::VariantDetermined {
            self.idle()
        } else if loaded {
            Step {
                next: Bootstrap { phase: BootstrapPhase::ProxyInstalled, ..self },
                actions: seq![BootstrapAction::InstallWatcher],
            }
        } else {
            Step { next: Bootstrap { phase: BootstrapPhase::Aborted, ..self }, actions: Seq::empty() }
        }
    }

    /// The engine has tried to hook the library loader.
    pub open spec fn watcher_hooked(self, hooked: bool) -> Step {
        if self.phase != BootstrapPhase::ProxyInstalled {
            self.idle()
        } else if hooked {
            Step {
                next: Bootstrap { phase: BootstrapPhase::WatchingForLoad, ..self },
                actions: Seq::empty(),
            }
        } else {
            Step { next: Bootstrap { phase: BootstrapPhase::Aborted, ..self }, actions: Seq::empty() }
        }
    }

    /// The watcher is in place.
    pub open spec fn watching(self) -> bool {
        self.phase == BootstrapPhase::WatchingForLoad || self.path == AttachPath::Normal && (
        self.phase == BootstrapPhase::RuntimeReady || self.phase
            == BootstrapPhase::HooksInstalled)
    }

    /// The watcher has seen a module load. A marker name means that the
    /// runtime can be used: it is asked for if its handle is not known yet,
    /// else hook installation starts, guarded as ever.
    pub open spec fn module_loaded(self, name: Seq<char>, target_fps: i32, vsync_count: i32) -> Step {
        if !(self.watching() && is_marker(name)) {
            self.idle()
        } else if self.runtime == 0 {
            Step { next: self, actions: seq![BootstrapAction::LoadRuntime] }
        } else {
            self.ready(target_fps, vsync_count)
        }
    }

    /// The runtime module has been loaded on the watcher's request; a null
    /// handle means that loading failed.
    pub open spec fn runtime_loaded(self, handle: usize, target_fps: i32, vsync_count: i32) -> Step {
        self.assembly_loaded(handle).ready(target_fps, vsync_count)
    }

    /// The hook-install sequence has ended. Success is final; a failure
    /// clears the flag so that a later trigger may try again.
    pub open spec fn hooks_finished(self, installed: bool) -> Step {
        if self.hooking != BootstrapState::InstallAttempted {
            self.idle()
        } else if installed {
            Step {
                next: Bootstrap {
                    phase: BootstrapPhase::HooksInstalled,
                    hooking: BootstrapState::Installed,
                    ..self
                },
                actions: Seq::empty(),
            }
        } else {
            Step { next: Bootstrap { hooking: BootstrapState::Pending, ..self }, actions: Seq::empty() }
        }
    }
}

/// Something the outside world reports to the bootstrap.
pub enum BootstrapEvent {
    /// Process attach; `resident` is the runtime module's handle, or zero.
    Attached { resident: usize },
    /// The host executable's file stem; empty when it is not available.
    ExecutableNamed(String),
    /// The proxy collaborator finished, with its diagnostic on failure.
    ProxyFinished(Result<(), String>),
    /// The engine tried to hook the library loader at `addr`.
    WatcherHooked { addr: usize, outcome: EngineOutcome },
    /// The watcher saw a module being loaded.
    ModuleLoaded(String),
    /// The runtime module was loaded on request; zero when that failed.
    RuntimeLoaded { handle: usize },
    /// The hook-install sequence ended.
    HooksFinished { installed: bool },
}

/// The step the machine takes on an event.
pub open spec fn step_of(state: Bootstrap, config: Config, event: BootstrapEvent) -> Step {
    match event {
        BootstrapEvent::Attached { resident } => state.attached(
            resident,
            config.target_fps,
            config.vsync_count,
        ),
        BootstrapEvent::ExecutableNamed(executable) => state.executable_named(executable@),
        BootstrapEvent::ProxyFinished(result) => state.proxy_finished(result is Ok),
        BootstrapEvent::WatcherHooked { addr, outcome } => state.watcher_hooked(installs(outcome)),
        BootstrapEvent::ModuleLoaded(name) => state.module_loaded(
            name@,
            config.target_fps,
            config.vsync_count,
        ),
        BootstrapEvent::RuntimeLoaded { handle } => state.runtime_loaded(
            handle,
            config.target_fps,
            config.vsync_count,
        ),
        BootstrapEvent::HooksFinished { installed } => state.hooks_finished(installed),
    }
}

/// The hook table after an event: only the watcher's outcome is recorded.
pub open spec fn hooks_after(table: Map<usize, usize>, event: BootstrapEvent) -> Map<usize, usize> {
    match event {
        BootstrapEvent::WatcherHooked { addr, outcome } => record(table, addr, outcome),
        _ => table,
    }
}

/// The error an event ends in, if it ends the proxy-setup path.
pub open spec fn abort_of(
    state: Bootstrap,
    event: BootstrapEvent,
    res: Result<Vec<BootstrapAction>, BootstrapError>,
) -> bool {
    match event {
        BootstrapEvent::ExecutableNamed(executable) if state.phase == BootstrapPhase::NormalAttach
            && variant_of(executable@) is None => res matches Err(BootstrapError::UnknownVariant),
        BootstrapEvent::ProxyFinished(Err(diagnostic)) if state.phase
            == BootstrapPhase::VariantDetermined => res matches Err(BootstrapError::Proxy(d)) && d
            == diagnostic,
        BootstrapEvent::WatcherHooked { addr, outcome } if state.phase
            == BootstrapPhase::ProxyInstalled && !installs(outcome) => res matches Err(
            BootstrapError::Watcher(e),
        ) && hook_result(outcome, Err(e)),
        _ => res is Ok,
    }
}

/// Whether a module name carries one of the two markers.
pub fn is_ready_marker(name: &str) -> (found: bool)
    ensures
        found == is_marker(name@),
{
    let chars = to_chars(name);
    let cri_ware = to_chars("cri_ware_unity");
    let cri_mana = to_chars("cri_mana_vpx");
    contains_ignore_ascii_case(chars.as_slice(), cri_ware.as_slice()) || contains_ignore_ascii_case(
        chars.as_slice(),
        cri_mana.as_slice(),
    )
}

/// The process-scoped context of the core.
pub struct GugaURA {
    pub config: Config,
    pub interceptor: Interceptor,
    pub state: Bootstrap,
}

impl GugaURA {
    /// The state of the bootstrap machine.
    pub open spec fn view(&self) -> Bootstrap {
        self.state
    }

    pub open spec fn wf(&self) -> bool {
        self.interceptor.wf() && self@.wf()
    }

    /// The step this context takes on `event`.
    pub open spec fn step_on(&self, event: BootstrapEvent) -> Step {
        step_of(self@, self.config, event)
    }

    /// Everything but the machine's state and the hook table stays as it is.
    pub open spec fn same_config(&self, other: &GugaURA) -> bool {
        self.config == other.config
    }

    /// Creates the context for a freshly attached process.
    pub fn init(config: Config) -> (core: GugaURA)
        ensures
            core.wf(),
            core@ == Bootstrap::start(),
            core.config == config,
            core.interceptor@ == Map::<usize, usize>::empty(),
    {
        GugaURA {
            config,
            interceptor: Interceptor::new(),
            state: Bootstrap {
                phase: BootstrapPhase::Start,
                hooking: BootstrapState::Pending,
                runtime: 0,
                path: AttachPath::Undecided,
            },
        }
    }

    pub fn phase(&self) -> (phase: BootstrapPhase)
        ensures
            phase == self@.phase,
    {
        self.state.phase
    }

    pub fn hooking(&self) -> (hooking: BootstrapState)
        ensures
            hooking == self@.hooking,
    {
        self.state.hooking
    }

    /// The runtime module's handle, once it is known.
    pub fn runtime_handle(&self) -> (handle: Option<usize>)
        ensures
            handle == if self@.runtime == 0 {
                None::<usize>
            } else {
                Some(self@.runtime)
            },
    {
        if self.state.runtime == 0 {
            None
        } else {
            Some(self.state.runtime)
        }
    }

    fn plan(&self) -> (actions: Vec<BootstrapAction>)
        ensures
            actions@ == install_plan(
                self@.runtime,
                self.config.target_fps,
                self.config.vsync_count,
            ),
    {
        let actions = vec![
            BootstrapAction::InitIntrospection { runtime: self.state.runtime },
            BootstrapAction::Settle { millis: SETTLE_MILLIS },
            BootstrapAction::InstallFrameHooks {
                target_fps: self.config.target_fps,
                vsync_count: self.config.vsync_count,
            },
            BootstrapAction::InstallPayloadHooks,
        ];
        assert(actions@ =~= install_plan(
            self@.runtime,
            self.config.target_fps,
            self.config.vsync_count,
        ));
        actions
    }

    /// Entry decision at process attach. `resident` is the handle of the
    /// runtime module if it is already loaded, zero otherwise.
    pub fn setup_hooks(&mut self, resident: usize) -> (actions: Vec<BootstrapAction>)
        requires
            old(self).wf(),
        ensures
            final(self).wf(),
            final(self).same_config(old(self)),
            final(self).interceptor == old(self).interceptor,
            final(self)@ == old(self)@.attached(
                resident,
                old(self).config.target_fps,
                old(self).config.vsync_count,
            ).next,
            actions@ == old(self)@.attached(
                resident,
                old(self).config.target_fps,
                old(self).config.vsync_count,
            ).actions,
    {
        match self.state.phase {
            BootstrapPhase::Start => {
                if resident != 0 {
                    if self.state.runtime == 0 {
                        self.state.runtime = resident;
                    }
                    self.state.phase = BootstrapPhase::RuntimeReady;
                    self.state.hooking = BootstrapState::InstallAttempted;
                    self.state.path = AttachPath::Late;
                    self.plan()
                } else {
                    self.state.phase = BootstrapPhase::NormalAttach;
                    self.state.path = AttachPath::Normal;
                    vec![BootstrapAction::DetectVariant]
                }
            },
            _ => Vec::new(),
        }
    }

    /// Whether the executable's file stem is the one of the Steam release.
    pub fn is_steam_release(executable: &str) -> (steam: bool)
        ensures
            steam == eq_ignoring_case(executable@, steam_executable()),
    {
        let name = to_chars(executable);
        let steam = to_chars("umamusumeprettyderby_jpn");
        eq_ignore_ascii_case(name.as_slice(), steam.as_slice())
    }

    /// Takes the host executable's file stem and names the proxy to set up.
    pub fn on_executable_named(&mut self, executable: &str) -> (res: Result<
        Vec<BootstrapAction>,
        BootstrapError,
    >)
        requires
            old(self).wf(),
        ensures
            final(self).wf(),
            final(self).same_config(old(self)),
            final(self).interceptor == old(self).interceptor,
            final(self)@ == old(self)@.executable_named(executable@).next,
            match res {
                Ok(actions) => actions@ == old(self)@.executable_named(executable@).actions && !(
                old(self)@.phase == BootstrapPhase::NormalAttach && variant_of(executable@)
                    is None),
                Err(e) => e is UnknownVariant && old(self)@.phase == BootstrapPhase::NormalAttach
                    && variant_of(executable@) is None,
            },
    {
        match self.state.phase {
            BootstrapPhase::NormalAttach => {
                if executable.is_empty() {
                    self.state.phase = BootstrapPhase::Aborted;
                    Err(BootstrapError::UnknownVariant)
                } else {
                    let variant = if GugaURA::is_steam_release(executable) {
                        GameVariant::Steam
                    } else {
                        GameVariant::Dmm
                    };
                    self.state.phase = BootstrapPhase::VariantDetermined;
                    Ok(vec![BootstrapAction::SetupProxy(variant)])
                }
            },
            _ => Ok(Vec::new()),
        }
    }

    /// Takes the proxy collaborator's result and asks for the watcher.
    pub fn on_proxy_finished(&mut self, result: Result<(), String>) -> (res: Result<
        Vec<BootstrapAction>,
        BootstrapError,
    >)
        requires
            old(self).wf(),
        ensures
            final(self).wf(),
            final(self).same_config(old(self)),
            final(self).interceptor == old(self).interceptor,
            final(self)@ == old(self)@.proxy_finished(result is Ok).next,
            match res {
                Ok(actions) => actions@ == old(self)@.proxy_finished(result is Ok).actions && !(
                old(self)@.phase == BootstrapPhase::VariantDetermined && result is Err),
                Err(e) => old(self)@.phase == BootstrapPhase::VariantDetermined && result is Err
                    && e == BootstrapError::Proxy(result->Err_0),
            },
    {
        match self.state.phase {
            BootstrapPhase::VariantDetermined => match result {
                Ok(()) => {
                    self.state.phase = BootstrapPhase::ProxyInstalled;
                    Ok(vec![BootstrapAction::InstallWatcher])
                },
                Err(diagnostic) => {
                    self.state.phase = BootstrapPhase::Aborted;
                    Err(BootstrapError::Proxy(diagnostic))
                },
            },
            _ => Ok(Vec::new()),
        }
    }

    /// Records what the engine reported for the hook on the library loader
    /// at `addr` and starts watching when the hook is in place.
    pub fn on_watcher_hooked(&mut self, addr: usize, outcome: EngineOutcome) -> (res: Result<
        Vec<BootstrapAction>,
        BootstrapError,
    >)
        requires
            old(self).wf(),
        ensures
            final(self).wf(),
            final(self).same_config(old(self)),
            final(self).interceptor@ == record(old(self).interceptor@, addr, outcome),
            final(self)@ == old(self)@.watcher_hooked(installs(outcome)).next,
            match res {
                Ok(actions) => actions@.len() == 0 && !(old(self)@.phase
                    == BootstrapPhase::ProxyInstalled && !installs(outcome)),
                Err(e) => {
                    &&& old(self)@.phase == BootstrapPhase::ProxyInstalled
                    &&& !installs(outcome)
                    &&& e matches BootstrapError::Watcher(cause)
                    &&& hook_result(outcome, Err(cause))
                },
            },
    {
        let hooked = self.interceptor.hook(addr, outcome);
        match self.state.phase {
            BootstrapPhase::ProxyInstalled => match hooked {
                Ok(_) => {
                    self.state.phase = BootstrapPhase::WatchingForLoad;
                    Ok(Vec::new())
                },
                Err(cause) => {
                    self.state.phase = BootstrapPhase::Aborted;
                    Err(BootstrapError::Watcher(cause))
                },
            },
            _ => Ok(Vec::new()),
        }
    }

    /// Body of the hooked library loader, after the call has been forwarded:
    /// a marker name asks for the runtime module if its handle is not known
    /// yet, and starts hook installation if it is.
    pub fn hooked_load_library_w(&mut self, filename: &str) -> (actions: Vec<BootstrapAction>)
        requires
            old(self).wf(),
        ensures
            final(self).wf(),
            final(self).same_config(old(self)),
            final(self).interceptor == old(self).interceptor,
            final(self)@ == old(self)@.module_loaded(
                filename@,
                old(self).config.target_fps,
                old(self).config.vsync_count,
            ).next,
            actions@ == old(self)@.module_loaded(
                filename@,
                old(self).config.target_fps,
                old(self).config.vsync_count,
            ).actions,
    {
        let watching = match self.state.phase {
            BootstrapPhase::WatchingForLoad => true,
            BootstrapPhase::RuntimeReady | BootstrapPhase::HooksInstalled => match self.state.path {
                AttachPath::Normal => true,
                _ => false,
            },
            _ => false,
        };
        if !(watching && is_ready_marker(filename)) {
            Vec::new()
        } else if self.state.runtime == 0 {
            vec![BootstrapAction::LoadRuntime]
        } else {
            self.on_game_ready()
        }
    }

    /// Sets the runtime handle if it is not set yet.
    pub fn on_game_assembly_loaded(&mut self, handle: usize)
        requires
            old(self).wf(),
        ensures
            final(self).wf(),
            final(self).same_config(old(self)),
            final(self).interceptor == old(self).interceptor,
            final(self)@ == old(self)@.assembly_loaded(handle),
    {
        if self.state.runtime == 0 {
            self.state.runtime = handle;
        }
    }

    /// The guarded start of hook installation: the install sequence is handed
    /// out once, and again only after a failure has cleared the flag.
    pub fn on_game_ready(&mut self) -> (actions: Vec<BootstrapAction>)
        requires
            old(self).wf(),
        ensures
            final(self).wf(),
            final(self).same_config(old(self)),
            final(self).interceptor == old(self).interceptor,
            final(self)@ == old(self)@.ready(
                old(self).config.target_fps,
                old(self).config.vsync_count,
            ).next,
            actions@ == old(self)@.ready(
                old(self).config.target_fps,
                old(self).config.vsync_count,
            ).actions,
    {
        let open = match self.state.phase {
            BootstrapPhase::WatchingForLoad | BootstrapPhase::RuntimeReady => true,
            _ => false,
        };
        let pending = match self.state.hooking {
            BootstrapState::Pending => true,
            _ => false,
        };
        if open && pending && self.state.runtime != 0 {
            self.state.phase = BootstrapPhase::RuntimeReady;
            self.state.hooking = BootstrapState::InstallAttempted;
            self.plan()
        } else {
            Vec::new()
        }
    }

    /// Takes the outcome of the hook-install sequence.
    pub fn on_hooks_finished(&mut self, installed: bool)
        requires
            old(self).wf(),
        ensures
            final(self).wf(),
            final(self).same_config(old(self)),
            final(self).interceptor == old(self).interceptor,
            final(self)@ == old(self)@.hooks_finished(installed).next,
    {
        match self.state.hooking {
            BootstrapState::InstallAttempted => {
                if installed {
                    self.state.phase = BootstrapPhase::HooksInstalled;
                    self.state.hooking = BootstrapState::Installed;
                } else {
                    self.state.hooking = BootstrapState::Pending;
                }
            },
            _ => {},
        }
    }

    /// Takes one event and returns the outside work it calls for.
    pub fn step(&mut self, event: BootstrapEvent) -> (res: Result<
        Vec<BootstrapAction>,
        BootstrapError,
    >)
        requires
            old(self).wf(),
        ensures
            final(self).wf(),
            final(self).same_config(old(self)),
            final(self)@ == old(self).step_on(event).next,
            final(self).interceptor@ == hooks_after(old(self).interceptor@, event),
            abort_of(old(self)@, event, res),
            res matches Ok(actions) ==> actions@ == old(self).step_on(event).actions,
    {
        match event {
            BootstrapEvent::Attached { resident } => Ok(self.setup_hooks(resident)),
            BootstrapEvent::ExecutableNamed(executable) => self.on_executable_named(
                executable.as_str(),
            ),
            BootstrapEvent::ProxyFinished(result) => self.on_proxy_finished(result),
            BootstrapEvent::WatcherHooked { addr, outcome } => self.on_watcher_hooked(
                addr,
                outcome,
            ),
            BootstrapEvent::ModuleLoaded(name) => Ok(self.hooked_load_library_w(name.as_str())),
            BootstrapEvent::RuntimeLoaded { handle } => {
                self.on_game_assembly_loaded(handle);
                Ok(self.on_game_ready())
            },
            BootstrapEvent::HooksFinished { installed } => {
                self.on_hooks_finished(installed);
                Ok(Vec::new())
            },
        }
    }

    /// Teardown: empties the hook table and returns the addresses whose hooks
    /// the engine is to disable and remove.
    pub fn cleanup(&mut self) -> (addrs: Vec<usize>)
        requires
            old(self).wf(),
        ensures
            final(self).wf(),
            final(self).same_config(old(self)),
            final(self)@ == old(self)@,
            final(self).interceptor@ == Map::<usize, usize>::empty(),
            addrs@.to_set() == old(self).interceptor@.dom(),
            addrs@.no_duplicates(),
    {
        self.interceptor.unhook_all()
    }
}

/// The machine run over a sequence of events, first to last, with all the
/// work it asked for on the way.
pub open spec fn run(state: Bootstrap, config: Config, events: Seq<BootstrapEvent>) -> Step
    decreases events.len(),
{
    if events.len() == 0 {
        state.idle()
    } else {
        let before = run(state, config, events.drop_last());
        let last = step_of(before.next, config, events.last());
        Step { next: last.next, actions: before.actions + last.actions }
    }
}

/// How many times the payload hooks are asked for.
pub open spec fn attempts(actions: Seq<BootstrapAction>) -> nat
    decreases actions.len(),
{
    if actions.len() == 0 {
        0
    } else {
        attempts(actions.drop_last()) + if actions.last() is InstallPayloadHooks {
            1nat
        } else {
            0nat
        }
    }
}

/// How many install sequences are reported to have failed.
pub open spec fn failures(events: Seq<BootstrapEvent>) -> nat
    decreases events.len(),
{
    if events.len() == 0 {
        0
    } else {
        failures(events.drop_last()) + if events.last() matches BootstrapEvent::HooksFinished {
            installed: false,
        } {
            1nat
        } else {
            0nat
        }
    }
}

/// Every step keeps the state well-formed and the runtime handle, once set,
/// the same.
pub proof fn lemma_step_keeps_invariant(state: Bootstrap, config: Config, event: BootstrapEvent)
    requires
        state.wf(),
    ensures
        step_of(state, config, event).next.wf(),
        state.runtime != 0 ==> step_of(state, config, event).next.runtime == state.runtime,
{
}

proof fn lemma_attempts_concat(a: Seq<BootstrapAction>, b: Seq<BootstrapAction>)
    ensures
        attempts(a + b) == attempts(a) + attempts(b),
    decreases b.len(),
{
    if b.len() == 0 {
        assert(a + b =~= a);
    } else {
        lemma_attempts_concat(a, b.drop_last());
        assert((a + b).drop_last() =~= a + b.drop_last());
        assert((a + b).last() == b.last());
    }
}

proof fn lemma_attempts_of_plan(runtime: usize, target_fps: i32, vsync_count: i32)
    ensures
        attempts(install_plan(runtime, target_fps, vsync_count)) == 1,
        attempts(Seq::<BootstrapAction>::empty()) == 0,
        attempts(seq![BootstrapAction::DetectVariant]) == 0,
        attempts(seq![BootstrapAction::InstallWatcher]) == 0,
        attempts(seq![BootstrapAction::LoadRuntime]) == 0,
        forall|v: GameVariant| attempts(#[trigger] seq![BootstrapAction::SetupProxy(v)]) == 0,
{
    reveal_with_fuel(attempts, 6);
    let plan = install_plan(runtime, target_fps, vsync_count);
    assert(plan.drop_last().drop_last().drop_last().drop_last() =~= Seq::<BootstrapAction>::empty());
    assert(plan.last() is InstallPayloadHooks);
    assert(plan.drop_last().last() is InstallFrameHooks);
    assert(plan.drop_last().drop_last().last() is Settle);
    assert(plan.drop_last().drop_last().drop_last().last() is InitIntrospection);
    assert(seq![BootstrapAction::DetectVariant].drop_last() =~= Seq::<BootstrapAction>::empty());
    assert(seq![BootstrapAction::InstallWatcher].drop_last() =~= Seq::<BootstrapAction>::empty());
    assert(seq![BootstrapAction::LoadRuntime].drop_last() =~= Seq::<BootstrapAction>::empty());
    assert forall|v: GameVariant| attempts(#[trigger] seq![BootstrapAction::SetupProxy(v)])
        == 0 by {
        assert(seq![BootstrapAction::SetupProxy(v)].drop_last() =~= Seq::<
            BootstrapAction,
        >::empty());
    }
}

/// Whether an install sequence is under way or done.
pub open spec fn engaged(state: Bootstrap) -> nat {
    if state.hooking == BootstrapState::Pending {
        0
    } else {
        1
    }
}

proof fn lemma_step_attempts(state: Bootstrap, config: Config, event: BootstrapEvent)
    requires
        state.wf(),
    ensures
        ({
            let step = step_of(state, config, event);
            let failed: nat = if event matches BootstrapEvent::HooksFinished { installed: false } {
                1
            } else {
                0
            };
            attempts(step.actions) + engaged(state) <= engaged(step.next) + failed
        }),
{
    lemma_attempts_of_plan(state.runtime, config.target_fps, config.vsync_count);
    match event {
        BootstrapEvent::Attached { resident } => {
            lemma_attempts_of_plan(resident, config.target_fps, config.vsync_count);
        },
        BootstrapEvent::RuntimeLoaded { handle } => {
            lemma_attempts_of_plan(handle, config.target_fps, config.vsync_count);
        },
        _ => {},
    }
}

/// Single shot over any run: the payload hooks are asked for at most once
/// more than install sequences have failed, so that without a failure there
/// is at most one attempt however often the watcher fires.
pub proof fn lemma_attempts_are_single_shot(
    state: Bootstrap,
    config: Config,
    events: Seq<BootstrapEvent>,
)
    requires
        state.wf(),
    ensures
        run(state, config, events).next.wf(),
        attempts(run(state, config, events).actions) + engaged(state) <= engaged(
            run(state, config, events).next,
        ) + failures(events),
        attempts(run(state, config, events).actions) <= 1 + failures(events),
    decreases events.len(),
{
    if events.len() > 0 {
        let before = run(state, config, events.drop_last());
        lemma_attempts_are_single_shot(state, config, events.drop_last());
        lemma_step_keeps_invariant(before.next, config, events.last());
        lemma_step_attempts(before.next, config, events.last());
        lemma_attempts_concat(before.actions, step_of(before.next, config, events.last()).actions);
    }
}

/// One firing of the watcher as the outside world plays it: the module name
/// is reported and, if the runtime module is asked for, its handle.
pub open spec fn watcher_fired(
    state: Bootstrap,
    config: Config,
    name: Seq<char>,
    handle: usize,
) -> Step {
    let seen = state.module_loaded(name, config.target_fps, config.vsync_count);
    if seen.actions == seq![BootstrapAction::LoadRuntime] {
        let loaded = seen.next.runtime_loaded(handle, config.target_fps, config.vsync_count);
        Step { next: loaded.next, actions: seen.actions + loaded.actions }
    } else {
        seen
    }
}

/// The watcher fires twice with marker names: the first firing starts the
/// install sequence; while that sequence is under way, and after it has
/// succeeded, the second firing starts nothing; after a failure the second
/// firing starts the sequence again.
pub proof fn lemma_watcher_fires_twice(
    state: Bootstrap,
    config: Config,
    first: Seq<char>,
    second: Seq<char>,
    handle: usize,
    installed: bool,
)
    requires
        state.wf(),
        state.phase == BootstrapPhase::WatchingForLoad,
        is_marker(first),
        is_marker(second),
        handle != 0,
    ensures
        ({
            let attempt = watcher_fired(state, config, first, handle);
            let early = watcher_fired(attempt.next, config, second, handle);
            let finished = attempt.next.hooks_finished(installed);
            let retry = watcher_fired(finished.next, config, second, handle);
            &&& attempts(attempt.actions) == 1
            &&& attempt.next.hooking == BootstrapState::InstallAttempted
            &&& attempt.next.phase == BootstrapPhase::RuntimeReady
            &&& early.actions.len() == 0
            &&& early.next == attempt.next
            &&& installed ==> retry.actions.len() == 0 && retry.next.phase
                == BootstrapPhase::HooksInstalled
            &&& !installed ==> retry.actions == install_plan(
                attempt.next.runtime,
                config.target_fps,
                config.vsync_count,
            ) && retry.next.hooking == BootstrapState::InstallAttempted
        }),
{
    let fps = config.target_fps;
    let vsync = config.vsync_count;
    let seen = state.module_loaded(first, fps, vsync);
    lemma_attempts_of_plan(state.runtime, fps, vsync);
    lemma_attempts_of_plan(handle, fps, vsync);
    if state.runtime == 0 {
        let loaded = seen.next.runtime_loaded(handle, fps, vsync);
        lemma_attempts_concat(seen.actions, loaded.actions);
    } else {
        assert(seen.actions[3] is InstallPayloadHooks);
        assert(seq![BootstrapAction::LoadRuntime][0] is LoadRuntime);
    }
    let attempt = watcher_fired(state, config, first, handle);
    let finished = attempt.next.hooks_finished(installed);
    let again = finished.next.module_loaded(second, fps, vsync);
    if !installed {
        assert(again.actions[3] is InstallPayloadHooks);
        assert(seq![BootstrapAction::LoadRuntime][0] is LoadRuntime);
    }
}

/// No step asks for proxy or watcher setup.
pub open spec fn skips_proxy_and_watcher(actions: Seq<BootstrapAction>) -> bool {
    forall|i: int|
        0 <= i < actions.len() ==> {
            &&& !((#[trigger] actions[i]) is DetectVariant)
            &&& !(actions[i] is SetupProxy)
            &&& !(actions[i] is InstallWatcher)
        }
}

/// Late attach: with the runtime module resident at entry the machine goes
/// straight to the install sequence, reaches `HooksInstalled` when that
/// sequence succeeds, and never, whatever happens afterwards, asks for the
/// proxy or the watcher.
pub proof fn lemma_late_attach_skips_watcher(
    config: Config,
    resident: usize,
    later: Seq<BootstrapEvent>,
)
    requires
        resident != 0,
    ensures
        ({
            let entry = Bootstrap::start().attached(resident, config.target_fps, config.vsync_count);
            let installed = entry.next.hooks_finished(true);
            &&& entry.actions == install_plan(resident, config.target_fps, config.vsync_count)
            &&& skips_proxy_and_watcher(entry.actions)
            &&& entry.next.runtime == resident
            &&& installed.next.phase == BootstrapPhase::HooksInstalled
            &&& skips_proxy_and_watcher(run(entry.next, config, later).actions)
            &&& skips_proxy_and_watcher(run(installed.next, config, later).actions)
        }),
{
    let entry = Bootstrap::start().attached(resident, config.target_fps, config.vsync_count);
    let installed = entry.next.hooks_finished(true);
    lemma_late_path_stays_late(entry.next, config, later);
    lemma_late_path_stays_late(installed.next, config, later);
}

proof fn lemma_late_path_stays_late(state: Bootstrap, config: Config, events: Seq<BootstrapEvent>)
    requires
        state.wf(),
        state.path == AttachPath::Late,
    ensures
        run(state, config, events).next.wf(),
        run(state, config, events).next.path == AttachPath::Late,
        skips_proxy_and_watcher(run(state, config, events).actions),
    decreases events.len(),
{
    if events.len() > 0 {
        lemma_late_path_stays_late(state, config, events.drop_last());
    }
}

} // verus!

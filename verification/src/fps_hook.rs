//! Frame-rate and vsync overrides applied inside the hooked engine setters.

use crate::interceptor::hook_result;
use crate::interceptor::installs;
use crate::interceptor::record;
use crate::interceptor::EngineOutcome;
use crate::interceptor::HookError;
use crate::interceptor::Interceptor;
use vstd::prelude::*;

verus! {

/// Override value meaning "leave the game's own setting alone".
pub const NO_OVERRIDE: i32 = -1;

/// Internal-call signature of the engine's frame-rate setter.
pub const SET_TARGET_FRAME_RATE: &'static str =
    "UnityEngine.Application::set_targetFrameRate(System.Int32)";

/// Internal-call signature of the engine's vsync setter.
pub const SET_VSYNC_COUNT: &'static str =
    "UnityEngine.QualitySettings::set_vSyncCount(System.Int32)";

/// The two engine setters that are hooked.
#[derive(Debug, Clone, Copy, PartialEq, Eq, Structural)]
pub enum FrameSetting {
    TargetFrameRate,
    VSyncCount,
}

/// The value a hooked setter passes on through its trampoline.
pub open spec fn forwarded_value(override_value: i32, requested: i32) -> i32 {
    if override_value == NO_OVERRIDE {
        requested
    } else {
        override_value
    }
}

/// The process-wide override values and the setters that are hooked.
#[derive(Debug, Clone, Copy, PartialEq, Eq, Structural)]
pub struct FpsHooks {
    pub target_fps: i32,
    pub vsync_count: i32,
    /// Address of the hooked frame-rate setter; zero while it is not hooked.
    pub frame_rate_setter: usize,
    /// Address of the hooked vsync setter; zero while it is not hooked.
    pub vsync_setter: usize,
}

/// Stores the override values and names the setters to hook. Both are always
/// named, whatever the values: an override that is off today may be switched
/// on without hooking again.
pub fn init(target_fps: i32, vsync_count: i32) -> (plan: (FpsHooks, [FrameSetting; 2]))
    ensures
        plan.0 == (FpsHooks { target_fps, vsync_count, frame_rate_setter: 0, vsync_setter: 0 }),
        plan.1@ == seq![FrameSetting::TargetFrameRate, FrameSetting::VSyncCount],
{
    let settings = [FrameSetting::TargetFrameRate, FrameSetting::VSyncCount];
    assert(settings@ =~= seq![FrameSetting::TargetFrameRate, FrameSetting::VSyncCount]);
    (FpsHooks { target_fps, vsync_count, frame_rate_setter: 0, vsync_setter: 0 }, settings)
}

impl FpsHooks {
    /// The address under which the setter's hook is recorded.
    pub open spec fn setter(self, setting: FrameSetting) -> usize {
        match setting {
            FrameSetting::TargetFrameRate => self.frame_rate_setter,
            FrameSetting::VSyncCount => self.vsync_setter,
        }
    }

    /// The hooks after the engine's attempt on the setter at `addr`: a hook
    /// that is in place is remembered, a failure changes nothing.
    pub open spec fn hooked(self, setting: FrameSetting, addr: usize, outcome: EngineOutcome) -> FpsHooks {
        if installs(outcome) {
            match setting {
                FrameSetting::TargetFrameRate => FpsHooks { frame_rate_setter: addr, ..self },
                FrameSetting::VSyncCount => FpsHooks { vsync_setter: addr, ..self },
            }
        } else {
            self
        }
    }

    /// Records what the engine reported for the hook on the setter that was
    /// resolved to `addr`. A failure is reported and leaves the other setter
    /// alone.
    pub fn on_hooked(
        &mut self,
        interceptor: &mut Interceptor,
        setting: FrameSetting,
        addr: usize,
        outcome: EngineOutcome,
    ) -> (res: Result<usize, HookError>)
        requires
            old(interceptor).wf(),
        ensures
            final(interceptor).wf(),
            final(interceptor)@ == record(old(interceptor)@, addr, outcome),
            hook_result(outcome, res),
            *final(self) == old(self).hooked(setting, addr, outcome),
    {
        let res = interceptor.hook(addr, outcome);
        if res.is_ok() {
            match setting {
                FrameSetting::TargetFrameRate => {
                    self.frame_rate_setter = addr;
                },
                FrameSetting::VSyncCount => {
                    self.vsync_setter = addr;
                },
            }
        }
        res
    }

    /// The trampoline through which the hooked setter passes its value on.
    pub fn trampoline(&self, interceptor: &Interceptor, setting: FrameSetting) -> (trampoline:
        Option<usize>)
        requires
            interceptor.wf(),
        ensures
            trampoline == interceptor@.get(self.setter(setting)),
            trampoline matches Some(addr) ==> addr != 0,
    {
        match setting {
            FrameSetting::TargetFrameRate => interceptor.get_trampoline(self.frame_rate_setter),
            FrameSetting::VSyncCount => interceptor.get_trampoline(self.vsync_setter),
        }
    }
}

impl FrameSetting {
    /// The signature under which the runtime resolves the setter.
    pub fn icall_signature(&self) -> (signature: &'static str)
        ensures
            signature@ == match *self {
                FrameSetting::TargetFrameRate => SET_TARGET_FRAME_RATE@,
                FrameSetting::VSyncCount => SET_VSYNC_COUNT@,
            },
    {
        match self {
            FrameSetting::TargetFrameRate => SET_TARGET_FRAME_RATE,
            FrameSetting::VSyncCount => SET_VSYNC_COUNT,
        }
    }
}

/// Body of the hooked frame-rate setter: the configured override replaces the
/// requested value unless it is the sentinel.
pub fn hooked_set_target_frame_rate(hooks: &FpsHooks, value: i32) -> (forwarded: i32)
    ensures
        forwarded == forwarded_value(hooks.target_fps, value),
{
    if hooks.target_fps != NO_OVERRIDE {
        hooks.target_fps
    } else {
        value
    }
}

/// Body of the hooked vsync setter: the configured override replaces the
/// requested value unless it is the sentinel.
pub fn hooked_set_vsync_count(hooks: &FpsHooks, value: i32) -> (forwarded: i32)
    ensures
        forwarded == forwarded_value(hooks.vsync_count, value),
{
    if hooks.vsync_count != NO_OVERRIDE {
        hooks.vsync_count
    } else {
        value
    }
}

} // verus!

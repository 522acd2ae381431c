//! Switching the graphics mode while the system runs: the display manager and the NVIDIA
//! stack are taken down, the configuration is written, and what the new mode needs is
//! brought back up. Each step says what to do next from how the last one went.
use crate::graphics::{external_display_requires_nvidia, switchable, Graphics, GraphicsDeviceError, GraphicsMode};
use crate::text::trim;
use vstd::prelude::*;

verus! {

/// A step of a switch at runtime, to be carried out and reported on.
#[derive(Clone, Copy, Debug, PartialEq, Eq)]
pub enum SwitchStep {
    /// Find the active display manager among `display_managers()`; report `Found`.
    DetectDisplayManager,
    /// Stop this display manager.
    StopDisplayManager(&'static str),
    /// Wait this many milliseconds, for the display manager to let go of the GPU.
    Wait(u64),
    /// Stop the NVIDIA daemons of `nvidia_daemons()`; failures are only logged.
    StopNvidiaServices,
    /// Unbind the framebuffer consoles; failures are only logged.
    UnbindFramebuffers,
    /// Kill the processes that hold `/dev/nvidia*` open; failures are only logged.
    KillNvidiaDeviceUsers,
    /// Unload the module at this index of `nvidia_modules_unload_order()`; a failure is
    /// only logged.
    UnloadModule(usize),
    /// Unbind the NVIDIA devices' functions from their drivers.
    UnbindDevices,
    /// Remove the NVIDIA devices from the PCI bus.
    RemoveDevices,
    /// Write the configuration of the new mode.
    WriteVendorConfig(GraphicsMode),
    /// Rescan the PCI bus and read the devices again.
    RefreshDevices,
    /// Load the modules of `load_modules_for_mode` for the new mode.
    LoadModules(GraphicsMode),
    /// Start the enabled NVIDIA daemons; failures are only logged.
    StartNvidiaServices,
    /// Set the power control of the first NVIDIA device for the new mode.
    SetPowerControl(GraphicsMode),
    /// Start this display manager.
    StartDisplayManager(&'static str),
}

/// How a step went.
#[derive(Debug)]
pub enum SwitchEvent {
    /// The step was carried out.
    Succeeded,
    /// The step failed with this error.
    Failed(GraphicsDeviceError),
    /// The display manager found active, if any.
    Found(Option<&'static str>),
}

/// What comes after a step.
#[derive(Debug)]
pub enum SwitchNext {
    /// Carry out this step and report how it went.
    Do(SwitchStep),
    /// The switch is over: the display manager started, or the error that stopped it.
    Finish(Result<&'static str, GraphicsDeviceError>),
}

/// A switch at runtime in progress: the mode switched to, the display manager stopped,
/// and the step under way.
#[derive(Debug)]
pub struct SwitchRuntime {
    pub vendor: GraphicsMode,
    pub stopped: Option<&'static str>,
    pub at: SwitchStep,
}

/// A switch at runtime is allowed: switchable graphics, and external displays that do
/// not need the NVIDIA GPU on this model.
pub open spec fn switch_allowed(graphics: Graphics, is_desktop: bool, model: Seq<char>) -> bool {
    switchable(graphics, is_desktop) && !external_display_requires_nvidia(trim(model))
}

/// The number of NVIDIA modules unloaded.
pub open spec fn unload_count() -> usize {
    4
}

/// The display manager started at the end: the one stopped, else `gdm`.
pub open spec fn restarted(stopped: Option<&'static str>) -> Seq<char> {
    match stopped {
        Some(d) => d@,
        None => "gdm"@,
    }
}

/// The step after a step that succeeded.
pub open spec fn after_success(vendor: GraphicsMode, stopped: Option<&'static str>, at: SwitchStep) -> SwitchStep {
    match at {
        SwitchStep::DetectDisplayManager => SwitchStep::StopNvidiaServices,
        SwitchStep::StopDisplayManager(_) => SwitchStep::Wait(2000),
        SwitchStep::Wait(_) => SwitchStep::StopNvidiaServices,
        SwitchStep::StopNvidiaServices => SwitchStep::UnbindFramebuffers,
        SwitchStep::UnbindFramebuffers => SwitchStep::KillNvidiaDeviceUsers,
        SwitchStep::KillNvidiaDeviceUsers => SwitchStep::UnloadModule(0),
        SwitchStep::UnloadModule(i) => if i + 1 < unload_count() {
            SwitchStep::UnloadModule((i + 1) as usize)
        } else {
            SwitchStep::UnbindDevices
        },
        SwitchStep::UnbindDevices => SwitchStep::RemoveDevices,
        SwitchStep::RemoveDevices => SwitchStep::WriteVendorConfig(vendor),
        SwitchStep::WriteVendorConfig(_) => if vendor == GraphicsMode::Integrated {
            SwitchStep::SetPowerControl(vendor)
        } else {
            SwitchStep::RefreshDevices
        },
        SwitchStep::RefreshDevices => SwitchStep::LoadModules(vendor),
        SwitchStep::LoadModules(_) => SwitchStep::StartNvidiaServices,
        SwitchStep::StartNvidiaServices => SwitchStep::SetPowerControl(vendor),
        // Not reached: a started display manager ends the switch.
        SwitchStep::SetPowerControl(_) | SwitchStep::StartDisplayManager(_) => at,
    }
}

/// Whether a failure of the step stops the switch.
pub open spec fn fatal(at: SwitchStep) -> bool {
    match at {
        SwitchStep::StopDisplayManager(_) | SwitchStep::UnbindDevices | SwitchStep::RemoveDevices
        | SwitchStep::WriteVendorConfig(_) | SwitchStep::RefreshDevices | SwitchStep::LoadModules(_)
        | SwitchStep::StartDisplayManager(_) => true,
        _ => false,
    }
}

impl SwitchRuntime {
    /// Starts a switch to `vendor` where it is allowed: with switchable graphics, and
    /// unless external displays need the NVIDIA GPU on this model. The first step looks
    /// for the display manager.
    pub fn start(graphics: &Graphics, is_desktop: bool, model: &str, vendor: GraphicsMode) -> (r: Result<SwitchRuntime, GraphicsDeviceError>)
        ensures
            match r {
                Ok(s) => switch_allowed(*graphics, is_desktop, model@) && s.vendor == vendor
                    && s.stopped is None && s.at == SwitchStep::DetectDisplayManager,
                Err(e) => !switch_allowed(*graphics, is_desktop, model@) && e is NotSwitchable,
            },
    {
        match graphics.switch_runtime_check(is_desktop, model) {
            Ok(()) => Ok(SwitchRuntime { vendor, stopped: None, at: SwitchStep::DetectDisplayManager }),
            Err(e) => Err(e),
        }
    }

    /// The step after the one under way went as `event` says. A failure of a step that
    /// must succeed ends the switch with that error unchanged; other failures are passed
    /// over. The display manager is stopped only when one was found, the NVIDIA stack is
    /// brought back up only for a mode other than integrated, and the display manager
    /// started at the end is the one stopped, else `gdm`.
    pub fn next(&mut self, event: SwitchEvent) -> (n: SwitchNext)
        ensures
            final(self).vendor == old(self).vendor,
            final(self).stopped == (match (old(self).at, event) {
                (SwitchStep::DetectDisplayManager, SwitchEvent::Found(Some(d))) => Some(d),
                _ => old(self).stopped,
            }),
            fatal(old(self).at) ==> (event matches SwitchEvent::Failed(e) ==> (n matches SwitchNext::Finish(Err(f))
                && f == e)),
            !(event is Failed && fatal(old(self).at)) ==> match old(self).at {
                    SwitchStep::DetectDisplayManager => match event {
                        SwitchEvent::Found(Some(d)) => n matches SwitchNext::Do(s) && s == SwitchStep::StopDisplayManager(d)
                            && final(self).at == s,
                        _ => n matches SwitchNext::Do(s) && s == SwitchStep::StopNvidiaServices && final(self).at == s,
                    },
                    SwitchStep::SetPowerControl(_) => n matches SwitchNext::Do(SwitchStep::StartDisplayManager(d))
                        && d@ == restarted(old(self).stopped) && final(self).at == SwitchStep::StartDisplayManager(d),
                    SwitchStep::StartDisplayManager(d) => n matches SwitchNext::Finish(Ok(s)) && s == d,
                    _ => n matches SwitchNext::Do(s) && s == after_success(old(self).vendor, old(self).stopped, old(self).at)
                        && final(self).at == s,
                },
    {
        let at = self.at;
        if let SwitchEvent::Failed(e) = event {
            let is_fatal = match at {
                SwitchStep::StopDisplayManager(_) | SwitchStep::UnbindDevices | SwitchStep::RemoveDevices
                | SwitchStep::WriteVendorConfig(_) | SwitchStep::RefreshDevices | SwitchStep::LoadModules(_)
                | SwitchStep::StartDisplayManager(_) => true,
                _ => false,
            };
            if is_fatal {
                return SwitchNext::Finish(Err(e));
            }
            return self.advance();
        }
        match at {
            SwitchStep::DetectDisplayManager => {
                if let SwitchEvent::Found(Some(d)) = event {
                    self.stopped = Some(d);
                    self.at = SwitchStep::StopDisplayManager(d);
                    SwitchNext::Do(self.at)
                } else {
                    self.at = SwitchStep::StopNvidiaServices;
                    SwitchNext::Do(self.at)
                }
            },
            _ => self.advance(),
        }
    }

    /// The step after the one under way succeeded, or failed without stopping the switch.
    fn advance(&mut self) -> (n: SwitchNext)
        ensures
            final(self).vendor == old(self).vendor,
            final(self).stopped == old(self).stopped,
            match old(self).at {
                SwitchStep::SetPowerControl(_) => n matches SwitchNext::Do(SwitchStep::StartDisplayManager(d))
                    && d@ == restarted(old(self).stopped) && final(self).at == SwitchStep::StartDisplayManager(d),
                SwitchStep::StartDisplayManager(d) => n matches SwitchNext::Finish(Ok(s)) && s == d,
                _ => n matches SwitchNext::Do(s) && s == after_success(old(self).vendor, old(self).stopped, old(self).at)
                    && final(self).at == s,
            },
    {
        let vendor = self.vendor;
        let next = match self.at {
            SwitchStep::DetectDisplayManager => SwitchStep::StopNvidiaServices,
            SwitchStep::StopDisplayManager(_) => SwitchStep::Wait(2000),
            SwitchStep::Wait(_) => SwitchStep::StopNvidiaServices,
            SwitchStep::StopNvidiaServices => SwitchStep::UnbindFramebuffers,
            SwitchStep::UnbindFramebuffers => SwitchStep::KillNvidiaDeviceUsers,
            SwitchStep::KillNvidiaDeviceUsers => SwitchStep::UnloadModule(0),
            SwitchStep::UnloadModule(i) => if i < 3 {
                SwitchStep::UnloadModule(i + 1)
            } else {
                SwitchStep::UnbindDevices
            },
            SwitchStep::UnbindDevices => SwitchStep::RemoveDevices,
            SwitchStep::RemoveDevices => SwitchStep::WriteVendorConfig(vendor),
            SwitchStep::WriteVendorConfig(_) => if vendor == GraphicsMode::Integrated {
                SwitchStep::SetPowerControl(vendor)
            } else {
                SwitchStep::RefreshDevices
            },
            SwitchStep::RefreshDevices => SwitchStep::LoadModules(vendor),
            SwitchStep::LoadModules(_) => SwitchStep::StartNvidiaServices,
            SwitchStep::StartNvidiaServices => SwitchStep::SetPowerControl(vendor),
            SwitchStep::SetPowerControl(_) => {
                let d = crate::graphics::restart_display_manager(self.stopped);
                SwitchStep::StartDisplayManager(d)
            },
            SwitchStep::StartDisplayManager(d) => {
                return SwitchNext::Finish(Ok(d));
            },
        };
        self.at = next;
        SwitchNext::Do(next)
    }
}

} // verus!

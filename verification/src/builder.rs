//! The graphics-context builder: the order in which a graphics bundle is
//! negotiated from a window, and what is decided on the way. The host does
//! each step and reports its outcome; the builder says what comes next.

use vstd::prelude::*;
use crate::bundle::Wgpu;
use crate::size::{clamp_dimension, effective_size};

verus! {

/// The graphics backends that an instance is made for.
#[derive(Clone, Copy, Debug, PartialEq, Eq, Structural)]
pub enum Backend {
    /// The backends that the platform offers by default.
    Default,
    /// The secondary backend, taken when the default ones have no adapter.
    Fallback,
}

/// Why a build cannot go on. None of these can be recovered from.
#[derive(Clone, Copy, Debug, PartialEq, Eq, Structural)]
pub enum BuildError {
    /// No surface could be made for the window.
    NoSurface,
    /// No adapter is compatible with the surface.
    NoAdapter,
    /// The adapter gave no device.
    NoDevice,
}

/// What the host is to do next.
#[derive(Clone, Copy, Debug, PartialEq, Eq, Structural)]
pub enum BuildStep {
    /// Make an instance for the default backends and ask it for any adapter.
    ProbeDefaultBackend,
    /// Make a surface for the window, on an instance for `backend`.
    CreateSurface { backend: Backend },
    /// Ask for an adapter that is compatible with the surface.
    RequestAdapter,
    /// Ask the adapter for a device and its queue.
    RequestDevice,
    /// Configure the surface at the given size.
    ConfigureSurface { width: u32, height: u32 },
    /// Assemble the bundle: every part is there.
    Finish,
    /// Give up.
    Abort { error: BuildError },
}

/// What a step came to.
#[derive(Clone, Copy, Debug, PartialEq, Eq, Structural)]
pub enum BuildOutcome {
    /// The default backends were asked for an adapter.
    Probed { adapter_found: bool },
    /// The surface is there.
    SurfaceCreated,
    /// No surface could be made.
    SurfaceFailed,
    /// A compatible adapter is there.
    AdapterFound,
    /// There is no compatible adapter.
    AdapterMissing,
    /// Device and queue are there. `width` x `height` is the inner size of
    /// the window at this moment, either of which may be zero.
    DeviceCreated { width: u32, height: u32 },
    /// The adapter gave no device.
    DeviceFailed,
    /// The surface is configured.
    Configured,
}

/// The backends to go on with after the probe of the default ones.
pub open spec fn backend_after_probe(adapter_found: bool) -> Backend {
    if adapter_found {
        Backend::Default
    } else {
        Backend::Fallback
    }
}

impl BuildStep {
    /// Whether `outcome` reports on this step. Nothing reports on `Finish`
    /// or `Abort`: the build is over.
    pub open spec fn expects(self, outcome: BuildOutcome) -> bool {
        match self {
            BuildStep::ProbeDefaultBackend => outcome is Probed,
            BuildStep::CreateSurface { .. } => outcome is SurfaceCreated || outcome is SurfaceFailed,
            BuildStep::RequestAdapter => outcome is AdapterFound || outcome is AdapterMissing,
            BuildStep::RequestDevice => outcome is DeviceCreated || outcome is DeviceFailed,
            BuildStep::ConfigureSurface { .. } => outcome is Configured,
            BuildStep::Finish => false,
            BuildStep::Abort { .. } => false,
        }
    }

    /// The step that follows this one, given its outcome.
    pub open spec fn followed_by(self, outcome: BuildOutcome) -> BuildStep
        recommends
            self.expects(outcome),
    {
        match outcome {
            BuildOutcome::Probed { adapter_found } => BuildStep::CreateSurface {
                backend: backend_after_probe(adapter_found),
            },
            BuildOutcome::SurfaceCreated => BuildStep::RequestAdapter,
            BuildOutcome::SurfaceFailed => BuildStep::Abort { error: BuildError::NoSurface },
            BuildOutcome::AdapterFound => BuildStep::RequestDevice,
            BuildOutcome::AdapterMissing => BuildStep::Abort { error: BuildError::NoAdapter },
            BuildOutcome::DeviceCreated { width, height } => BuildStep::ConfigureSurface {
                width: clamp_dimension(width),
                height: clamp_dimension(height),
            },
            BuildOutcome::DeviceFailed => BuildStep::Abort { error: BuildError::NoDevice },
            BuildOutcome::Configured => BuildStep::Finish,
        }
    }

    /// The step reached from this one by `outcomes`, in order.
    pub open spec fn after(self, outcomes: Seq<BuildOutcome>) -> BuildStep
        decreases outcomes.len(),
    {
        if outcomes.len() == 0 {
            self
        } else {
            self.after(outcomes.drop_last()).followed_by(outcomes.last())
        }
    }

    /// Whether each of `outcomes` reports on the step that is pending when
    /// it comes.
    pub open spec fn admits(self, outcomes: Seq<BuildOutcome>) -> bool
        decreases outcomes.len(),
    {
        outcomes.len() == 0 || (self.admits(outcomes.drop_last()) && self.after(
            outcomes.drop_last(),
        ).expects(outcomes.last()))
    }
}

/// One build of a graphics bundle, from the first probe to the finished
/// bundle or to the reason for giving up.
pub struct Builder {
    suspend_count: u64,
    step: BuildStep,
}

impl Builder {
    /// The suspend counter that the bundle will carry.
    pub closed spec fn spec_suspend_count(&self) -> u64 {
        self.suspend_count
    }

    /// The step that the host is to do now.
    pub closed spec fn spec_step(&self) -> BuildStep {
        self.step
    }

    /// A build tagged with `suspend_count`. It starts with the probe of the
    /// default backends.
    pub fn new(suspend_count: u64) -> (builder: Self)
        ensures
            builder.suspend_count() == suspend_count,
            builder.step() == BuildStep::ProbeDefaultBackend,
    {
        Builder { suspend_count, step: BuildStep::ProbeDefaultBackend }
    }

    /// The suspend counter that the bundle will carry.
    #[verifier::when_used_as_spec(spec_suspend_count)]
    pub fn suspend_count(&self) -> (count: u64)
        ensures
            count == self.spec_suspend_count(),
    {
        self.suspend_count
    }

    /// The step that the host is to do now.
    #[verifier::when_used_as_spec(spec_step)]
    pub fn step(&self) -> (step: BuildStep)
        ensures
            step == self.spec_step(),
    {
        self.step
    }

    /// Whether `outcome` reports on the pending step.
    pub fn expects(&self, outcome: BuildOutcome) -> (expected: bool)
        ensures
            expected == self.step().expects(outcome),
    {
        match self.step {
            BuildStep::ProbeDefaultBackend => matches!(outcome, BuildOutcome::Probed { .. }),
            BuildStep::CreateSurface { .. } => matches!(
                outcome,
                BuildOutcome::SurfaceCreated | BuildOutcome::SurfaceFailed
            ),
            BuildStep::RequestAdapter => matches!(
                outcome,
                BuildOutcome::AdapterFound | BuildOutcome::AdapterMissing
            ),
            BuildStep::RequestDevice => matches!(
                outcome,
                BuildOutcome::DeviceCreated { .. } | BuildOutcome::DeviceFailed
            ),
            BuildStep::ConfigureSurface { .. } => matches!(outcome, BuildOutcome::Configured),
            BuildStep::Finish => false,
            BuildStep::Abort { .. } => false,
        }
    }

    /// Takes the outcome of the pending step and returns the step that
    /// follows. A probe that found no adapter turns to the fallback backend;
    /// a missing surface, adapter or device ends the build; the surface is
    /// configured at the window's size, clamped to the minimum.
    pub fn advance(&mut self, outcome: BuildOutcome) -> (next: BuildStep)
        requires
            old(self).step().expects(outcome),
        ensures
            next == old(self).step().followed_by(outcome),
            final(self).step() == next,
            final(self).suspend_count() == old(self).suspend_count(),
    {
        let next = match outcome {
            BuildOutcome::Probed { adapter_found } => BuildStep::CreateSurface {
                backend: if adapter_found {
                    Backend::Default
                } else {
                    Backend::Fallback
                },
            },
            BuildOutcome::SurfaceCreated => BuildStep::RequestAdapter,
            BuildOutcome::SurfaceFailed => BuildStep::Abort { error: BuildError::NoSurface },
            BuildOutcome::AdapterFound => BuildStep::RequestDevice,
            BuildOutcome::AdapterMissing => BuildStep::Abort { error: BuildError::NoAdapter },
            BuildOutcome::DeviceCreated { width, height } => {
                let (w, h) = effective_size(width, height);
                BuildStep::ConfigureSurface { width: w, height: h }
            },
            BuildOutcome::DeviceFailed => BuildStep::Abort { error: BuildError::NoDevice },
            BuildOutcome::Configured => BuildStep::Finish,
        };
        self.step = next;
        next
    }

    /// Assembles the bundle of a finished build. It carries the counter that
    /// the build was tagged with.
    pub fn finish<D, Q, A, S>(self, device: D, queue: Q, adapter: A, surface: S) -> (wgpu: Wgpu<
        D,
        Q,
        A,
        S,
    >)
        requires
            self.step() is Finish,
        ensures
            wgpu == (Wgpu { device, queue, adapter, surface, suspend_count: self.suspend_count() }),
    {
        Wgpu::new(device, queue, adapter, surface, self.suspend_count)
    }
}

} // verus!

//! The surface initializer: the decisions of start-up, step by step.
//!
//! Start-up talks to the window system and to the GPU, and waits for both. The
//! host does that work. After each piece of it the host reports what came back
//! as a [`SetupEvent`], and [`graphics_setup`] answers with the next
//! [`SetupAction`] to perform. Every failure on the way is fatal.

use vstd::prelude::*;
use crate::surface::{FrameDropState, PhysicalSize, SurfaceConfiguration};

verus! {

/// The set of GPU backends that an instance may use.
#[derive(Clone, Copy, Debug, PartialEq, Eq)]
pub enum Backends {
    Primary,
    Secondary,
    All,
}

/// Which kind of adapter is preferred.
#[derive(Clone, Copy, Debug, PartialEq, Eq)]
pub enum PowerPreference {
    LowPower,
    HighPerformance,
}

/// What is asked of the adapter that start-up requests.
#[derive(Clone, Copy, Debug, PartialEq, Eq)]
pub struct AdapterRequest {
    pub power_preference: PowerPreference,
    /// The adapter must be able to present to the surface of the primary window.
    pub compatible_with_surface: bool,
    pub force_fallback_adapter: bool,
}

/// Why start-up was given up. None of these is recovered from.
#[derive(Clone, Copy, Debug, PartialEq, Eq)]
pub enum SetupError {
    /// No primary window is open.
    NoPrimaryWindow,
    /// No adapter fits the request.
    NoAdapter,
    /// The adapter granted no device.
    NoDevice,
    /// The surface cannot be presented to by the adapter: it has no preferred format.
    NoPreferredFormat,
    /// The primary window has no area, so there is nothing to configure the
    /// surface with.
    ZeroSizedWindow,
    /// The host reported something that the step in progress does not wait for.
    OutOfOrder,
}

/// How far start-up has come: what the host is doing at the moment.
#[derive(Clone, Copy, Debug, PartialEq, Eq)]
pub enum SetupPhase {
    CreatingInstance,
    CreatingSurface,
    RequestingAdapter { size: PhysicalSize },
    RequestingDevice { size: PhysicalSize },
    QueryingFormat { size: PhysicalSize },
    Configuring { config: SurfaceConfiguration },
    /// Start-up is complete and the shared state is published.
    Ready { config: SurfaceConfiguration, drop_state: FrameDropState },
    Failed { error: SetupError },
}

/// What the host reports after performing a [`SetupAction`].
#[derive(Clone, Copy, Debug, PartialEq, Eq)]
pub enum SetupEvent {
    InstanceCreated,
    /// The surface of the primary window, with the window's size at that
    /// moment; `None` if there is no primary window.
    SurfaceCreated { window: Option<PhysicalSize> },
    AdapterAnswered { found: bool },
    DeviceAnswered { granted: bool },
    FormatAnswered { preferred: Option<wgpu::TextureFormat> },
    SurfaceConfigured,
}

/// What the host has to do next.
#[derive(Clone, Copy, Debug, PartialEq, Eq)]
pub enum SetupAction {
    CreateInstance { backends: Backends },
    /// Create the surface of the primary window and read the window's size.
    CreateSurface,
    /// Request an adapter and wait for the answer.
    RequestAdapter { request: AdapterRequest },
    /// Request a device and its queue from the adapter, with default features
    /// and limits, and wait for the answer.
    RequestDevice,
    /// Ask the surface which format it prefers with the adapter.
    QueryPreferredFormat,
    /// Apply the configuration to the surface.
    Configure { config: SurfaceConfiguration },
    /// Publish instance, device, queue and surface together with this state.
    Publish { config: SurfaceConfiguration, drop_state: FrameDropState },
    /// Abort the process.
    Abort { error: SetupError },
    /// Start-up was completed before: there is nothing left to do.
    Nothing,
}

impl SetupPhase {
    /// What holds of every phase that start-up can be in: a configuration that
    /// is about to be applied, or was published, has an area, and the published
    /// frame counts as dropped.
    pub open spec fn well_formed(self) -> bool {
        match self {
            SetupPhase::Configuring { config } => config.well_formed(),
            SetupPhase::Ready { config, drop_state } => config.well_formed() && drop_state.dropped,
            _ => true,
        }
    }
}

/// The adapter that start-up asks for: the fastest one that can present to the
/// surface, and no software fallback.
pub open spec fn adapter_request() -> AdapterRequest {
    AdapterRequest {
        power_preference: PowerPreference::HighPerformance,
        compatible_with_surface: true,
        force_fallback_adapter: false,
    }
}

/// Where start-up begins: an instance over all backends is to be created.
pub open spec fn setup_start() -> (SetupPhase, SetupAction) {
    (SetupPhase::CreatingInstance, SetupAction::CreateInstance { backends: Backends::All })
}

/// Giving up with `error`.
pub open spec fn setup_failure(error: SetupError) -> (SetupPhase, SetupAction) {
    (SetupPhase::Failed { error }, SetupAction::Abort { error })
}

/// The transition of start-up: the phase that follows `phase` when the host
/// reports `event`, and what the host has to do then.
pub open spec fn setup_transition(phase: SetupPhase, event: SetupEvent) -> (
    SetupPhase,
    SetupAction,
) {
    match (phase, event) {
        (SetupPhase::CreatingInstance, SetupEvent::InstanceCreated) => (
            SetupPhase::CreatingSurface,
            SetupAction::CreateSurface,
        ),
        (SetupPhase::CreatingSurface, SetupEvent::SurfaceCreated { window: Some(size) }) => (
            SetupPhase::RequestingAdapter { size },
            SetupAction::RequestAdapter { request: adapter_request() },
        ),
        (SetupPhase::CreatingSurface, SetupEvent::SurfaceCreated { window: None }) => setup_failure(
            SetupError::NoPrimaryWindow,
        ),
        (SetupPhase::RequestingAdapter { size }, SetupEvent::AdapterAnswered { found }) => if found {
            (SetupPhase::RequestingDevice { size }, SetupAction::RequestDevice)
        } else {
            setup_failure(SetupError::NoAdapter)
        },
        (SetupPhase::RequestingDevice { size }, SetupEvent::DeviceAnswered { granted }) => if granted {
            (SetupPhase::QueryingFormat { size }, SetupAction::QueryPreferredFormat)
        } else {
            setup_failure(SetupError::NoDevice)
        },
        (SetupPhase::QueryingFormat { size }, SetupEvent::FormatAnswered { preferred: Some(format) }) => {
            if size.is_minimized() {
                setup_failure(SetupError::ZeroSizedWindow)
            } else {
                let config = SurfaceConfiguration::presentable(format, size);
                (SetupPhase::Configuring { config }, SetupAction::Configure { config })
            }
        },
        (SetupPhase::QueryingFormat { size }, SetupEvent::FormatAnswered { preferred: None }) => setup_failure(
            SetupError::NoPreferredFormat,
        ),
        (SetupPhase::Configuring { config }, SetupEvent::SurfaceConfigured) => {
            let drop_state = FrameDropState { dropped: true };
            (SetupPhase::Ready { config, drop_state }, SetupAction::Publish { config, drop_state })
        },
        (SetupPhase::Ready { config, drop_state }, _) => (phase, SetupAction::Nothing),
        (SetupPhase::Failed { error }, _) => setup_failure(error),
        _ => setup_failure(SetupError::OutOfOrder),
    }
}

/// The phase that start-up is in after the host has reported `events`, in
/// order, from its beginning.
pub open spec fn setup_run(events: Seq<SetupEvent>) -> SetupPhase
    decreases events.len(),
{
    if events.len() == 0 {
        setup_start().0
    } else {
        setup_transition(setup_run(events.drop_last()), events.last()).0
    }
}

/// The reports of a start-up in which nothing fails, for a primary window of
/// the given size and a surface that prefers the given format.
pub open spec fn successful_setup(size: PhysicalSize, format: wgpu::TextureFormat) -> Seq<
    SetupEvent,
> {
    seq![
        SetupEvent::InstanceCreated,
        SetupEvent::SurfaceCreated { window: Some(size) },
        SetupEvent::AdapterAnswered { found: true },
        SetupEvent::DeviceAnswered { granted: true },
        SetupEvent::FormatAnswered { preferred: Some(format) },
        SetupEvent::SurfaceConfigured,
    ]
}

/// What a phase says of the reports that led to it: how many there were, and
/// that the size and the format in it are those that the host reported.
pub open spec fn phase_reflects(phase: SetupPhase, events: Seq<SetupEvent>) -> bool {
    match phase {
        SetupPhase::CreatingInstance => events.len() == 0,
        SetupPhase::CreatingSurface => events.len() == 1,
        SetupPhase::RequestingAdapter { size } => {
            &&& events.len() == 2
            &&& events[1] == SetupEvent::SurfaceCreated { window: Some(size) }
        },
        SetupPhase::RequestingDevice { size } => {
            &&& events.len() == 3
            &&& events[1] == SetupEvent::SurfaceCreated { window: Some(size) }
        },
        SetupPhase::QueryingFormat { size } => {
            &&& events.len() == 4
            &&& events[1] == SetupEvent::SurfaceCreated { window: Some(size) }
        },
        SetupPhase::Configuring { config } => {
            &&& events.len() == 5
            &&& events[1] == SetupEvent::SurfaceCreated { window: Some(config.size()) }
            &&& events[4] == SetupEvent::FormatAnswered { preferred: Some(config.format) }
            &&& config == SurfaceConfiguration::presentable(config.format, config.size())
            &&& config.well_formed()
        },
        SetupPhase::Ready { config, drop_state } => {
            &&& events.len() >= 6
            &&& events[1] == SetupEvent::SurfaceCreated { window: Some(config.size()) }
            &&& events[4] == SetupEvent::FormatAnswered { preferred: Some(config.format) }
            &&& config == SurfaceConfiguration::presentable(config.format, config.size())
            &&& config.well_formed()
            &&& drop_state.dropped
        },
        SetupPhase::Failed { error } => true,
    }
}

/// Every phase that start-up reaches reflects the reports that led to it.
pub proof fn lemma_setup_reflects_reports(events: Seq<SetupEvent>)
    ensures
        phase_reflects(setup_run(events), events),
        setup_run(events).well_formed(),
    decreases events.len(),
{
    if events.len() > 0 {
        let front = events.drop_last();
        lemma_setup_reflects_reports(front);
        if front.len() > 1 {
            assert(front[1] == events[1]);
        }
        if front.len() > 4 {
            assert(front[4] == events[4]);
        }
    }
}

/// When start-up has completed, the published configuration has the size that
/// the primary window had when its surface was created and the format that the
/// surface prefers, it is set up for rendering with vertical sync, and the
/// published frame counts as dropped.
pub proof fn lemma_setup_publishes_window_size(
    events: Seq<SetupEvent>,
    config: SurfaceConfiguration,
    drop_state: FrameDropState,
)
    requires
        setup_run(events) == (SetupPhase::Ready { config, drop_state }),
    ensures
        events.len() >= 6,
        events[1] == (SetupEvent::SurfaceCreated { window: Some(config.size()) }),
        events[4] == (SetupEvent::FormatAnswered { preferred: Some(config.format) }),
        config == SurfaceConfiguration::presentable(config.format, config.size()),
        config.well_formed(),
        drop_state.dropped,
{
    lemma_setup_reflects_reports(events);
}

/// The phase after one more report.
pub proof fn lemma_setup_run_step(events: Seq<SetupEvent>, i: int)
    requires
        0 <= i < events.len(),
    ensures
        setup_run(events.take(i + 1)) == setup_transition(setup_run(events.take(i)), events[i]).0,
{
    assert(events.take(i + 1).drop_last() =~= events.take(i));
}

/// A start-up in which nothing fails, for a primary window with an area,
/// completes: it publishes the configuration of that size in the preferred
/// format, and a frame-drop flag that is set.
pub proof fn lemma_setup_completes(size: PhysicalSize, format: wgpu::TextureFormat)
    requires
        !size.is_minimized(),
    ensures
        setup_run(successful_setup(size, format)) == (SetupPhase::Ready {
            config: SurfaceConfiguration::presentable(format, size),
            drop_state: FrameDropState { dropped: true },
        }),
        SurfaceConfiguration::presentable(format, size).size() == size,
{
    let events = successful_setup(size, format);
    assert(setup_run(events.take(0)) == SetupPhase::CreatingInstance);
    lemma_setup_run_step(events, 0);
    lemma_setup_run_step(events, 1);
    lemma_setup_run_step(events, 2);
    lemma_setup_run_step(events, 3);
    lemma_setup_run_step(events, 4);
    lemma_setup_run_step(events, 5);
    assert(events.take(6) =~= events);
}

/// Once start-up has failed it stays failed, with the first error.
pub proof fn lemma_setup_failure_is_final(error: SetupError, event: SetupEvent)
    ensures
        setup_transition(SetupPhase::Failed { error }, event) == setup_failure(error),
{
}

/// Whatever the host reports, start-up never asks for a configuration
/// without area to be applied or published.
pub proof fn lemma_setup_never_configures_zero_area(events: Seq<SetupEvent>, event: SetupEvent)
    ensures
        setup_transition(setup_run(events), event).1 matches SetupAction::Configure { config }
            ==> config.well_formed(),
        setup_transition(setup_run(events), event).1 matches SetupAction::Publish {
            config,
            drop_state,
        } ==> config.well_formed() && drop_state.dropped,
{
    lemma_setup_reflects_reports(events);
}

/// Begins start-up: the first phase, and the first thing for the host to do.
pub fn begin_setup() -> (start: (SetupPhase, SetupAction))
    ensures
        start == setup_start(),
        start.0.well_formed(),
{
    (SetupPhase::CreatingInstance, SetupAction::CreateInstance { backends: Backends::All })
}

/// One step of start-up: takes the phase in progress and what the host reports
/// of it, and returns the next phase with what the host has to do.
///
/// A missing primary window, a missing adapter, a refused device, a surface
/// without a preferred format and a window without area each end start-up with
/// [`SetupAction::Abort`]; so does a report that the phase does not wait for.
pub fn graphics_setup(phase: SetupPhase, event: SetupEvent) -> (next: (SetupPhase, SetupAction))
    ensures
        next == setup_transition(phase, event),
        phase.well_formed() ==> next.0.well_formed(),
        next.1 matches SetupAction::Configure { config } ==> config.well_formed(),
{
    match (phase, event) {
        (SetupPhase::CreatingInstance, SetupEvent::InstanceCreated) => (
            SetupPhase::CreatingSurface,
            SetupAction::CreateSurface,
        ),
        (SetupPhase::CreatingSurface, SetupEvent::SurfaceCreated { window: Some(size) }) => {
            let request = AdapterRequest {
                power_preference: PowerPreference::HighPerformance,
                compatible_with_surface: true,
                force_fallback_adapter: false,
            };
            (SetupPhase::RequestingAdapter { size }, SetupAction::RequestAdapter { request })
        },
        (SetupPhase::CreatingSurface, SetupEvent::SurfaceCreated { window: None }) => fail(
            SetupError::NoPrimaryWindow,
        ),
        (SetupPhase::RequestingAdapter { size }, SetupEvent::AdapterAnswered { found }) => {
            if found {
                (SetupPhase::RequestingDevice { size }, SetupAction::RequestDevice)
            } else {
                fail(SetupError::NoAdapter)
            }
        },
        (SetupPhase::RequestingDevice { size }, SetupEvent::DeviceAnswered { granted }) => {
            if granted {
                (SetupPhase::QueryingFormat { size }, SetupAction::QueryPreferredFormat)
            } else {
                fail(SetupError::NoDevice)
            }
        },
        (
            SetupPhase::QueryingFormat { size },
            SetupEvent::FormatAnswered { preferred: Some(format) },
        ) => {
            match SurfaceConfiguration::new(format, size) {
                Some(config) => (
                    SetupPhase::Configuring { config },
                    SetupAction::Configure { config },
                ),
                None => fail(SetupError::ZeroSizedWindow),
            }
        },
        (SetupPhase::QueryingFormat { size: _ }, SetupEvent::FormatAnswered { preferred: None }) => {
            fail(SetupError::NoPreferredFormat)
        },
        (SetupPhase::Configuring { config }, SetupEvent::SurfaceConfigured) => {
            let drop_state = FrameDropState::initial();
            (SetupPhase::Ready { config, drop_state }, SetupAction::Publish { config, drop_state })
        },
        (SetupPhase::Ready { config, drop_state }, _) => (
            SetupPhase::Ready { config, drop_state },
            SetupAction::Nothing,
        ),
        (SetupPhase::Failed { error }, _) => fail(error),
        _ => fail(SetupError::OutOfOrder),
    }
}

fn fail(error: SetupError) -> (next: (SetupPhase, SetupAction))
    ensures
        next == setup_failure(error),
{
    (SetupPhase::Failed { error }, SetupAction::Abort { error })
}

} // verus!

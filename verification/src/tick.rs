//! How the stages work together from one tick to the next: start-up leaves
//! the frame-drop flag set, the resize handler reads it, the frame renderer
//! writes it.

use vstd::prelude::*;
use crate::frame::{clear_pass_view, frame_commands, frame_drop_state, FrameCommandView};
use crate::resize::{resize_action, scan_events, ResizeAction, ResizeEvent};
use crate::setup::{setup_run, SetupEvent, SetupPhase};
use crate::surface::{FrameDropState, SurfaceConfiguration};

verus! {

/// The first tick after start-up reconfigures the surface with the published
/// configuration, even if no window was resized.
pub proof fn lemma_first_tick_reconfigures(
    reports: Seq<SetupEvent>,
    config: SurfaceConfiguration,
    drop_state: FrameDropState,
)
    requires
        setup_run(reports) == (SetupPhase::Ready { config, drop_state }),
    ensures
        resize_action(scan_events(config, Seq::empty()), drop_state.dropped)
            == ResizeAction::Reconfigure(config),
        config.well_formed(),
{
    crate::setup::lemma_setup_reflects_reports(reports);
}

/// A dropped frame heals itself. If a tick fails to acquire its texture, the
/// flag is set and nothing is drawn, submitted or presented. In the next tick
/// the resize handler then reconfigures the surface with the configuration as
/// it is, though no window was resized. If that tick acquires its texture, the
/// flag is cleared, and one pass is recorded, submitted once and presented
/// once.
pub proof fn lemma_dropped_frame_heals(config: SurfaceConfiguration)
    ensures
        frame_drop_state(false).dropped,
        frame_commands(false).len() == 0,
        scan_events(config, Seq::empty()).config == config,
        resize_action(scan_events(config, Seq::empty()), frame_drop_state(false).dropped)
            == ResizeAction::Reconfigure(config),
        !frame_drop_state(true).dropped,
        frame_commands(true) == seq![
            FrameCommandView::Record(clear_pass_view()),
            FrameCommandView::Submit,
            FrameCommandView::Present,
        ],
{
}

/// After a frame that was presented, a tick in which the primary window is
/// not resized leaves the surface alone.
pub proof fn lemma_presented_frame_keeps_surface(
    config: SurfaceConfiguration,
    events: Seq<ResizeEvent>,
)
    requires
        forall|i: int| 0 <= i < events.len() ==> !(#[trigger] events[i]).is_primary(),
    ensures
        scan_events(config, events).config == config,
        resize_action(scan_events(config, events), frame_drop_state(true).dropped)
            == ResizeAction::Keep,
{
    crate::resize::lemma_only_secondary_events(config, false, events);
}

/// From start-up on, every configuration that a tick applies to the surface
/// has an area.
pub proof fn lemma_applied_configuration_has_area(
    config: SurfaceConfiguration,
    dropped: bool,
    events: Seq<ResizeEvent>,
    applied: SurfaceConfiguration,
)
    requires
        config.well_formed(),
        resize_action(scan_events(config, events), dropped) == ResizeAction::Reconfigure(applied),
    ensures
        applied == scan_events(config, events).config,
        applied.well_formed(),
{
    crate::resize::lemma_resize_keeps_area(config, events);
}

} // verus!

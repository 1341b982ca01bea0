//! The resize handler: what a tick does with the resize notifications that
//! arrived since the last one.
//!
//! Notifications are taken in the order of their arrival. Only those of the
//! primary window count. One that reports a window without area means that the
//! window is minimized: the handler stops there, and the surface is left alone
//! for this tick, whether or not the previous frame was dropped. Notifications
//! that arrived after it in the same tick are not looked at; a size that an
//! earlier one gave stays in the configuration without being applied.
//! Otherwise the surface is reconfigured, once, if a notification gave it a
//! new size or if the previous frame was dropped.

use vstd::prelude::*;
use crate::surface::{FrameDropState, PhysicalSize, SurfaceConfiguration};

verus! {

/// Which window a notification belongs to.
#[derive(Clone, Copy, Debug, PartialEq, Eq)]
pub enum WindowId {
    /// The window that the surface is bound to.
    Primary,
    /// Any other window.
    Secondary,
}

/// The notification that a window has a new size.
#[derive(Clone, Copy, Debug, PartialEq, Eq)]
pub struct ResizeEvent {
    pub window: WindowId,
    pub width: u32,
    pub height: u32,
}

/// What the host does to the surface after the notifications of a tick.
#[derive(Clone, Copy, Debug, PartialEq, Eq)]
pub enum ResizeAction {
    /// Leave the surface as it is.
    Keep,
    /// Apply the configuration to the surface, once.
    Reconfigure(SurfaceConfiguration),
}

impl ResizeEvent {
    /// The size that the notification reports.
    pub open spec fn size(self) -> PhysicalSize {
        PhysicalSize { width: self.width, height: self.height }
    }

    /// Whether the notification belongs to the primary window.
    pub open spec fn is_primary(self) -> bool {
        self.window is Primary
    }

    /// Whether the notification says that the primary window is minimized.
    pub open spec fn is_minimize(self) -> bool {
        self.is_primary() && self.size().is_minimized()
    }

    /// Whether the notification belongs to the primary window.
    pub fn primary(&self) -> (primary: bool)
        ensures
            primary == self.is_primary(),
    {
        match self.window {
            WindowId::Primary => true,
            WindowId::Secondary => false,
        }
    }
}

/// What is known after a part of a tick's notifications.
pub struct ResizeScan {
    /// The configuration as the notifications so far leave it.
    pub config: SurfaceConfiguration,
    /// Whether one of them gave the surface a size.
    pub resized: bool,
    /// Whether one of them reported the primary window minimized.
    pub minimized: bool,
}

/// What one more notification makes of a scan.
pub open spec fn scan_event(scan: ResizeScan, event: ResizeEvent) -> ResizeScan {
    if scan.minimized || !event.is_primary() {
        scan
    } else if event.size().is_minimized() {
        ResizeScan { minimized: true, ..scan }
    } else {
        ResizeScan { config: scan.config.resized(event.size()), resized: true, minimized: false }
    }
}

/// The scan of a whole batch, from the configuration that the tick begins
/// with, in the order of arrival.
pub open spec fn scan_events(config: SurfaceConfiguration, events: Seq<ResizeEvent>) -> ResizeScan
    decreases events.len(),
{
    if events.len() == 0 {
        ResizeScan { config, resized: false, minimized: false }
    } else {
        scan_event(scan_events(config, events.drop_last()), events.last())
    }
}

/// What the host does after a scan, given whether the previous frame was
/// dropped.
pub open spec fn resize_action(scan: ResizeScan, dropped: bool) -> ResizeAction {
    if !scan.minimized && (dropped || scan.resized) {
        ResizeAction::Reconfigure(scan.config)
    } else {
        ResizeAction::Keep
    }
}

/// The scan of the first `i + 1` notifications is the scan of the first `i`,
/// followed by the one at `i`.
pub proof fn lemma_scan_step(config: SurfaceConfiguration, events: Seq<ResizeEvent>, i: int)
    requires
        0 <= i < events.len(),
    ensures
        scan_events(config, events.take(i + 1)) == scan_event(
            scan_events(config, events.take(i)),
            events[i],
        ),
{
    assert(events.take(i + 1).drop_last() =~= events.take(i));
}

/// Once the window was reported minimized, the rest of the batch changes
/// nothing.
pub proof fn lemma_scan_stops_when_minimized(
    config: SurfaceConfiguration,
    events: Seq<ResizeEvent>,
    k: int,
)
    requires
        0 <= k <= events.len(),
        scan_events(config, events.take(k)).minimized,
    ensures
        scan_events(config, events) == scan_events(config, events.take(k)),
    decreases events.len(),
{
    if k == events.len() {
        assert(events.take(k) =~= events);
    } else {
        assert(events.drop_last().take(k) =~= events.take(k));
        lemma_scan_stops_when_minimized(config, events.drop_last(), k);
    }
}

/// The notifications of the primary window among `events`, in order.
pub open spec fn primary_events(events: Seq<ResizeEvent>) -> Seq<ResizeEvent> {
    events.filter(|event: ResizeEvent| event.is_primary())
}

/// A tick without notifications reconfigures the surface exactly if the
/// previous frame was dropped, and then with the configuration as it is.
pub proof fn lemma_dropped_frame_reconfigures(config: SurfaceConfiguration, dropped: bool)
    ensures
        scan_events(config, Seq::empty()).config == config,
        dropped ==> resize_action(scan_events(config, Seq::empty()), dropped)
            == ResizeAction::Reconfigure(config),
        !dropped ==> resize_action(scan_events(config, Seq::empty()), dropped)
            == ResizeAction::Keep,
{
}

/// A notification of a secondary window changes nothing.
pub proof fn lemma_secondary_event_ignored(scan: ResizeScan, event: ResizeEvent)
    requires
        !event.is_primary(),
    ensures
        scan_event(scan, event) == scan,
{
}

/// Notifications of secondary windows can be taken out of a batch: what
/// remains leaves the same configuration and asks for the same action.
pub proof fn lemma_secondary_events_ignored(
    config: SurfaceConfiguration,
    dropped: bool,
    events: Seq<ResizeEvent>,
)
    ensures
        scan_events(config, events) == scan_events(config, primary_events(events)),
        resize_action(scan_events(config, events), dropped) == resize_action(
            scan_events(config, primary_events(events)),
            dropped,
        ),
    decreases events.len(),
{
    reveal(Seq::filter);
    if events.len() > 0 {
        lemma_secondary_events_ignored(config, dropped, events.drop_last());
        if events.last().is_primary() {
            let kept = primary_events(events.drop_last());
            assert(primary_events(events) == kept.push(events.last()));
            assert(kept.push(events.last()).drop_last() =~= kept);
        }
    }
}

/// A batch that holds no notification of the primary window leaves the
/// configuration as it is, and reconfigures only for a dropped frame.
pub proof fn lemma_only_secondary_events(
    config: SurfaceConfiguration,
    dropped: bool,
    events: Seq<ResizeEvent>,
)
    requires
        forall|i: int| 0 <= i < events.len() ==> !(#[trigger] events[i]).is_primary(),
    ensures
        scan_events(config, events) == scan_events(config, Seq::empty()),
        scan_events(config, events).config == config,
        !dropped ==> resize_action(scan_events(config, events), dropped) == ResizeAction::Keep,
        dropped ==> resize_action(scan_events(config, events), dropped)
            == ResizeAction::Reconfigure(config),
    decreases events.len(),
{
    if events.len() > 0 {
        lemma_only_secondary_events(config, dropped, events.drop_last());
    }
}

/// Notifications change the size of the configuration and nothing else:
/// usage, format and presentation mode stay as they were.
pub proof fn lemma_resize_changes_size_only(config: SurfaceConfiguration, events: Seq<ResizeEvent>)
    ensures
        scan_events(config, events).config == config.resized(scan_events(config, events).config.size()),
        !scan_events(config, events).resized ==> scan_events(config, events).config == config,
    decreases events.len(),
{
    if events.len() > 0 {
        lemma_resize_changes_size_only(config, events.drop_last());
    }
}

/// A scan has seen the window minimized exactly if the batch holds a
/// notification that says so.
pub proof fn lemma_minimized_iff_reported(config: SurfaceConfiguration, events: Seq<ResizeEvent>)
    ensures
        scan_events(config, events).minimized <==> exists|i: int|
            0 <= i < events.len() && (#[trigger] events[i]).is_minimize(),
    decreases events.len(),
{
    if events.len() > 0 {
        let front = events.drop_last();
        lemma_minimized_iff_reported(config, front);
        if scan_events(config, events).minimized {
            if scan_events(config, front).minimized {
                let i = choose|i: int| 0 <= i < front.len() && (#[trigger] front[i]).is_minimize();
                assert(events[i].is_minimize());
            } else {
                assert(events[events.len() - 1].is_minimize());
            }
        } else {
            assert forall|i: int| 0 <= i < events.len() implies !(#[trigger] events[i]).is_minimize() by {
                if i < front.len() {
                    assert(front[i] == events[i]);
                }
            }
        }
    }
}

/// A notification that reports a size without area never changes the
/// configuration and never asks for a reconfiguration, whichever window it
/// belongs to: after it the action is to keep the surface, or the action that
/// was due without it.
pub proof fn lemma_zero_area_event_changes_nothing(
    scan: ResizeScan,
    event: ResizeEvent,
    dropped: bool,
)
    requires
        event.size().is_minimized(),
    ensures
        scan_event(scan, event).config == scan.config,
        scan_event(scan, event).resized == scan.resized,
        resize_action(scan_event(scan, event), dropped) == ResizeAction::Keep || resize_action(
            scan_event(scan, event),
            dropped,
        ) == resize_action(scan, dropped),
        event.is_primary() ==> resize_action(scan_event(scan, event), dropped)
            == ResizeAction::Keep,
{
}

/// A notification that reports the primary window minimized does not touch
/// the configuration and ends the tick without a reconfiguration: the
/// configuration stays as the notifications before it left it, and the action
/// is to keep the surface, even after a dropped frame.
pub proof fn lemma_minimize_skips_tick(
    config: SurfaceConfiguration,
    dropped: bool,
    events: Seq<ResizeEvent>,
    i: int,
)
    requires
        0 <= i < events.len(),
        events[i].is_minimize(),
    ensures
        scan_events(config, events.take(i + 1)).config == scan_events(config, events.take(i)).config,
        scan_events(config, events).config == scan_events(config, events.take(i)).config,
        resize_action(scan_events(config, events), dropped) == ResizeAction::Keep,
{
    lemma_scan_step(config, events, i);
    lemma_scan_stops_when_minimized(config, events, i + 1);
}

/// If no notification reports the window minimized, the last notification of
/// the primary window decides the size, and the surface is reconfigured once.
pub proof fn lemma_last_resize_wins(
    config: SurfaceConfiguration,
    dropped: bool,
    events: Seq<ResizeEvent>,
    last: int,
)
    requires
        0 <= last < events.len(),
        events[last].is_primary(),
        forall|i: int| last < i < events.len() ==> !(#[trigger] events[i]).is_primary(),
        forall|i: int| 0 <= i < events.len() ==> !(#[trigger] events[i]).is_minimize(),
    ensures
        scan_events(config, events).config == config.resized(events[last].size()),
        resize_action(scan_events(config, events), dropped) == ResizeAction::Reconfigure(
            config.resized(events[last].size()),
        ),
    decreases events.len(),
{
    lemma_minimized_iff_reported(config, events);
    if last == events.len() - 1 {
        let front = events.drop_last();
        lemma_minimized_iff_reported(config, front);
        lemma_resize_changes_size_only(config, front);
        if scan_events(config, front).minimized {
            let i = choose|i: int| 0 <= i < front.len() && (#[trigger] front[i]).is_minimize();
            assert(events[i].is_minimize());
        }
    } else {
        let front = events.drop_last();
        assert(front[last] == events[last]);
        assert forall|i: int| last < i < front.len() implies !(#[trigger] front[i]).is_primary() by {
            assert(front[i] == events[i]);
        }
        assert forall|i: int| 0 <= i < front.len() implies !(#[trigger] front[i]).is_minimize() by {
            assert(front[i] == events[i]);
        }
        lemma_last_resize_wins(config, dropped, front, last);
        assert(!events[events.len() - 1].is_primary());
    }
}

/// A batch in which every notification of the primary window reports the same
/// size, one with an area, and that holds at least one of them, leaves the
/// configuration at that size and reconfigures the surface once, however many
/// notifications there were.
pub proof fn lemma_same_size_reconfigures_once(
    config: SurfaceConfiguration,
    dropped: bool,
    events: Seq<ResizeEvent>,
    size: PhysicalSize,
)
    requires
        !size.is_minimized(),
        exists|i: int| 0 <= i < events.len() && (#[trigger] events[i]).is_primary(),
        forall|i: int|
            0 <= i < events.len() && (#[trigger] events[i]).is_primary() ==> events[i].size()
                == size,
    ensures
        scan_events(config, events).config == config.resized(size),
        scan_events(config, events).config.size() == size,
        resize_action(scan_events(config, events), dropped) == ResizeAction::Reconfigure(
            config.resized(size),
        ),
    decreases events.len(),
{
    let front = events.drop_last();
    if events.last().is_primary() {
        lemma_last_resize_wins(config, dropped, events, events.len() - 1);
    } else {
        let i = choose|i: int| 0 <= i < events.len() && (#[trigger] events[i]).is_primary();
        assert(front[i].is_primary());
        assert forall|k: int| 0 <= k < front.len() && (#[trigger] front[k]).is_primary() implies front[k].size()
            == size by {
            assert(front[k] == events[k]);
        }
        lemma_same_size_reconfigures_once(config, dropped, front, size);
    }
}

/// Whatever the batch, a configuration with an area keeps one: no
/// notification gives the surface a width or height of zero.
pub proof fn lemma_resize_keeps_area(config: SurfaceConfiguration, events: Seq<ResizeEvent>)
    requires
        config.well_formed(),
    ensures
        scan_events(config, events).config.well_formed(),
    decreases events.len(),
{
    if events.len() > 0 {
        lemma_resize_keeps_area(config, events.drop_last());
    }
}

/// Handles the resize notifications of one tick, in the order of their arrival.
///
/// `config` is left as the notifications of the primary window up to the first
/// that reports it minimized say. The result tells the host whether to apply it
/// to the surface.
pub fn handle_window_resize(
    events: &[ResizeEvent],
    config: &mut SurfaceConfiguration,
    drop_state: &FrameDropState,
) -> (action: ResizeAction)
    ensures
        *final(config) == scan_events(*old(config), events@).config,
        action == resize_action(scan_events(*old(config), events@), drop_state.dropped),
        old(config).well_formed() ==> final(config).well_formed(),
        *final(config) == old(config).resized(final(config).size()),
        action matches ResizeAction::Reconfigure(applied) ==> applied == *final(config),
{
    let ghost start = *config;
    let mut needs_reconfigure = drop_state.dropped;
    let mut i: usize = 0;
    while i < events.len()
        invariant
            i <= events.len(),
            start == *old(config),
            !scan_events(start, events@.take(i as int)).minimized,
            *config == scan_events(start, events@.take(i as int)).config,
            needs_reconfigure == (drop_state.dropped || scan_events(
                start,
                events@.take(i as int),
            ).resized),
            start.well_formed() ==> config.well_formed(),
            *config == start.resized(config.size()),
        decreases events.len() - i,
    {
        let event = events[i];
        proof {
            lemma_scan_step(start, events@, i as int);
        }
        if event.primary() {
            if event.width == 0 || event.height == 0 {
                proof {
                    lemma_scan_stops_when_minimized(start, events@, i as int + 1);
                }
                return ResizeAction::Keep;
            }
            config.width = event.width;
            config.height = event.height;
            needs_reconfigure = true;
        }
        i += 1;
    }
    assert(events@.take(i as int) =~= events@);
    if needs_reconfigure {
        ResizeAction::Reconfigure(*config)
    } else {
        ResizeAction::Keep
    }
}

} // verus!

use surface_lifecycle::resize::{handle_window_resize, ResizeAction, ResizeEvent, WindowId};
use surface_lifecycle::surface::{FrameDropState, PresentMode, SurfaceConfiguration, TextureUsage};

fn config(width: u32, height: u32) -> SurfaceConfiguration {
    SurfaceConfiguration {
        usage: TextureUsage::RenderAttachment,
        format: wgpu::TextureFormat::Bgra8UnormSrgb,
        width,
        height,
        present_mode: PresentMode::Fifo,
    }
}

fn primary(width: u32, height: u32) -> ResizeEvent {
    ResizeEvent { window: WindowId::Primary, width, height }
}

fn secondary(width: u32, height: u32) -> ResizeEvent {
    ResizeEvent { window: WindowId::Secondary, width, height }
}

fn handle(
    events: &[ResizeEvent],
    start: SurfaceConfiguration,
    dropped: bool,
) -> (SurfaceConfiguration, ResizeAction) {
    let mut config = start;
    let action = handle_window_resize(events, &mut config, &FrameDropState { dropped });
    (config, action)
}

#[test]
fn quiet_tick_keeps_the_surface() {
    let (after, action) = handle(&[], config(800, 600), false);
    assert_eq!(after, config(800, 600));
    assert_eq!(action, ResizeAction::Keep);
}

#[test]
fn dropped_frame_reconfigures_with_unchanged_configuration() {
    let (after, action) = handle(&[], config(800, 600), true);
    assert_eq!(after, config(800, 600));
    assert_eq!(action, ResizeAction::Reconfigure(config(800, 600)));
}

#[test]
fn resize_updates_size_and_reconfigures() {
    let (after, action) = handle(&[primary(1024, 768)], config(800, 600), false);
    assert_eq!(after, config(1024, 768));
    assert_eq!(action, ResizeAction::Reconfigure(config(1024, 768)));
}

#[test]
fn resize_changes_nothing_but_the_size() {
    let start = SurfaceConfiguration {
        usage: TextureUsage::CopyDst,
        format: wgpu::TextureFormat::Rgba16Float,
        width: 1,
        height: 2,
        present_mode: PresentMode::Mailbox,
    };
    let (after, action) = handle(&[primary(30, 40)], start, false);
    let expected = SurfaceConfiguration { width: 30, height: 40, ..start };
    assert_eq!(after, expected);
    assert_eq!(action, ResizeAction::Reconfigure(expected));
}

#[test]
fn same_size_many_times_reconfigures_once() {
    let events = [primary(1920, 1080); 5];
    for dropped in [false, true] {
        let (after, action) = handle(&events, config(800, 600), dropped);
        assert_eq!(after, config(1920, 1080));
        assert_eq!(action, ResizeAction::Reconfigure(config(1920, 1080)));
    }
}

#[test]
fn same_size_as_before_still_reconfigures() {
    let (after, action) = handle(&[primary(800, 600)], config(800, 600), false);
    assert_eq!(after, config(800, 600));
    assert_eq!(action, ResizeAction::Reconfigure(config(800, 600)));
}

#[test]
fn last_resize_of_a_batch_wins() {
    let events = [primary(100, 200), primary(300, 400), secondary(1, 1), primary(500, 600)];
    let (after, action) = handle(&events, config(800, 600), false);
    assert_eq!(after, config(500, 600));
    assert_eq!(action, ResizeAction::Reconfigure(config(500, 600)));
}

#[test]
fn minimized_window_is_skipped() {
    for event in [primary(0, 0), primary(0, 600), primary(800, 0)] {
        let (after, action) = handle(&[event], config(800, 600), false);
        assert_eq!(after, config(800, 600));
        assert_eq!(action, ResizeAction::Keep);
    }
}

#[test]
fn minimized_window_is_skipped_even_after_a_dropped_frame() {
    let (after, action) = handle(&[primary(0, 0)], config(800, 600), true);
    assert_eq!(after, config(800, 600));
    assert_eq!(action, ResizeAction::Keep);
}

#[test]
fn minimized_window_ends_the_batch() {
    let events = [primary(0, 0), primary(1024, 768)];
    let (after, action) = handle(&events, config(800, 600), true);
    assert_eq!(after, config(800, 600));
    assert_eq!(action, ResizeAction::Keep);
}

#[test]
fn resize_before_minimize_is_recorded_but_not_applied() {
    let events = [primary(1024, 768), primary(0, 0), primary(640, 480)];
    let (after, action) = handle(&events, config(800, 600), false);
    assert_eq!(after, config(1024, 768));
    assert_eq!(action, ResizeAction::Keep);
}

#[test]
fn secondary_window_is_ignored() {
    let events = [secondary(1024, 768), secondary(640, 480)];
    let (after, action) = handle(&events, config(800, 600), false);
    assert_eq!(after, config(800, 600));
    assert_eq!(action, ResizeAction::Keep);
}

#[test]
fn secondary_window_does_not_hide_a_dropped_frame() {
    let (after, action) = handle(&[secondary(1024, 768)], config(800, 600), true);
    assert_eq!(after, config(800, 600));
    assert_eq!(action, ResizeAction::Reconfigure(config(800, 600)));
}

#[test]
fn minimized_secondary_window_does_not_end_the_batch() {
    let events = [secondary(0, 0), primary(1024, 768)];
    let (after, action) = handle(&events, config(800, 600), false);
    assert_eq!(after, config(1024, 768));
    assert_eq!(action, ResizeAction::Reconfigure(config(1024, 768)));
}

#[test]
fn secondary_events_can_be_taken_out_of_a_batch() {
    let mixed = [secondary(5, 5), primary(10, 20), secondary(0, 0), primary(30, 40), secondary(9, 9)];
    let only_primary = [primary(10, 20), primary(30, 40)];
    for dropped in [false, true] {
        assert_eq!(
            handle(&mixed, config(800, 600), dropped),
            handle(&only_primary, config(800, 600), dropped)
        );
    }
}

#[test]
fn largest_size_is_taken_as_it_is() {
    let (after, action) = handle(&[primary(u32::MAX, 1)], config(800, 600), false);
    assert_eq!(after, config(u32::MAX, 1));
    assert_eq!(action, ResizeAction::Reconfigure(config(u32::MAX, 1)));
}

#[test]
fn primary_event_knows_its_window() {
    assert!(primary(1, 1).primary());
    assert!(!secondary(1, 1).primary());
}

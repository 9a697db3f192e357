use window_controller::capture_plan::CaptureAction::{
    Acquire, Blit, Finish, ReadPixels, Release, Render,
};
use window_controller::capture_plan::CaptureResource::{
    Bitmap, MemoryContext, Selection, WindowContext,
};
use window_controller::{
    CaptureAction, CaptureBackend, CaptureError, CapturePhase, CapturePlan, Point, Rect,
    WindowController, WindowGeometry,
};

fn geometry() -> WindowGeometry {
    WindowGeometry {
        window: Rect { left: 0, top: 0, right: 4, bottom: 4 },
        client: Rect { left: 0, top: 0, right: 2, bottom: 2 },
        client_origin: Point { x: 1, y: 1 },
    }
}

fn plan(backend: CaptureBackend) -> CapturePlan {
    CapturePlan::begin(WindowController::from_hwnd(42), backend, [0, 0, 2, 2], &geometry()).unwrap()
}

/// Runs a plan whose `fail_at`-th action fails, and lists the actions.
fn trace(backend: CaptureBackend, fail_at: Option<usize>) -> (Vec<CaptureAction>, CapturePlan) {
    let mut plan = plan(backend);
    let mut actions = Vec::new();
    loop {
        assert!(plan.is_valid());
        let action = plan.next_action();
        actions.push(action);
        if action == CaptureAction::Finish {
            break;
        }
        assert!(actions.len() <= 10);
        plan.advance(Some(actions.len() - 1) != fail_at);
    }
    (actions, plan)
}


#[test]
fn successful_render_runs_to_the_end() {
    let (actions, plan) = trace(CaptureBackend::CompositorRender, None);
    assert_eq!(
        actions,
        vec![
            Acquire(WindowContext),
            Acquire(MemoryContext),
            Acquire(Bitmap),
            Acquire(Selection),
            Render,
            ReadPixels,
            Release(Selection),
            Release(Bitmap),
            Release(MemoryContext),
            Release(WindowContext),
            Finish,
        ]
    );
    assert!(plan.is_finished());
    assert_eq!(plan.failure, None);
    assert_eq!(plan.held, 0);
}

#[test]
fn successful_blit_runs_to_the_end() {
    let (actions, plan) = trace(CaptureBackend::DirectBlit, None);
    assert_eq!(actions[4], Blit);
    assert_eq!(actions.len(), 11);
    assert_eq!(plan.failure, None);
}

#[test]
fn failing_window_context_ends_at_once() {
    let (actions, plan) = trace(CaptureBackend::CompositorRender, Some(0));
    assert_eq!(actions, vec![Acquire(WindowContext), Finish]);
    assert_eq!(plan.failure, Some(CaptureError::DeviceContext));
}

#[test]
fn failing_memory_context_releases_window_context() {
    let (actions, plan) = trace(CaptureBackend::CompositorRender, Some(1));
    assert_eq!(
        actions,
        vec![Acquire(WindowContext), Acquire(MemoryContext), Release(WindowContext), Finish]
    );
    assert_eq!(plan.failure, Some(CaptureError::CompatibleContext));
}

#[test]
fn failing_bitmap_releases_both_contexts() {
    let (actions, plan) = trace(CaptureBackend::DirectBlit, Some(2));
    assert_eq!(
        actions,
        vec![
            Acquire(WindowContext),
            Acquire(MemoryContext),
            Acquire(Bitmap),
            Release(MemoryContext),
            Release(WindowContext),
            Finish,
        ]
    );
    assert_eq!(plan.failure, Some(CaptureError::CompatibleBitmap));
}

#[test]
fn failing_selection_releases_three() {
    let (actions, plan) = trace(CaptureBackend::CompositorRender, Some(3));
    assert_eq!(
        actions,
        vec![
            Acquire(WindowContext),
            Acquire(MemoryContext),
            Acquire(Bitmap),
            Acquire(Selection),
            Release(Bitmap),
            Release(MemoryContext),
            Release(WindowContext),
            Finish,
        ]
    );
    assert_eq!(plan.failure, Some(CaptureError::SelectBitmap));
}

#[test]
fn failing_render_releases_all_four() {
    let (actions, plan) = trace(CaptureBackend::CompositorRender, Some(4));
    assert_eq!(
        actions[4..].to_vec(),
        vec![
            Render,
            Release(Selection),
            Release(Bitmap),
            Release(MemoryContext),
            Release(WindowContext),
            Finish,
        ]
    );
    assert_eq!(plan.failure, Some(CaptureError::RenderFailed));
}

#[test]
fn failing_blit_is_reported_as_blit() {
    let (actions, plan) = trace(CaptureBackend::DirectBlit, Some(4));
    assert_eq!(actions.len(), 10);
    assert_eq!(plan.failure, Some(CaptureError::BlitFailed));
}

#[test]
fn failing_readback_releases_all_four() {
    let (actions, plan) = trace(CaptureBackend::CompositorRender, Some(5));
    assert_eq!(
        actions[5..].to_vec(),
        vec![
            ReadPixels,
            Release(Selection),
            Release(Bitmap),
            Release(MemoryContext),
            Release(WindowContext),
            Finish,
        ]
    );
    assert_eq!(plan.failure, Some(CaptureError::ReadbackFailed));
    assert_eq!(plan.finish(&[]).err(), Some(CaptureError::ReadbackFailed));
}

#[test]
fn failed_release_still_counts_as_released() {
    let (actions, plan) = trace(CaptureBackend::CompositorRender, Some(7));
    assert_eq!(actions.len(), 11);
    assert_eq!(plan.failure, None);
    assert_eq!(plan.held, 0);
}

#[test]
fn finished_plan_stays_finished() {
    let (_, mut plan) = trace(CaptureBackend::CompositorRender, Some(2));
    plan.advance(true);
    plan.advance(false);
    assert_eq!(plan.phase, CapturePhase::Finished);
    assert_eq!(plan.next_action(), Finish);
    assert_eq!(plan.failure, Some(CaptureError::CompatibleBitmap));
}

#[test]
fn finish_cuts_the_image_from_the_readback() {
    let (_, plan) = trace(CaptureBackend::CompositorRender, None);
    assert_eq!(plan.layout.readback_len(), 64);
    let mut bits = Vec::new();
    for i in 0..16u8 {
        bits.extend_from_slice(&[i, 2 * i, 3 * i, 0]);
    }
    let image = plan.finish(&bits).ok().unwrap();
    assert_eq!((image.width, image.height), (2, 2));
    assert_eq!(image.data, vec![0xFF0F0A05, 0xFF120C06, 0xFF1B1209, 0xFF1E140A]);
}

#[test]
fn zero_size_request_never_starts() {
    let window = WindowController::from_hwnd(42);
    for bounds in [[0, 0, 0, 5], [0, 0, 5, 0], [0, 0, 0, 0], [1, 1, -1, 5]] {
        for backend in [CaptureBackend::DirectBlit, CaptureBackend::CompositorRender] {
            assert_eq!(
                CapturePlan::begin(window, backend, bounds, &geometry()).err(),
                Some(CaptureError::InvalidBounds)
            );
            assert_eq!(
                window.create_window_image_with_bounds(backend, bounds, &geometry()).err(),
                Some(CaptureError::InvalidBounds)
            );
        }
    }
}

#[test]
fn whole_client_area_capture() {
    let window = WindowController::from_hwnd(7);
    let plan = window.create_window_image(CaptureBackend::CompositorRender, &geometry()).unwrap();
    assert_eq!(plan.window, window);
    assert_eq!((plan.layout.x, plan.layout.y), (0, 0));
    assert_eq!((plan.layout.width, plan.layout.height), (2, 2));
    assert_eq!((plan.layout.padded_width, plan.layout.padded_height), (4, 4));
    assert_eq!(plan.phase, CapturePhase::Acquiring);
    assert_eq!(plan.next_action(), Acquire(WindowContext));
}

#[test]
fn whole_client_area_of_empty_window_is_invalid() {
    let window = WindowController::from_hwnd(7);
    let empty = WindowGeometry {
        window: Rect { left: 0, top: 0, right: 0, bottom: 0 },
        client: Rect { left: 0, top: 0, right: 0, bottom: 0 },
        client_origin: Point { x: 0, y: 0 },
    };
    assert_eq!(
        window.create_window_image(CaptureBackend::CompositorRender, &empty).err(),
        Some(CaptureError::InvalidBounds)
    );
}

use gfx_hal::format::Format;
use gfx_hal::image::Extent;
use gfx_hal::pso::Rect;
use gfx_hal::window::Extent2D;
use rust_gfx::renderer::{
    presentation_plan, submission_plan, Action, Event, Fence, FrameError, Phase, PresentationPlan,
    Renderer, Reply, Semaphore, SubmissionPlan,
};
use rust_gfx::swapchain::{swapchain_config, SurfaceCapabilities};

fn extent(width: u32, height: u32) -> Extent2D {
    Extent2D { width, height }
}

fn caps() -> SurfaceCapabilities {
    SurfaceCapabilities {
        min_image_count: 2,
        max_image_count: 8,
        current_extent: None,
        min_extent: extent(1, 1),
        max_extent: extent(1000, 500),
        max_image_layers: 1,
        usage: 0x10,
        present_modes: 0x4,
        composite_alpha_modes: 0x1,
    }
}

fn start() -> Renderer {
    Renderer::new(Format::Bgra8Srgb, extent(512, 512))
}

fn play(renderer: &mut Renderer, replies: Vec<Reply>) -> Vec<Action> {
    let mut actions = vec![];
    for reply in replies {
        assert!(renderer.expects(&reply));
        actions.push(renderer.resume(reply));
    }
    actions
}

fn framebuffer(size: Extent) -> Action {
    Action::CreateFramebuffer { render_pass: 0, size }
}

fn configuring(caps: SurfaceCapabilities, shown: bool) -> Vec<Reply> {
    vec![
        Reply::FenceWaited(true),
        Reply::FenceReset(true),
        Reply::PoolReset,
        Reply::Capabilities(caps),
        Reply::SwapchainConfigured(true),
        Reply::ImageAcquired(true),
        Reply::FramebufferCreated(true),
        Reply::Recorded,
        Reply::Submitted,
        Reply::Presented(shown),
        Reply::FramebufferDestroyed,
    ]
}

fn plain(shown: bool) -> Vec<Reply> {
    vec![
        Reply::FenceWaited(true),
        Reply::FenceReset(true),
        Reply::PoolReset,
        Reply::ImageAcquired(true),
        Reply::FramebufferCreated(true),
        Reply::Recorded,
        Reply::Submitted,
        Reply::Presented(shown),
        Reply::FramebufferDestroyed,
    ]
}

/// A renderer that has drawn one frame.
fn running() -> Renderer {
    let mut renderer = start();
    renderer.handle_event(Event::RedrawRequested);
    play(&mut renderer, configuring(caps(), true));
    renderer
}

#[test]
fn new_window_is_to_be_configured() {
    let renderer = start();
    assert!(renderer.is_idle());
    assert!(renderer.should_configure_swapchain);
    assert_eq!(renderer.surface_extent, extent(512, 512));
    assert_eq!(renderer.surface_color_format, Format::Bgra8Srgb);
}

#[test]
fn events_without_effect_on_the_state() {
    let mut renderer = running();
    let before = renderer;
    assert_eq!(renderer.handle_event(Event::CloseRequested), Action::Exit);
    assert_eq!(renderer.handle_event(Event::MainEventsCleared), Action::RequestRedraw);
    assert_eq!(renderer.handle_event(Event::Other), Action::Nothing);
    assert_eq!(renderer, before);
}

#[test]
fn new_size_is_taken_over() {
    for event in vec![Event::Resized(extent(7, 9)), Event::ScaleFactorChanged(extent(7, 9))] {
        let mut renderer = running();
        assert!(!renderer.should_configure_swapchain);
        assert_eq!(renderer.handle_event(event), Action::Nothing);
        assert!(renderer.should_configure_swapchain);
        assert_eq!(renderer.surface_extent, extent(7, 9));
        assert!(renderer.is_idle());
    }
}

#[test]
fn first_frame_configures_the_swapchain() {
    let mut renderer = start();
    let first = renderer.handle_event(Event::RedrawRequested);
    let wait = Action::WaitForFence {
        fence: Fence::SubmissionComplete,
        timeout_ns: 1_000_000_000,
    };
    assert_eq!(first, wait);
    assert!(!renderer.is_idle());
    let actions = play(&mut renderer, configuring(caps(), true));
    let config = swapchain_config(&caps(), Format::Bgra8Srgb, extent(512, 512));
    assert_eq!(config.extent, extent(512, 500));
    let expected = vec![
        Action::ResetFence(Fence::SubmissionComplete),
        Action::ResetCommandPool { release_resources: false },
        Action::QueryCapabilities,
        Action::ConfigureSwapchain(config),
        Action::AcquireImage { timeout_ns: 1_000_000_000 },
        framebuffer(Extent { width: 512, height: 500, depth: 1 }),
        Action::Record(Rect { x: 0, y: 0, w: 512, h: 500 }),
        Action::Submit(submission_plan()),
        Action::Present(presentation_plan()),
        Action::DestroyFramebuffer,
        Action::EndFrame,
    ];
    assert_eq!(actions, expected);
    assert!(renderer.is_idle());
    assert!(!renderer.should_configure_swapchain);
    assert_eq!(renderer.surface_extent, extent(512, 500));
}

#[test]
fn later_frame_keeps_the_swapchain() {
    let mut renderer = running();
    let before = renderer;
    renderer.handle_event(Event::RedrawRequested);
    let actions = play(&mut renderer, plain(true));
    let expected = vec![
        Action::ResetFence(Fence::SubmissionComplete),
        Action::ResetCommandPool { release_resources: false },
        Action::AcquireImage { timeout_ns: 1_000_000_000 },
        framebuffer(Extent { width: 512, height: 500, depth: 1 }),
        Action::Record(Rect { x: 0, y: 0, w: 512, h: 500 }),
        Action::Submit(submission_plan()),
        Action::Present(presentation_plan()),
        Action::DestroyFramebuffer,
        Action::EndFrame,
    ];
    assert_eq!(actions, expected);
    assert_eq!(renderer, before);
}

#[test]
fn failed_presentation_leads_to_configuration() {
    let mut renderer = running();
    renderer.handle_event(Event::RedrawRequested);
    play(&mut renderer, plain(false));
    assert!(renderer.should_configure_swapchain);
    renderer.handle_event(Event::RedrawRequested);
    play(&mut renderer, configuring(caps(), true));
    assert!(!renderer.should_configure_swapchain);
}

#[test]
fn missing_image_ends_the_frame() {
    let mut renderer = running();
    renderer.handle_event(Event::RedrawRequested);
    play(&mut renderer, plain(true).into_iter().take(3).collect());
    assert_eq!(renderer.resume(Reply::ImageAcquired(false)), Action::EndFrame);
    assert!(renderer.is_idle());
    assert!(renderer.should_configure_swapchain);
    renderer.handle_event(Event::RedrawRequested);
    let actions = play(&mut renderer, configuring(caps(), true));
    assert_eq!(actions[2], Action::QueryCapabilities);
}

#[test]
fn resized_window_is_drawn_in_its_new_size() {
    let mut renderer = running();
    renderer.handle_event(Event::Resized(extent(300, 200)));
    renderer.handle_event(Event::RedrawRequested);
    let actions = play(&mut renderer, configuring(caps(), true));
    let size = Extent { width: 300, height: 200, depth: 1 };
    assert_eq!(actions[5], framebuffer(size));
    assert_eq!(actions[6], Action::Record(Rect { x: 0, y: 0, w: 300, h: 200 }));
}

#[test]
fn surface_with_an_extent_of_its_own() {
    let mut renderer = start();
    renderer.handle_event(Event::RedrawRequested);
    let fixed = SurfaceCapabilities { current_extent: Some(extent(90, 80)), ..caps() };
    let actions = play(&mut renderer, configuring(fixed, true));
    let size = Extent { width: 90, height: 80, depth: 1 };
    assert_eq!(actions[5], framebuffer(size));
    assert_eq!(renderer.surface_extent, extent(90, 80));
}

/// Replaces the reply number `n` of a configuring frame by a failure.
fn fail_at(n: usize, failure: Reply) -> (Renderer, Action) {
    let mut renderer = start();
    renderer.handle_event(Event::RedrawRequested);
    play(&mut renderer, configuring(caps(), true).into_iter().take(n).collect());
    assert!(renderer.expects(&failure));
    let action = renderer.resume(failure);
    (renderer, action)
}

#[test]
fn each_frame_failure_has_its_error() {
    let no_alpha = SurfaceCapabilities { composite_alpha_modes: 0x6, present_modes: 0, ..caps() };
    let no_present = SurfaceCapabilities { present_modes: 0x9, ..caps() };
    let failures = vec![
        (0, Reply::FenceWaited(false), FrameError::WaitForFence),
        (1, Reply::FenceReset(false), FrameError::ResetFence),
        (3, Reply::Capabilities(no_alpha), FrameError::NoAlphaMode),
        (3, Reply::Capabilities(no_present), FrameError::NoPresentMode),
        (4, Reply::SwapchainConfigured(false), FrameError::ConfigureSwapchain),
        (6, Reply::FramebufferCreated(false), FrameError::CreateFramebuffer),
    ];
    for (n, failure, error) in failures {
        let (renderer, action) = fail_at(n, failure);
        assert_eq!(action, Action::Abort(error));
        assert_eq!(renderer.phase, Phase::Aborted);
        for reply in configuring(caps(), true) {
            assert!(!renderer.expects(&reply));
        }
    }
}

#[test]
fn only_the_awaited_frame_reply_is_expected() {
    let mut renderer = start();
    for reply in configuring(caps(), true) {
        assert!(!renderer.expects(&reply));
    }
    renderer.handle_event(Event::RedrawRequested);
    for (i, reply) in configuring(caps(), true).into_iter().enumerate() {
        for (j, other) in configuring(caps(), false).iter().enumerate() {
            assert_eq!(renderer.expects(other), i == j);
        }
        renderer.resume(reply);
    }
}

#[test]
fn frame_messages() {
    let expected = vec![
        (FrameError::WaitForFence, "Out of memory or lost device"),
        (FrameError::ResetFence, "Out of memory"),
        (
            FrameError::NoAlphaMode,
            "neither INHERIT or OPAQUE CompositeAlphaMode(s) are supported",
        ),
        (FrameError::NoPresentMode, "FIFO PresentMode is not supported"),
        (FrameError::ConfigureSwapchain, "Failed to configure swapchain"),
        (FrameError::CreateFramebuffer, "Failed to create framebuffer"),
    ];
    for (error, text) in expected {
        assert_eq!(error.message(), text);
    }
}

#[test]
fn work_of_a_frame_is_ordered() {
    let submission = SubmissionPlan {
        queue: 0,
        command_buffers: 1,
        wait_semaphore: None,
        signal_semaphore: Some(Semaphore::RenderingComplete),
        fence: Some(Fence::SubmissionComplete),
    };
    let wait_semaphore = Some(Semaphore::RenderingComplete);
    assert_eq!(submission_plan(), submission);
    assert_eq!(presentation_plan(), PresentationPlan { queue: 0, wait_semaphore });
}

#[test]
fn submission_is_waited_for_before_the_next_one() {
    let mut renderer = running();
    let mut actions = vec![renderer.handle_event(Event::RedrawRequested)];
    actions.extend(play(&mut renderer, plain(true)));
    let at = |wanted: fn(&Action) -> bool| actions.iter().position(wanted).unwrap();
    let waited = at(|action| matches!(action, Action::WaitForFence { .. }));
    assert_eq!(waited, 0);
    assert!(waited < at(|action| matches!(action, Action::ResetFence(_))));
    assert!(waited < at(|action| matches!(action, Action::ResetCommandPool { .. })));
    assert!(waited < at(|action| matches!(action, Action::Record(_))));
    assert!(waited < at(|action| matches!(action, Action::Submit(_))));
}

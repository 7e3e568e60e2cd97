//! The reaction to window events, and the course of a frame.
//!
//! The window and the graphics device do the work. The renderer is a state
//! machine: an event or the outcome of the last action goes in, the next action
//! comes out.
use crate::frame::{area_of, render_area};
use crate::swapchain::{swapchain_config, SurfaceCapabilities, SwapchainConfig};
use gfx_hal::format::Format;
use gfx_hal::image::Extent;
use gfx_hal::pso::Rect;
use gfx_hal::window::Extent2D;
use vstd::prelude::*;

verus! {

/// How long a finished submission is waited for, in nanoseconds.
pub const RENDER_TIMEOUT_NS: u64 = 1_000_000_000;

/// How long the next image of the swapchain is waited for, in nanoseconds.
pub const ACQUIRE_TIMEOUT_NS: u64 = 1_000_000_000;

/// A fence, by which the device tells the program how far it has come.
#[derive(Clone, Copy, Debug, PartialEq, Eq)]
pub enum Fence {
    /// The last submission has finished.
    SubmissionComplete,
}

/// A semaphore, by which one piece of work on the device waits for another.
#[derive(Clone, Copy, Debug, PartialEq, Eq)]
pub enum Semaphore {
    /// The image has been drawn.
    RenderingComplete,
}

/// How recorded commands are handed to the device.
#[derive(Clone, Copy, Debug, PartialEq, Eq)]
pub struct SubmissionPlan {
    /// The queue, by its number in the queue group.
    pub queue: usize,
    /// The number of command buffers.
    pub command_buffers: usize,
    /// What the commands wait for.
    pub wait_semaphore: Option<Semaphore>,
    /// What is signalled to the device when the commands have finished.
    pub signal_semaphore: Option<Semaphore>,
    /// What is signalled to the program when the commands have finished.
    pub fence: Option<Fence>,
}

/// The submission of a frame: the one command buffer, which waits for nothing, and
/// at whose end both the presentation and the next frame may go on.
pub open spec fn frame_submission() -> SubmissionPlan {
    SubmissionPlan {
        queue: 0,
        command_buffers: 1,
        wait_semaphore: None,
        signal_semaphore: Some(Semaphore::RenderingComplete),
        fence: Some(Fence::SubmissionComplete),
    }
}

/// The submission of a frame.
pub fn submission_plan() -> (plan: SubmissionPlan)
    ensures
        plan == frame_submission(),
{
    SubmissionPlan {
        queue: 0,
        command_buffers: 1,
        wait_semaphore: None,
        signal_semaphore: Some(Semaphore::RenderingComplete),
        fence: Some(Fence::SubmissionComplete),
    }
}

/// How an image is handed to the window.
#[derive(Clone, Copy, Debug, PartialEq, Eq)]
pub struct PresentationPlan {
    /// The queue, by its number in the queue group.
    pub queue: usize,
    /// What the presentation waits for.
    pub wait_semaphore: Option<Semaphore>,
}

/// The presentation of a frame: once the image has been drawn.
pub open spec fn frame_presentation() -> PresentationPlan {
    PresentationPlan { queue: 0, wait_semaphore: Some(Semaphore::RenderingComplete) }
}

/// The presentation of a frame.
pub fn presentation_plan() -> (plan: PresentationPlan)
    ensures
        plan == frame_presentation(),
{
    PresentationPlan { queue: 0, wait_semaphore: Some(Semaphore::RenderingComplete) }
}

/// What happens to the window.
#[derive(Clone, Copy, Debug, PartialEq)]
pub enum Event {
    /// The window is to be closed.
    CloseRequested,
    /// The window has a new size.
    Resized(Extent2D),
    /// The window has a new size because the density of the screen changed.
    ScaleFactorChanged(Extent2D),
    /// All events that were waiting have been handled.
    MainEventsCleared,
    /// The window is to be drawn.
    RedrawRequested,
    /// Something that the program does not react to.
    Other,
}

/// What has to be done next.
#[derive(Clone, Copy, Debug, PartialEq)]
pub enum Action {
    /// Nothing.
    Nothing,
    /// Leave the event loop.
    Exit,
    /// Ask the window for a redraw.
    RequestRedraw,
    /// Wait until the fence is signalled.
    WaitForFence { fence: Fence, timeout_ns: u64 },
    /// Reset the fence.
    ResetFence(Fence),
    /// Reset the command pool.
    ResetCommandPool {
        /// Whether its memory is given back.
        release_resources: bool,
    },
    /// Ask what the device can do with the surface.
    QueryCapabilities,
    /// Configure the swapchain.
    ConfigureSwapchain(SwapchainConfig),
    /// Acquire the next image of the swapchain.
    AcquireImage { timeout_ns: u64 },
    /// Create a framebuffer of this size, for a render pass, given by its number, and
    /// with the image as its one attachment.
    CreateFramebuffer { render_pass: usize, size: Extent },
    /// Record the commands that draw the scene on this area.
    Record(Rect),
    /// Submit the commands.
    Submit(SubmissionPlan),
    /// Present the image.
    Present(PresentationPlan),
    /// Destroy the framebuffer.
    DestroyFramebuffer,
    /// Nothing: the frame has ended.
    EndFrame,
    /// Give up.
    Abort(FrameError),
}

/// The outcome of what had to be done.
#[derive(Clone, Copy, Debug, PartialEq)]
pub enum Reply {
    /// Whether the fence could be waited for; that the time ran out is no failure.
    FenceWaited(bool),
    /// Whether the fence was reset.
    FenceReset(bool),
    /// The command pool was reset.
    PoolReset,
    /// What the device can do with the surface.
    Capabilities(SurfaceCapabilities),
    /// Whether the swapchain was configured.
    SwapchainConfigured(bool),
    /// Whether an image was acquired.
    ImageAcquired(bool),
    /// Whether the framebuffer was created.
    FramebufferCreated(bool),
    /// The commands were recorded.
    Recorded,
    /// The commands were submitted.
    Submitted,
    /// Whether the image was presented.
    Presented(bool),
    /// The framebuffer was destroyed.
    FramebufferDestroyed,
}

/// Why the program gives up in the middle of a frame.
#[derive(Clone, Copy, Debug, PartialEq, Eq)]
pub enum FrameError {
    WaitForFence,
    ResetFence,
    NoAlphaMode,
    NoPresentMode,
    ConfigureSwapchain,
    CreateFramebuffer,
}

impl FrameError {
    /// The message of the error.
    pub open spec fn text(self) -> Seq<char> {
        match self {
            FrameError::WaitForFence => "Out of memory or lost device"@,
            FrameError::ResetFence => "Out of memory"@,
            FrameError::NoAlphaMode =>
                "neither INHERIT or OPAQUE CompositeAlphaMode(s) are supported"@,
            FrameError::NoPresentMode => "FIFO PresentMode is not supported"@,
            FrameError::ConfigureSwapchain => "Failed to configure swapchain"@,
            FrameError::CreateFramebuffer => "Failed to create framebuffer"@,
        }
    }

    /// The message of the error.
    pub fn message(&self) -> (message: &'static str)
        ensures
            message@ == self.text(),
    {
        match self {
            FrameError::WaitForFence => "Out of memory or lost device",
            FrameError::ResetFence => "Out of memory",
            FrameError::NoAlphaMode =>
                "neither INHERIT or OPAQUE CompositeAlphaMode(s) are supported",
            FrameError::NoPresentMode => "FIFO PresentMode is not supported",
            FrameError::ConfigureSwapchain => "Failed to configure swapchain",
            FrameError::CreateFramebuffer => "Failed to create framebuffer",
        }
    }
}

/// What the renderer is waiting for.
#[derive(Clone, Copy, Debug, PartialEq, Eq)]
pub enum Phase {
    /// An event.
    Idle,
    WaitingForFence,
    ResettingFence,
    ResettingPool,
    QueryingCapabilities,
    ConfiguringSwapchain,
    AcquiringImage,
    CreatingFramebuffer,
    Recording,
    Submitting,
    Presenting,
    DestroyingFramebuffer,
    /// Nothing any more.
    Aborted,
}

/// The state of the renderer.
#[derive(Clone, Copy, Debug, PartialEq)]
pub struct Renderer {
    /// The extent of the surface: the one that was last asked for, or the one
    /// that the swapchain was last configured with.
    pub surface_extent: Extent2D,
    /// Whether the swapchain has to be configured before the next image.
    pub should_configure_swapchain: bool,
    /// The colour format of the surface.
    pub surface_color_format: Format,
    /// What the renderer is waiting for.
    pub phase: Phase,
}

/// The size of a flat image of the given extent.
pub open spec fn image_size(extent: Extent2D) -> Extent {
    Extent { width: extent.width, height: extent.height, depth: 1 }
}

impl Renderer {
    /// A window of the given size, not drawn yet.
    pub fn new(surface_color_format: Format, surface_extent: Extent2D) -> (renderer: Renderer)
        ensures
            renderer == (Renderer {
                surface_extent,
                should_configure_swapchain: true,
                surface_color_format,
                phase: Phase::Idle,
            }),
    {
        Renderer {
            surface_extent,
            should_configure_swapchain: true,
            surface_color_format,
            phase: Phase::Idle,
        }
    }

    /// The state and the action after an event.
    pub open spec fn after_event(self, event: Event) -> (Renderer, Action) {
        match event {
            Event::CloseRequested => (self, Action::Exit),
            Event::Resized(extent) | Event::ScaleFactorChanged(extent) => (
                Renderer { surface_extent: extent, should_configure_swapchain: true, ..self },
                Action::Nothing,
            ),
            Event::MainEventsCleared => (self, Action::RequestRedraw),
            Event::RedrawRequested => (
                Renderer { phase: Phase::WaitingForFence, ..self },
                Action::WaitForFence {
                    fence: Fence::SubmissionComplete,
                    timeout_ns: RENDER_TIMEOUT_NS,
                },
            ),
            Event::Other => (self, Action::Nothing),
        }
    }

    /// Reacts to an event between two frames.
    pub fn handle_event(&mut self, event: Event) -> (action: Action)
        requires
            old(self).phase is Idle,
        ensures
            (*final(self), action) == old(self).after_event(event),
            event is MainEventsCleared ==> action is RequestRedraw,
            event is CloseRequested ==> action is Exit,
            event is RedrawRequested ==> action is WaitForFence,
    {
        match event {
            Event::CloseRequested => Action::Exit,
            Event::Resized(extent) => {
                self.surface_extent = extent;
                self.should_configure_swapchain = true;
                Action::Nothing
            },
            Event::ScaleFactorChanged(extent) => {
                self.surface_extent = extent;
                self.should_configure_swapchain = true;
                Action::Nothing
            },
            Event::MainEventsCleared => Action::RequestRedraw,
            Event::RedrawRequested => {
                self.phase = Phase::WaitingForFence;
                Action::WaitForFence {
                    fence: Fence::SubmissionComplete,
                    timeout_ns: RENDER_TIMEOUT_NS,
                }
            },
            Event::Other => Action::Nothing,
        }
    }

    /// Whether an event can be handled now.
    pub fn is_idle(&self) -> (idle: bool)
        ensures
            idle == (self.phase is Idle),
    {
        match self.phase {
            Phase::Idle => true,
            _ => false,
        }
    }

    /// The reply answers what is being waited for.
    pub open spec fn accepts(self, reply: Reply) -> bool {
        match self.phase {
            Phase::Idle | Phase::Aborted => false,
            Phase::WaitingForFence => reply is FenceWaited,
            Phase::ResettingFence => reply is FenceReset,
            Phase::ResettingPool => reply is PoolReset,
            Phase::QueryingCapabilities => reply is Capabilities,
            Phase::ConfiguringSwapchain => reply is SwapchainConfigured,
            Phase::AcquiringImage => reply is ImageAcquired,
            Phase::CreatingFramebuffer => reply is FramebufferCreated,
            Phase::Recording => reply is Recorded,
            Phase::Submitting => reply is Submitted,
            Phase::Presenting => reply is Presented,
            Phase::DestroyingFramebuffer => reply is FramebufferDestroyed,
        }
    }

    /// The renderer and the action when it goes on to wait for `action`.
    pub open spec fn goes_on(self, phase: Phase, action: Action) -> (Renderer, Action) {
        (Renderer { phase, ..self }, action)
    }

    /// The renderer and the action when it gives up.
    pub open spec fn gives_up(self, error: FrameError) -> (Renderer, Action) {
        (Renderer { phase: Phase::Aborted, ..self }, Action::Abort(error))
    }

    /// The state and the action once the capabilities are known: the swapchain is
    /// configured for the current extent, which becomes that of the
    /// configuration.
    pub open spec fn after_capabilities(self, caps: SurfaceCapabilities) -> (Renderer, Action) {
        if !caps.has_alpha_mode() {
            self.gives_up(FrameError::NoAlphaMode)
        } else if !caps.has_present_mode() {
            self.gives_up(FrameError::NoPresentMode)
        } else {
            let config = caps.config_for(self.surface_color_format, self.surface_extent);
            (
                Renderer {
                    surface_extent: config.extent,
                    phase: Phase::ConfiguringSwapchain,
                    ..self
                },
                Action::ConfigureSwapchain(config),
            )
        }
    }

    /// The state and the action after a reply.
    pub open spec fn after(self, reply: Reply) -> (Renderer, Action) {
        match reply {
            Reply::FenceWaited(true) => self.goes_on(
                Phase::ResettingFence,
                Action::ResetFence(Fence::SubmissionComplete),
            ),
            Reply::FenceWaited(false) => self.gives_up(FrameError::WaitForFence),
            Reply::FenceReset(true) => self.goes_on(
                Phase::ResettingPool,
                Action::ResetCommandPool { release_resources: false },
            ),
            Reply::FenceReset(false) => self.gives_up(FrameError::ResetFence),
            Reply::PoolReset => if self.should_configure_swapchain {
                self.goes_on(Phase::QueryingCapabilities, Action::QueryCapabilities)
            } else {
                self.goes_on(
                    Phase::AcquiringImage,
                    Action::AcquireImage { timeout_ns: ACQUIRE_TIMEOUT_NS },
                )
            },
            Reply::Capabilities(caps) => self.after_capabilities(caps),
            Reply::SwapchainConfigured(true) => (
                Renderer {
                    should_configure_swapchain: false,
                    phase: Phase::AcquiringImage,
                    ..self
                },
                Action::AcquireImage { timeout_ns: ACQUIRE_TIMEOUT_NS },
            ),
            Reply::SwapchainConfigured(false) => self.gives_up(FrameError::ConfigureSwapchain),
            Reply::ImageAcquired(true) => self.goes_on(
                Phase::CreatingFramebuffer,
                Action::CreateFramebuffer {
                    render_pass: 0,
                    size: image_size(self.surface_extent),
                },
            ),
            Reply::ImageAcquired(false) => (
                Renderer { should_configure_swapchain: true, phase: Phase::Idle, ..self },
                Action::EndFrame,
            ),
            Reply::FramebufferCreated(true) => self.goes_on(
                Phase::Recording,
                Action::Record(area_of(self.surface_extent)),
            ),
            Reply::FramebufferCreated(false) => self.gives_up(FrameError::CreateFramebuffer),
            Reply::Recorded => self.goes_on(
                Phase::Submitting,
                Action::Submit(frame_submission()),
            ),
            Reply::Submitted => self.goes_on(
                Phase::Presenting,
                Action::Present(frame_presentation()),
            ),
            Reply::Presented(shown) => (
                Renderer {
                    should_configure_swapchain: self.should_configure_swapchain || !shown,
                    phase: Phase::DestroyingFramebuffer,
                    ..self
                },
                Action::DestroyFramebuffer,
            ),
            Reply::FramebufferDestroyed => self.goes_on(Phase::Idle, Action::EndFrame),
        }
    }

    /// Whether the reply answers what is being waited for.
    pub fn expects(&self, reply: &Reply) -> (expected: bool)
        ensures
            expected == self.accepts(*reply),
    {
        match (self.phase, reply) {
            (Phase::WaitingForFence, Reply::FenceWaited(_)) => true,
            (Phase::ResettingFence, Reply::FenceReset(_)) => true,
            (Phase::ResettingPool, Reply::PoolReset) => true,
            (Phase::QueryingCapabilities, Reply::Capabilities(_)) => true,
            (Phase::ConfiguringSwapchain, Reply::SwapchainConfigured(_)) => true,
            (Phase::AcquiringImage, Reply::ImageAcquired(_)) => true,
            (Phase::CreatingFramebuffer, Reply::FramebufferCreated(_)) => true,
            (Phase::Recording, Reply::Recorded) => true,
            (Phase::Submitting, Reply::Submitted) => true,
            (Phase::Presenting, Reply::Presented(_)) => true,
            (Phase::DestroyingFramebuffer, Reply::FramebufferDestroyed) => true,
            _ => false,
        }
    }

    /// Goes on to wait for `action`.
    fn go_on(&mut self, phase: Phase, action: Action) -> (next: Action)
        ensures
            (*final(self), next) == old(self).goes_on(phase, action),
    {
        self.phase = phase;
        action
    }

    /// Gives up.
    fn give_up(&mut self, error: FrameError) -> (next: Action)
        ensures
            (*final(self), next) == old(self).gives_up(error),
    {
        self.phase = Phase::Aborted;
        Action::Abort(error)
    }

    /// Has the swapchain configured for the current extent.
    fn configure(&mut self, caps: &SurfaceCapabilities) -> (next: Action)
        ensures
            (*final(self), next) == old(self).after_capabilities(*caps),
    {
        if !caps.check_alpha_mode() {
            return self.give_up(FrameError::NoAlphaMode);
        }
        if !caps.check_present_mode() {
            return self.give_up(FrameError::NoPresentMode);
        }
        let config = swapchain_config(caps, self.surface_color_format, self.surface_extent);
        self.surface_extent = config.extent;
        self.phase = Phase::ConfiguringSwapchain;
        Action::ConfigureSwapchain(config)
    }

    /// Takes the outcome of the last action and says what comes next.
    pub fn resume(&mut self, reply: Reply) -> (action: Action)
        requires
            old(self).accepts(reply),
        ensures
            (*final(self), action) == old(self).after(reply),
    {
        match reply {
            Reply::FenceWaited(waited) => if waited {
                self.go_on(
                    Phase::ResettingFence,
                    Action::ResetFence(Fence::SubmissionComplete),
                )
            } else {
                self.give_up(FrameError::WaitForFence)
            },
            Reply::FenceReset(reset) => if reset {
                self.go_on(
                    Phase::ResettingPool,
                    Action::ResetCommandPool { release_resources: false },
                )
            } else {
                self.give_up(FrameError::ResetFence)
            },
            Reply::PoolReset => if self.should_configure_swapchain {
                self.go_on(Phase::QueryingCapabilities, Action::QueryCapabilities)
            } else {
                self.go_on(
                    Phase::AcquiringImage,
                    Action::AcquireImage { timeout_ns: ACQUIRE_TIMEOUT_NS },
                )
            },
            Reply::Capabilities(caps) => self.configure(&caps),
            Reply::SwapchainConfigured(configured) => if configured {
                self.should_configure_swapchain = false;
                self.go_on(
                    Phase::AcquiringImage,
                    Action::AcquireImage { timeout_ns: ACQUIRE_TIMEOUT_NS },
                )
            } else {
                self.give_up(FrameError::ConfigureSwapchain)
            },
            Reply::ImageAcquired(acquired) => if acquired {
                let size = Extent {
                    width: self.surface_extent.width,
                    height: self.surface_extent.height,
                    depth: 1,
                };
                self.go_on(
                    Phase::CreatingFramebuffer,
                    Action::CreateFramebuffer { render_pass: 0, size },
                )
            } else {
                self.should_configure_swapchain = true;
                self.go_on(Phase::Idle, Action::EndFrame)
            },
            Reply::FramebufferCreated(created) => if created {
                let area = render_area(self.surface_extent);
                self.go_on(Phase::Recording, Action::Record(area))
            } else {
                self.give_up(FrameError::CreateFramebuffer)
            },
            Reply::Recorded => self.go_on(
                Phase::Submitting,
                Action::Submit(submission_plan()),
            ),
            Reply::Submitted => self.go_on(
                Phase::Presenting,
                Action::Present(presentation_plan()),
            ),
            Reply::Presented(shown) => {
                self.should_configure_swapchain = self.should_configure_swapchain || !shown;
                self.go_on(Phase::DestroyingFramebuffer, Action::DestroyFramebuffer)
            },
            Reply::FramebufferDestroyed => self.go_on(Phase::Idle, Action::EndFrame),
        }
    }
}

} // verus!

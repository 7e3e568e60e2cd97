//! What holds along every course of events.
use crate::frame::{
    area_of, draws_scene, law_area_keeps_the_low_bits, law_scene_is_drawn, opening, Command,
};
use crate::renderer::{
    frame_presentation, frame_submission, image_size, Action, Event, Fence, FrameError, Phase,
    Renderer, Reply, ACQUIRE_TIMEOUT_NS, RENDER_TIMEOUT_NS,
};
use crate::scene::{scene_at, Animation};
use crate::startup::first_renderer;
use crate::swapchain::SurfaceCapabilities;
use gfx_hal::format::Format;
use gfx_hal::pso::Rect;
use gfx_hal::window::Extent2D;
use vstd::prelude::*;

verus! {

/// What the renderer reacts to: an event of the window, or the outcome of its
/// last action.
pub enum Input {
    Event(Event),
    Reply(Reply),
}

/// The input can come now: an event between two frames, within a frame the reply
/// that is being waited for.
pub open spec fn possible(renderer: Renderer, input: Input) -> bool {
    match input {
        Input::Event(_) => renderer.phase is Idle,
        Input::Reply(reply) => renderer.accepts(reply),
    }
}

/// The state and the action after an input.
pub open spec fn step(renderer: Renderer, input: Input) -> (Renderer, Action) {
    match input {
        Input::Event(event) => renderer.after_event(event),
        Input::Reply(reply) => renderer.after(reply),
    }
}

/// The state after a series of inputs, and the actions that followed them.
pub open spec fn course(renderer: Renderer, inputs: Seq<Input>) -> (Renderer, Seq<Action>)
    decreases inputs.len(),
{
    if inputs.len() == 0 {
        (renderer, Seq::empty())
    } else {
        let (before, actions) = course(renderer, inputs.drop_last());
        let (now, action) = step(before, inputs.last());
        (now, actions.push(action))
    }
}

/// Each input of the series can come when it does.
pub open spec fn can_happen(renderer: Renderer, inputs: Seq<Input>) -> bool
    decreases inputs.len(),
{
    inputs.len() > 0 ==> can_happen(renderer, inputs.drop_last()) && possible(
        course(renderer, inputs.drop_last()).0,
        inputs.last(),
    )
}

/// The extent that the swapchain has been configured with most recently, if it
/// has been.
pub open spec fn swapchain_extent(renderer: Renderer, inputs: Seq<Input>) -> Option<Extent2D>
    decreases inputs.len(),
{
    if inputs.len() == 0 {
        None
    } else if inputs.last() == Input::Reply(Reply::SwapchainConfigured(true)) {
        match course(renderer, inputs.drop_last()).1.last() {
            Action::ConfigureSwapchain(config) => Some(config.extent),
            _ => None,
        }
    } else {
        swapchain_extent(renderer, inputs.drop_last())
    }
}

/// How many framebuffers exist after a series of inputs.
pub open spec fn framebuffers(inputs: Seq<Input>) -> int
    decreases inputs.len(),
{
    if inputs.len() == 0 {
        0
    } else {
        framebuffers(inputs.drop_last()) + match inputs.last() {
            Input::Reply(Reply::FramebufferCreated(true)) => 1int,
            Input::Reply(Reply::FramebufferDestroyed) => -1int,
            _ => 0int,
        }
    }
}

/// An image has been acquired or is being acquired, and is not presented yet.
pub open spec fn has_image(phase: Phase) -> bool {
    match phase {
        Phase::AcquiringImage
        | Phase::CreatingFramebuffer
        | Phase::Recording
        | Phase::Submitting
        | Phase::Presenting => true,
        _ => false,
    }
}

/// A framebuffer exists.
pub open spec fn has_framebuffer(phase: Phase) -> bool {
    match phase {
        Phase::Recording
        | Phase::Submitting
        | Phase::Presenting
        | Phase::DestroyingFramebuffer => true,
        _ => false,
    }
}

/// The renderer and the swapchain agree on the extent, or the renderer knows that
/// they may not.
pub open spec fn in_step(
    renderer: Renderer,
    actions: Seq<Action>,
    configured: Option<Extent2D>,
) -> bool {
    &&& !renderer.should_configure_swapchain ==> configured == Some(renderer.surface_extent)
    &&& has_image(renderer.phase) ==> !renderer.should_configure_swapchain
    &&& renderer.phase is QueryingCapabilities ==> renderer.should_configure_swapchain
    &&& renderer.phase is ConfiguringSwapchain ==> {
        &&& renderer.should_configure_swapchain
        &&& actions.len() > 0
        &&& actions.last() matches Action::ConfigureSwapchain(config)
        &&& config.extent == renderer.surface_extent
    }
}

/// The renderer stays in step with the swapchain.
proof fn stays_in_step(format: Format, extent: Extent2D, inputs: Seq<Input>)
    requires
        can_happen(first_renderer(format, extent), inputs),
    ensures
        in_step(
            course(first_renderer(format, extent), inputs).0,
            course(first_renderer(format, extent), inputs).1,
            swapchain_extent(first_renderer(format, extent), inputs),
        ),
    decreases inputs.len(),
{
    if inputs.len() > 0 {
        stays_in_step(format, extent, inputs.drop_last());
    }
}

/// What is drawn always has the size of the images of the swapchain: whatever
/// happens to the window, every framebuffer and every area that is drawn to has
/// the extent that the swapchain was configured with last.
pub proof fn law_drawing_fits_the_swapchain(format: Format, extent: Extent2D, inputs: Seq<Input>)
    requires
        can_happen(first_renderer(format, extent), inputs),
        inputs.len() > 0,
    ensures
        match course(first_renderer(format, extent), inputs).1.last() {
            Action::CreateFramebuffer { size, .. } => swapchain_extent(
                first_renderer(format, extent),
                inputs,
            ) matches Some(configured) && size == image_size(configured),
            Action::Record(area) => swapchain_extent(
                first_renderer(format, extent),
                inputs,
            ) matches Some(configured) && area == area_of(configured),
            _ => true,
        },
{
    stays_in_step(format, extent, inputs);
    stays_in_step(format, extent, inputs.drop_last());
}

/// A recorded frame shows the scene in the size of the swapchain: the commands that
/// draw the scene on the recorded area set the viewport, the scissor and the render
/// pass to the extent that the swapchain was configured with last, and draw each of
/// the six triangles with its own constants.
pub proof fn law_recorded_frame_shows_the_scene(
    format: Format,
    extent: Extent2D,
    inputs: Seq<Input>,
    area: Rect,
    list: Seq<Command>,
    animation: Animation,
    i: int,
)
    requires
        can_happen(first_renderer(format, extent), inputs),
        inputs.len() > 0,
        course(first_renderer(format, extent), inputs).1.last() == Action::Record(area),
        draws_scene(list, area, animation),
        0 <= i < 6,
    ensures
        swapchain_extent(first_renderer(format, extent), inputs) matches Some(configured)
            && list.take(5) == opening(area_of(configured)),
        list[5 + 2 * i] matches Command::PushConstants { constants, .. } && constants@
            == scene_at(animation)[i],
        list[6 + 2 * i] is Draw,
{
    law_drawing_fits_the_swapchain(format, extent, inputs);
    law_scene_is_drawn(list, area, animation, i);
}

/// The fence and the semaphore tie a frame together, whenever the actions come: what
/// a frame waits for and resets is the fence that a submission signals, and the
/// presentation waits, on the same queue, for the semaphore that the submission
/// signals. The submission itself waits for nothing.
pub proof fn law_work_is_ordered(
    submitting: Renderer,
    submitted: Input,
    renderer: Renderer,
    input: Input,
)
    requires
        possible(submitting, submitted),
        step(submitting, submitted).1 is Submit,
        possible(renderer, input),
    ensures
        ({
            let submission = step(submitting, submitted).1->Submit_0;
            &&& submission.wait_semaphore is None
            &&& match step(renderer, input).1 {
                Action::WaitForFence { fence, .. } => submission.fence == Some(fence),
                Action::ResetFence(fence) => submission.fence == Some(fence),
                Action::Present(presentation) => {
                    &&& presentation.wait_semaphore is Some
                    &&& presentation.wait_semaphore == submission.signal_semaphore
                    &&& presentation.queue == submission.queue
                },
                _ => true,
            }
        }),
{
}

/// Whether commands have been submitted that were not waited for since.
pub open spec fn in_flight(inputs: Seq<Input>) -> bool
    decreases inputs.len(),
{
    if inputs.len() == 0 {
        false
    } else {
        match inputs.last() {
            Input::Reply(Reply::Submitted) => true,
            Input::Reply(Reply::FenceWaited(true)) => false,
            _ => in_flight(inputs.drop_last()),
        }
    }
}

/// The phases in which a submission may still run.
pub open spec fn may_be_in_flight(phase: Phase) -> bool {
    match phase {
        Phase::Presenting
        | Phase::DestroyingFramebuffer
        | Phase::Idle
        | Phase::WaitingForFence
        | Phase::Aborted => true,
        _ => false,
    }
}

/// A submission is in flight only in the phases that allow it.
proof fn in_flight_only_between_frames(format: Format, extent: Extent2D, inputs: Seq<Input>)
    requires
        can_happen(first_renderer(format, extent), inputs),
        in_flight(inputs),
    ensures
        may_be_in_flight(course(first_renderer(format, extent), inputs).0.phase),
    decreases inputs.len(),
{
    if in_flight(inputs.drop_last()) {
        in_flight_only_between_frames(format, extent, inputs.drop_last());
    }
}

/// Every submission is waited for before the fence and the command pool are reset,
/// the swapchain is configured, or the next commands are recorded.
pub proof fn law_submissions_are_waited_for(format: Format, extent: Extent2D, inputs: Seq<Input>)
    requires
        can_happen(first_renderer(format, extent), inputs),
        inputs.len() > 0,
        match course(first_renderer(format, extent), inputs).1.last() {
            Action::ResetFence(_) => true,
            Action::ResetCommandPool { .. } => true,
            Action::ConfigureSwapchain(_) => true,
            Action::Record(_) => true,
            Action::Submit(_) => true,
            _ => false,
        },
    ensures
        !in_flight(inputs),
{
    if in_flight(inputs) {
        in_flight_only_between_frames(format, extent, inputs);
    }
}

/// No image is acquired from a swapchain that has not been configured, or that
/// has to be configured again.
pub proof fn law_no_image_before_configuration(
    format: Format,
    extent: Extent2D,
    inputs: Seq<Input>,
)
    requires
        can_happen(first_renderer(format, extent), inputs),
        inputs.len() > 0,
        course(first_renderer(format, extent), inputs).1.last() is AcquireImage,
    ensures
        swapchain_extent(first_renderer(format, extent), inputs) is Some,
        !course(first_renderer(format, extent), inputs).0.should_configure_swapchain,
{
    stays_in_step(format, extent, inputs);
}

/// No framebuffer is left behind: one exists from its creation to its destruction
/// within a frame, and none between frames or when the program gives up.
pub proof fn law_framebuffers_are_destroyed(format: Format, extent: Extent2D, inputs: Seq<Input>)
    requires
        can_happen(first_renderer(format, extent), inputs),
    ensures
        framebuffers(inputs) == if has_framebuffer(
            course(first_renderer(format, extent), inputs).0.phase,
        ) {
            1int
        } else {
            0int
        },
    decreases inputs.len(),
{
    if inputs.len() > 0 {
        law_framebuffers_are_destroyed(format, extent, inputs.drop_last());
    }
}

/// The colour format never changes.
pub proof fn law_format_is_kept(format: Format, extent: Extent2D, inputs: Seq<Input>)
    ensures
        course(first_renderer(format, extent), inputs).0.surface_color_format == format,
    decreases inputs.len(),
{
    if inputs.len() > 0 {
        law_format_is_kept(format, extent, inputs.drop_last());
    }
}

/// A change of size is taken over: the swapchain has to be configured, with the
/// new extent as the one that is wanted.
pub proof fn law_new_size_is_taken_over(renderer: Renderer, extent: Extent2D)
    ensures
        renderer.after_event(Event::Resized(extent)) == renderer.after_event(
            Event::ScaleFactorChanged(extent),
        ),
        renderer.after_event(Event::Resized(extent)).0.surface_extent == extent,
        renderer.after_event(Event::Resized(extent)).0.should_configure_swapchain,
{
}

/// A swapchain that has to be configured stays so, with the same wanted extent,
/// until the capabilities are known and the configuration has succeeded; and no
/// image is acquired before.
pub proof fn law_configuration_is_not_forgotten(renderer: Renderer, reply: Reply)
    requires
        renderer.accepts(reply),
        renderer.should_configure_swapchain,
    ensures
        !renderer.after(reply).0.should_configure_swapchain || renderer.after(
            reply,
        ).1 is AcquireImage ==> reply == Reply::SwapchainConfigured(true),
        reply !is Capabilities ==> renderer.after(reply).0.surface_extent
            == renderer.surface_extent,
{
}

/// The swapchain is configured again only for a reason: besides a change of size,
/// because no image could be acquired or because one could not be presented.
pub proof fn law_configuration_has_a_reason(renderer: Renderer, input: Input)
    requires
        possible(renderer, input),
        !renderer.should_configure_swapchain,
    ensures
        step(renderer, input).0.should_configure_swapchain <==> match input {
            Input::Event(event) => event is Resized || event is ScaleFactorChanged,
            Input::Reply(reply) => reply == Reply::ImageAcquired(false) || reply
                == Reply::Presented(false),
        },
{
}

/// A frame without an image ends at once, and the swapchain has to be configured
/// again.
pub proof fn law_missing_image_ends_the_frame(renderer: Renderer)
    requires
        renderer.accepts(Reply::ImageAcquired(false)),
    ensures
        renderer.after(Reply::ImageAcquired(false)).1 is EndFrame,
        renderer.after(Reply::ImageAcquired(false)).0 == (Renderer {
            should_configure_swapchain: true,
            phase: Phase::Idle,
            ..renderer
        }),
{
}

/// The number of replies that a frame can still take.
pub open spec fn remaining(phase: Phase) -> nat {
    match phase {
        Phase::WaitingForFence => 11,
        Phase::ResettingFence => 10,
        Phase::ResettingPool => 9,
        Phase::QueryingCapabilities => 8,
        Phase::ConfiguringSwapchain => 7,
        Phase::AcquiringImage => 6,
        Phase::CreatingFramebuffer => 5,
        Phase::Recording => 4,
        Phase::Submitting => 3,
        Phase::Presenting => 2,
        Phase::DestroyingFramebuffer => 1,
        Phase::Idle | Phase::Aborted => 0,
    }
}

/// Every frame comes to an end, after eleven replies at most.
pub proof fn law_frames_end(renderer: Renderer, reply: Reply)
    requires
        renderer.accepts(reply),
    ensures
        remaining(renderer.after(reply).0.phase) < remaining(renderer.phase) <= 11,
        remaining(renderer.after(reply).0.phase) == 0 <==> renderer.after(reply).1 is EndFrame
            || renderer.after(reply).1 is Abort,
{
}

/// One input further along a series.
proof fn course_next(renderer: Renderer, inputs: Seq<Input>, i: int)
    requires
        0 <= i < inputs.len(),
    ensures
        inputs.take(0) == Seq::<Input>::empty(),
        course(renderer, inputs.take(i + 1)) == ({
            let (before, actions) = course(renderer, inputs.take(i));
            let (now, action) = step(before, inputs[i]);
            (now, actions.push(action))
        }),
        can_happen(renderer, inputs.take(i + 1)) == (can_happen(renderer, inputs.take(i))
            && possible(course(renderer, inputs.take(i)).0, inputs[i])),
{
    assert(inputs.take(i + 1).drop_last() =~= inputs.take(i));
}

/// A frame in which nothing fails but perhaps the presentation.
pub open spec fn plain_frame(shown: bool) -> Seq<Input> {
    seq![
        Input::Event(Event::RedrawRequested),
        Input::Reply(Reply::FenceWaited(true)),
        Input::Reply(Reply::FenceReset(true)),
        Input::Reply(Reply::PoolReset),
        Input::Reply(Reply::ImageAcquired(true)),
        Input::Reply(Reply::FramebufferCreated(true)),
        Input::Reply(Reply::Recorded),
        Input::Reply(Reply::Submitted),
        Input::Reply(Reply::Presented(shown)),
        Input::Reply(Reply::FramebufferDestroyed),
    ]
}

/// A frame on a configured swapchain: the last submission is waited for, the fence
/// and the command pool are reset, an image is acquired, drawn, submitted and
/// presented, and its framebuffer is destroyed. Only if the image could not be
/// presented does the swapchain have to be configured afterwards.
pub proof fn law_plain_frame(renderer: Renderer, shown: bool)
    requires
        renderer.phase is Idle,
        !renderer.should_configure_swapchain,
    ensures
        can_happen(renderer, plain_frame(shown)),
        course(renderer, plain_frame(shown)).0 == (Renderer {
            should_configure_swapchain: !shown,
            ..renderer
        }),
        course(renderer, plain_frame(shown)).1 == seq![
            Action::WaitForFence {
                fence: Fence::SubmissionComplete,
                timeout_ns: RENDER_TIMEOUT_NS,
            },
            Action::ResetFence(Fence::SubmissionComplete),
            Action::ResetCommandPool { release_resources: false },
            Action::AcquireImage { timeout_ns: ACQUIRE_TIMEOUT_NS },
            Action::CreateFramebuffer {
                render_pass: 0,
                size: image_size(renderer.surface_extent),
            },
            Action::Record(area_of(renderer.surface_extent)),
            Action::Submit(frame_submission()),
            Action::Present(frame_presentation()),
            Action::DestroyFramebuffer,
            Action::EndFrame,
        ],
{
    let all = plain_frame(shown);
    course_next(renderer, all, 0);
    course_next(renderer, all, 1);
    course_next(renderer, all, 2);
    course_next(renderer, all, 3);
    course_next(renderer, all, 4);
    course_next(renderer, all, 5);
    course_next(renderer, all, 6);
    course_next(renderer, all, 7);
    course_next(renderer, all, 8);
    course_next(renderer, all, 9);
    assert(all.take(10) =~= all);
}

/// A frame that configures the swapchain and in which nothing fails but perhaps
/// the presentation.
pub open spec fn configuring_frame(caps: SurfaceCapabilities, shown: bool) -> Seq<Input> {
    seq![
        Input::Event(Event::RedrawRequested),
        Input::Reply(Reply::FenceWaited(true)),
        Input::Reply(Reply::FenceReset(true)),
        Input::Reply(Reply::PoolReset),
        Input::Reply(Reply::Capabilities(caps)),
        Input::Reply(Reply::SwapchainConfigured(true)),
        Input::Reply(Reply::ImageAcquired(true)),
        Input::Reply(Reply::FramebufferCreated(true)),
        Input::Reply(Reply::Recorded),
        Input::Reply(Reply::Submitted),
        Input::Reply(Reply::Presented(shown)),
        Input::Reply(Reply::FramebufferDestroyed),
    ]
}

/// A frame on a swapchain that has to be configured: before the image is acquired,
/// the swapchain is configured for the wanted extent, and the rest of the frame
/// is drawn in the extent that came out.
pub proof fn law_configuring_frame(renderer: Renderer, caps: SurfaceCapabilities, shown: bool)
    requires
        renderer.phase is Idle,
        renderer.should_configure_swapchain,
        caps.has_alpha_mode(),
        caps.has_present_mode(),
    ensures
        can_happen(renderer, configuring_frame(caps, shown)),
        course(renderer, configuring_frame(caps, shown)).0 == (Renderer {
            surface_extent: caps.extent_for(renderer.surface_extent),
            should_configure_swapchain: !shown,
            ..renderer
        }),
        course(renderer, configuring_frame(caps, shown)).1 == seq![
            Action::WaitForFence {
                fence: Fence::SubmissionComplete,
                timeout_ns: RENDER_TIMEOUT_NS,
            },
            Action::ResetFence(Fence::SubmissionComplete),
            Action::ResetCommandPool { release_resources: false },
            Action::QueryCapabilities,
            Action::ConfigureSwapchain(
                caps.config_for(renderer.surface_color_format, renderer.surface_extent),
            ),
            Action::AcquireImage { timeout_ns: ACQUIRE_TIMEOUT_NS },
            Action::CreateFramebuffer {
                render_pass: 0,
                size: image_size(caps.extent_for(renderer.surface_extent)),
            },
            Action::Record(area_of(caps.extent_for(renderer.surface_extent))),
            Action::Submit(frame_submission()),
            Action::Present(frame_presentation()),
            Action::DestroyFramebuffer,
            Action::EndFrame,
        ],
{
    let all = configuring_frame(caps, shown);
    course_next(renderer, all, 0);
    course_next(renderer, all, 1);
    course_next(renderer, all, 2);
    course_next(renderer, all, 3);
    course_next(renderer, all, 4);
    course_next(renderer, all, 5);
    course_next(renderer, all, 6);
    course_next(renderer, all, 7);
    course_next(renderer, all, 8);
    course_next(renderer, all, 9);
    course_next(renderer, all, 10);
    course_next(renderer, all, 11);
    assert(all.take(12) =~= all);
}

/// The window is drawn again and again, and closes when it is told to: each time that
/// the events have been handled a redraw is asked for, and each request to close ends
/// the event loop, in whatever state the renderer is, which stays as it was.
pub proof fn law_window_is_redrawn_until_closed(renderer: Renderer)
    ensures
        renderer.after_event(Event::MainEventsCleared).1 is RequestRedraw,
        renderer.after_event(Event::MainEventsCleared).0 == renderer,
        renderer.after_event(Event::CloseRequested).1 is Exit,
        renderer.after_event(Event::CloseRequested).0 == renderer,
        renderer.after_event(Event::Other).1 is Nothing,
        renderer.after_event(Event::Other).0 == renderer,
{
}

/// Each action between two frames has one cause among the events: the loop is left
/// only to close the window, a redraw is asked for only when the events have been
/// handled, and a frame begins only for a redraw, at once and with nothing changed.
pub proof fn law_events_have_their_effects(renderer: Renderer, event: Event)
    ensures
        ({
            let (next, action) = renderer.after_event(event);
            &&& action is Exit <==> event is CloseRequested
            &&& action is RequestRedraw <==> event is MainEventsCleared
            &&& action is WaitForFence <==> event is RedrawRequested
            &&& action is Nothing <==> event is Other || event is Resized || event
                is ScaleFactorChanged
            &&& action matches Action::WaitForFence { fence, timeout_ns } ==> fence
                is SubmissionComplete && timeout_ns == 1_000_000_000 && next == (Renderer {
                phase: next.phase,
                ..renderer
            }) && (forall|reply: Reply| #[trigger] next.accepts(reply) <==> reply is FenceWaited)
            &&& event !is RedrawRequested ==> next.phase == renderer.phase
        }),
{
}

/// A new size replaces the old one, side by side, and nothing else but that the
/// swapchain has to be configured; and only a new size does so between frames.
pub proof fn law_new_size_replaces_the_old(renderer: Renderer, event: Event)
    ensures
        ({
            let next = renderer.after_event(event).0;
            &&& next.surface_color_format == renderer.surface_color_format
            &&& match event {
                Event::Resized(extent) | Event::ScaleFactorChanged(extent) => {
                    &&& next.surface_extent.width == extent.width
                    &&& next.surface_extent.height == extent.height
                    &&& next.should_configure_swapchain
                },
                _ => {
                    &&& next.surface_extent == renderer.surface_extent
                    &&& next.should_configure_swapchain == renderer.should_configure_swapchain
                },
            }
        }),
{
}

/// Within a frame, what is asked for is what is awaited: after each action exactly its
/// answer is accepted; a frame that has ended awaits the next event, and after giving
/// up nothing is awaited.
pub proof fn law_answer_is_awaited(renderer: Renderer, reply: Reply, next: Reply)
    requires
        renderer.accepts(reply),
    ensures
        renderer.after(reply).0.accepts(next) <==> match renderer.after(reply).1 {
            Action::WaitForFence { .. } => next is FenceWaited,
            Action::ResetFence(_) => next is FenceReset,
            Action::ResetCommandPool { .. } => next is PoolReset,
            Action::QueryCapabilities => next is Capabilities,
            Action::ConfigureSwapchain(_) => next is SwapchainConfigured,
            Action::AcquireImage { .. } => next is ImageAcquired,
            Action::CreateFramebuffer { .. } => next is FramebufferCreated,
            Action::Record(_) => next is Recorded,
            Action::Submit(_) => next is Submitted,
            Action::Present(_) => next is Presented,
            Action::DestroyFramebuffer => next is FramebufferDestroyed,
            _ => false,
        },
        renderer.after(reply).0.phase is Idle <==> renderer.after(reply).1 is EndFrame,
        renderer.after(reply).0.phase is Aborted <==> renderer.after(reply).1 is Abort,
{
}

/// Each action within a frame has one cause among the replies, in whatever state the
/// renderer is.
pub proof fn law_replies_have_their_effects(renderer: Renderer, reply: Reply)
    requires
        renderer.accepts(reply),
    ensures
        ({
            let action = renderer.after(reply).1;
            let pending = renderer.should_configure_swapchain;
            &&& action is ResetFence <==> reply == Reply::FenceWaited(true)
            &&& action is ResetCommandPool <==> reply == Reply::FenceReset(true)
            &&& action is QueryCapabilities <==> reply is PoolReset && pending
            &&& action is AcquireImage <==> (reply is PoolReset && !pending) || reply
                == Reply::SwapchainConfigured(true)
            &&& action is CreateFramebuffer <==> reply == Reply::ImageAcquired(true)
            &&& action is Record <==> reply == Reply::FramebufferCreated(true)
            &&& action is Submit <==> reply is Recorded
            &&& action is Present <==> reply is Submitted
            &&& action is DestroyFramebuffer <==> reply is Presented
            &&& action is EndFrame <==> reply == Reply::ImageAcquired(false) || reply
                is FramebufferDestroyed
            &&& action is ConfigureSwapchain || action is Abort || !(reply is Capabilities)
        }),
{
}

/// The actions of a frame carry what the renderer knows: the framebuffer is as large
/// as the surface and one layer deep, the area that is drawn is that of the surface up
/// to multiples of `0x1_0000`, images are waited for a second, and the memory of the
/// command pool is kept.
pub proof fn law_actions_carry_the_state(renderer: Renderer, reply: Reply)
    requires
        renderer.accepts(reply),
    ensures
        ({
            let extent = renderer.surface_extent;
            match renderer.after(reply).1 {
                Action::CreateFramebuffer { render_pass, size } => {
                    &&& render_pass == 0
                    &&& size.width == extent.width
                    &&& size.height == extent.height
                    &&& size.depth == 1
                },
                Action::Record(area) => {
                    &&& area.x == 0
                    &&& area.y == 0
                    &&& (extent.width - area.w) % 0x1_0000 == 0
                    &&& (extent.height - area.h) % 0x1_0000 == 0
                },
                Action::AcquireImage { timeout_ns } => timeout_ns == 1_000_000_000,
                Action::ResetFence(fence) => fence is SubmissionComplete,
                Action::ResetCommandPool { release_resources } => !release_resources,
                Action::Submit(plan) => {
                    &&& plan.queue == 0
                    &&& plan.command_buffers == 1
                    &&& plan.wait_semaphore is None
                    &&& plan.signal_semaphore is Some
                    &&& plan.fence is Some
                },
                Action::Present(plan) => plan.queue == 0 && plan.wait_semaphore is Some,
                _ => true,
            }
        }),
{
    law_area_keeps_the_low_bits(renderer.surface_extent);
}

/// The program gives up exactly when the device fails or the surface cannot be used,
/// with the error of what failed; a missing image and a failed presentation are no
/// such failures.
pub proof fn law_failures_have_their_errors(renderer: Renderer, reply: Reply)
    requires
        renderer.accepts(reply),
    ensures
        ({
            let action = renderer.after(reply).1;
            let usable = |caps: SurfaceCapabilities|
                caps.has_alpha_mode() && caps.has_present_mode();
            &&& action is Abort <==> {
                ||| reply == Reply::FenceWaited(false)
                ||| reply == Reply::FenceReset(false)
                ||| reply == Reply::SwapchainConfigured(false)
                ||| reply == Reply::FramebufferCreated(false)
                ||| (reply matches Reply::Capabilities(caps) && !usable(caps))
            }
            &&& action matches Action::Abort(error) ==> match error {
                FrameError::WaitForFence => reply is FenceWaited,
                FrameError::ResetFence => reply is FenceReset,
                FrameError::NoAlphaMode => reply matches Reply::Capabilities(caps)
                    && !caps.has_alpha_mode(),
                FrameError::NoPresentMode => reply matches Reply::Capabilities(caps)
                    && caps.has_alpha_mode(),
                FrameError::ConfigureSwapchain => reply is SwapchainConfigured,
                FrameError::CreateFramebuffer => reply is FramebufferCreated,
            }
        }),
{
}

/// The surface extent changes within a frame only to that of the configuration that
/// is asked for, which is made for the format of the renderer and the extent that it
/// wanted; the format never changes, and whether the swapchain has to be configured
/// changes only with the outcome of configuring, acquiring and presenting.
pub proof fn law_replies_change_only_what_they_tell(renderer: Renderer, reply: Reply)
    requires
        renderer.accepts(reply),
    ensures
        ({
            let (next, action) = renderer.after(reply);
            let (wanted, format) = (renderer.surface_extent, renderer.surface_color_format);
            &&& next.surface_color_format == format
            &&& match action {
                Action::ConfigureSwapchain(config) => {
                    &&& reply matches Reply::Capabilities(caps) && config == caps.config_for(
                        format,
                        wanted,
                    )
                    &&& config.format == format
                    &&& next.surface_extent.width == config.extent.width
                    &&& next.surface_extent.height == config.extent.height
                },
                _ => next.surface_extent == wanted,
            }
            &&& next.should_configure_swapchain <==> match reply {
                Reply::SwapchainConfigured(true) => false,
                Reply::ImageAcquired(false) => true,
                Reply::Presented(false) => true,
                _ => renderer.should_configure_swapchain,
            }
        }),
{
}

} // verus!

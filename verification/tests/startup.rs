use gfx_hal::command::Level;
use gfx_hal::format::Format;
use gfx_hal::queue::QueueType;
use gfx_hal::window::Extent2D;
use rust_gfx::pipeline::{
    pipeline_plan, PipelineAction, PipelineBuild, PipelineError, PipelineReply, PipelineTarget,
    ShaderKind,
};
use rust_gfx::renderer::Renderer;
use rust_gfx::resources::{Resources, Teardown};
use rust_gfx::setup::{check_formats, QueueFamilyInfo};
use rust_gfx::startup::{start, Startup, StartupAction, StartupError, StartupPhase, StartupReply};

fn extent() -> Extent2D {
    Extent2D { width: 768, height: 640 }
}

fn families() -> Vec<QueueFamilyInfo> {
    vec![
        QueueFamilyInfo { presents: false, queue_type: QueueType::General },
        QueueFamilyInfo { presents: true, queue_type: QueueType::Graphics },
    ]
}

fn successes() -> Vec<StartupReply> {
    vec![
        StartupReply::Created(true),
        StartupReply::Created(true),
        StartupReply::Created(true),
        StartupReply::Adapters(2),
        StartupReply::QueueFamilies(families()),
        StartupReply::Created(true),
        StartupReply::Created(true),
        StartupReply::Formats(Some(vec![Format::Bgra8Unorm, Format::Bgra8Srgb])),
        StartupReply::Created(true),
        StartupReply::Created(true),
        StartupReply::ShadersRead {
            vertex_shader: "vertex source".to_string(),
            fragment_shader: "fragment source".to_string(),
        },
        StartupReply::Pipeline(PipelineReply::Compiled(Some(vec![1, 2]))),
        StartupReply::Pipeline(PipelineReply::ModuleCreated(true)),
        StartupReply::Pipeline(PipelineReply::Compiled(Some(vec![3]))),
        StartupReply::Pipeline(PipelineReply::ModuleCreated(true)),
        StartupReply::Pipeline(PipelineReply::PipelineCreated(true)),
        StartupReply::Pipeline(PipelineReply::ModuleDestroyed),
        StartupReply::Pipeline(PipelineReply::ModuleDestroyed),
        StartupReply::Created(true),
        StartupReply::Created(true),
    ]
}

fn compile(source: &str, kind: ShaderKind) -> PipelineAction {
    PipelineAction::CompileShader {
        glsl: source.to_string(),
        kind,
        file_name: "unnamed",
        entry_point: "main",
        options: false,
    }
}

fn course() -> Vec<StartupAction> {
    vec![
        StartupAction::CreateInstance { name: "Rust GFX", version: 1 },
        StartupAction::CreateSurface,
        StartupAction::ListAdapters,
        StartupAction::ListQueueFamilies { adapter: 0 },
        StartupAction::OpenDevice { family: 1, priority: 1.0f32.to_bits(), features: 0 },
        StartupAction::CreateCommandPool { flags: 0, level: Level::Primary },
        StartupAction::ListFormats,
        StartupAction::CreateRenderPass(Format::Bgra8Srgb),
        StartupAction::CreatePipelineLayout { set_layouts: 0, stages: 1, start: 0, end: 32 },
        StartupAction::ReadShaders {
            vertex_file: "shaders/triangle.vert",
            fragment_file: "shaders/triangle.frag",
        },
        StartupAction::Pipeline(compile("vertex source", ShaderKind::Vertex)),
        StartupAction::Pipeline(PipelineAction::CreateModule {
            kind: ShaderKind::Vertex,
            spirv: vec![1, 2],
        }),
        StartupAction::Pipeline(compile("fragment source", ShaderKind::Fragment)),
        StartupAction::Pipeline(PipelineAction::CreateModule {
            kind: ShaderKind::Fragment,
            spirv: vec![3],
        }),
        StartupAction::Pipeline(PipelineAction::CreatePipeline(pipeline_plan(PipelineTarget {
            render_pass: 0,
            pipeline_layout: 0,
        }))),
        StartupAction::Pipeline(PipelineAction::DestroyModule(ShaderKind::Vertex)),
        StartupAction::Pipeline(PipelineAction::DestroyModule(ShaderKind::Fragment)),
        StartupAction::CreateFence { signaled: true },
        StartupAction::CreateSemaphore,
        StartupAction::Run {
            renderer: Renderer::new(Format::Bgra8Srgb, extent()),
            resources: Resources { render_passes: 1, pipeline_layouts: 1, pipelines: 1 },
        },
    ]
}

/// Runs through the first `n` successes and then the given failure.
fn fail_after(n: usize, failure: StartupReply) -> (Startup, StartupAction) {
    let (mut state, _) = start(extent());
    for reply in successes().into_iter().take(n) {
        state = state.resume(reply).0;
    }
    assert!(state.expects(&failure));
    state.resume(failure)
}

#[test]
fn program_starts() {
    let (mut state, first) = start(extent());
    let window = StartupAction::CreateWindow { title: "Rust GFX", width: 512, height: 512 };
    assert_eq!(first, window);
    let mut actions = vec![];
    for reply in successes() {
        assert!(state.expects(&reply));
        let (next, action) = state.resume(reply);
        state = next;
        actions.push(action);
    }
    assert_eq!(actions, course());
    assert_eq!(state, Startup { extent: extent(), phase: StartupPhase::Running });
}

#[test]
fn each_startup_failure_has_its_error() {
    let uncompiled = || StartupReply::Pipeline(PipelineReply::Compiled(None));
    let uncreated = || StartupReply::Pipeline(PipelineReply::ModuleCreated(false));
    let unmade = StartupReply::Pipeline(PipelineReply::PipelineCreated(false));
    let failures = vec![
        (0, StartupReply::Created(false), StartupError::CreateWindow),
        (1, StartupReply::Created(false), StartupError::CreateInstance),
        (2, StartupReply::Created(false), StartupError::CreateSurface),
        (3, StartupReply::Adapters(0), StartupError::NoAdapter),
        (4, StartupReply::QueueFamilies(vec![]), StartupError::NoQueueFamily),
        (5, StartupReply::Created(false), StartupError::OpenDevice),
        (6, StartupReply::Created(false), StartupError::OutOfMemory),
        (8, StartupReply::Created(false), StartupError::OutOfMemory),
        (9, StartupReply::Created(false), StartupError::OutOfMemory),
        (11, uncompiled(), StartupError::Pipeline(PipelineError::CompileShader)),
        (12, uncreated(), StartupError::Pipeline(PipelineError::CreateVertexModule)),
        (13, uncompiled(), StartupError::Pipeline(PipelineError::CompileShader)),
        (14, uncreated(), StartupError::Pipeline(PipelineError::CreateFragmentModule)),
        (15, unmade, StartupError::Pipeline(PipelineError::CreatePipeline)),
        (18, StartupReply::Created(false), StartupError::OutOfMemory),
        (19, StartupReply::Created(false), StartupError::OutOfMemory),
    ];
    for (n, failure, error) in failures {
        let (state, action) = fail_after(n, failure);
        assert_eq!(action, StartupAction::Abort(error));
        assert_eq!(state.phase, StartupPhase::Failed);
        for reply in successes() {
            assert!(!state.expects(&reply));
        }
    }
}

#[test]
fn surface_without_formats_gets_the_default() {
    let (state, action) = fail_after(7, StartupReply::Formats(None));
    assert_eq!(action, StartupAction::CreateRenderPass(Format::Rgba8Srgb));
    assert_eq!(state.phase, StartupPhase::CreatingRenderPass(Format::Rgba8Srgb));
}

#[test]
fn only_the_awaited_startup_reply_is_expected() {
    // Replies of a repeated shape have the same letter; those of each letter are
    // expected at the same places.
    let shapes: Vec<char> = "cccaqccfccsvmvmpddcc".chars().collect();
    let (mut state, _) = start(extent());
    for (i, reply) in successes().into_iter().enumerate() {
        for (j, other) in successes().iter().enumerate() {
            assert_eq!(state.expects(other), shapes[i] == shapes[j]);
        }
        state = state.resume(reply).0;
    }
    for reply in successes() {
        assert!(!state.expects(&reply));
    }
}

#[test]
fn startup_goes_on_with_a_built_pipeline() {
    let build = PipelineBuild::DestroyingFragmentModule;
    let phase = StartupPhase::MakingPipeline { format: Format::Bgra8Srgb, build };
    let state = Startup { extent: extent(), phase };
    let (next, action) = state.resume(StartupReply::Pipeline(PipelineReply::ModuleDestroyed));
    assert_eq!(action, StartupAction::CreateFence { signaled: true });
    assert_eq!(next.phase, StartupPhase::CreatingFence(Format::Bgra8Srgb));
}

#[test]
fn unknown_format_is_noticed_before_it_is_looked_up() {
    assert!(check_formats(&None));
    assert!(check_formats(&Some(vec![])));
    assert!(check_formats(&Some(vec![Format::Rgba8Unorm, Format::R8Uint])));
    assert!(!check_formats(&Some(vec![Format::Rgba8Unorm, Format::__NumFormats])));
    assert!(check_formats(&Some(vec![Format::Rgba8Srgb, Format::__NumFormats])));
    let unknown = StartupReply::Formats(Some(vec![Format::__NumFormats]));
    let state = Startup { extent: extent(), phase: StartupPhase::ListingFormats };
    assert!(!state.expects(&unknown));
}

#[test]
fn what_is_made_is_destroyed() {
    let steps = Resources { render_passes: 1, pipeline_layouts: 1, pipelines: 1 }.teardown();
    let actions = course();
    let count = |wanted: fn(&StartupAction) -> bool| actions.iter().filter(|a| wanted(a)).count();
    assert_eq!(count(|a| matches!(a, StartupAction::CreateSurface)), 1);
    assert!(steps.contains(&Teardown::DestroySurface));
    assert_eq!(count(|a| matches!(a, StartupAction::CreateCommandPool { .. })), 1);
    assert!(steps.contains(&Teardown::DestroyCommandPool));
    assert_eq!(count(|a| matches!(a, StartupAction::CreateRenderPass(_))), 1);
    assert!(steps.contains(&Teardown::DestroyRenderPass(0)));
    assert_eq!(count(|a| matches!(a, StartupAction::CreatePipelineLayout { .. })), 1);
    assert!(steps.contains(&Teardown::DestroyPipelineLayout(0)));
    let pipelines = |a: &StartupAction| {
        matches!(a, StartupAction::Pipeline(PipelineAction::CreatePipeline(_)))
    };
    assert_eq!(count(pipelines), 1);
    assert!(steps.contains(&Teardown::DestroyPipeline(0)));
    assert_eq!(count(|a| matches!(a, StartupAction::CreateFence { .. })), 1);
    assert!(steps.contains(&Teardown::DestroyFence));
    assert_eq!(count(|a| matches!(a, StartupAction::CreateSemaphore)), 1);
    assert!(steps.contains(&Teardown::DestroySemaphore));
    assert_eq!(steps.len(), 8);
}

#[test]
fn startup_messages() {
    let expected = vec![
        (StartupError::CreateWindow, "failed to create window"),
        (StartupError::CreateInstance, "Backend not supported"),
        (StartupError::CreateSurface, "Failed to creare surface for window"),
        (StartupError::NoAdapter, "No adapter found"),
        (StartupError::NoQueueFamily, "No compatible queue family found"),
        (StartupError::OpenDevice, "Failed to open device"),
        (StartupError::OutOfMemory, "Out of memory"),
        (StartupError::Pipeline(PipelineError::CreatePipeline), "Failed to create graphics"),
    ];
    for (error, text) in expected {
        assert_eq!(error.message(), text);
    }
}

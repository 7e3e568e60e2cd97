use gfx_hal::pso::{
    BlendState, ColorMask, Face, InputAssemblerDesc, Primitive, Rasterizer, State,
};
use rust_gfx::pipeline::{
    make_pipeline, pipeline_plan, EntryPlan, PipelineAction, PipelineBuild, PipelineError,
    PipelineReply, PipelineTarget, ShaderKind, COLOR_ALL, ENTRY_POINT, FACE_BACK,
    FRAGMENT_SHADER_FILE, SHADER_FILE_NAME, VERTEX_SHADER_FILE,
};

const TARGET: PipelineTarget = PipelineTarget { render_pass: 1, pipeline_layout: 2 };

fn begin() -> (PipelineBuild, PipelineAction) {
    make_pipeline(TARGET, "vertex source".to_string(), "fragment source".to_string())
}

fn successes() -> Vec<PipelineReply> {
    vec![
        PipelineReply::Compiled(Some(vec![1, 2])),
        PipelineReply::ModuleCreated(true),
        PipelineReply::Compiled(Some(vec![3])),
        PipelineReply::ModuleCreated(true),
        PipelineReply::PipelineCreated(true),
        PipelineReply::ModuleDestroyed,
        PipelineReply::ModuleDestroyed,
    ]
}

/// Runs through the first `n` successes and then the given failure.
fn fail_after(n: usize, failure: PipelineReply) -> (PipelineBuild, PipelineAction) {
    let (mut build, _) = begin();
    for reply in successes().into_iter().take(n) {
        build = build.resume(reply).0;
    }
    assert!(build.expects(&failure));
    build.resume(failure)
}

#[test]
fn constants_are_those_of_the_device_layer() {
    assert_eq!(FACE_BACK, Face::BACK.bits());
    assert_eq!(COLOR_ALL, ColorMask::ALL.bits());
    assert_eq!(ENTRY_POINT, "main");
    assert_eq!(SHADER_FILE_NAME, "unnamed");
    assert_eq!(VERTEX_SHADER_FILE, "shaders/triangle.vert");
    assert_eq!(FRAGMENT_SHADER_FILE, "shaders/triangle.frag");
}

#[test]
fn settings_of_the_pipeline() {
    let plan = pipeline_plan(TARGET);
    let entry = |module| EntryPlan { module, entry: "main", specialization_constants: 0 };
    assert_eq!(plan.assembler.vertex, entry(ShaderKind::Vertex));
    assert_eq!(plan.fragment, entry(ShaderKind::Fragment));
    assert_eq!((plan.target.render_pass, plan.target.pipeline_layout), (1, 2));
    assert_eq!((plan.assembler.buffers, plan.assembler.attributes), (0, 0));
    assert!(!plan.assembler.tessellation && !plan.assembler.geometry);
    let input_assembler = plan.assembler.input_assembler;
    assert_eq!(input_assembler, InputAssemblerDesc::new(Primitive::TriangleList));
    assert_eq!(input_assembler.primitive, Primitive::TriangleList);
    assert!(!input_assembler.with_adjacency);
    assert_eq!(input_assembler.restart_index, None);
    assert_eq!(plan.color_target.mask, 0xf);
    assert_eq!(plan.color_target.blend, Some(BlendState::ALPHA));
    assert!(!plan.logic_op && !plan.depth_test && !plan.depth_bounds && !plan.stencil_test);
    assert!(!plan.multisampling && !plan.baked_states && !plan.derived && !plan.cached);
    assert_eq!((plan.subpass, plan.flags), (0, 0));
}

#[test]
fn rasterizer_fills_and_culls_the_back() {
    let plan = pipeline_plan(TARGET).rasterizer;
    assert!(!plan.depth_bias);
    let rasterizer = Rasterizer {
        polygon_mode: plan.polygon_mode,
        cull_face: Face::from_bits_truncate(plan.cull_face),
        front_face: plan.front_face,
        depth_clamping: plan.depth_clamping,
        depth_bias: None,
        conservative: plan.conservative,
        line_width: State::Static(f32::from_bits(plan.line_width)),
    };
    assert_eq!(rasterizer, Rasterizer { cull_face: Face::BACK, ..Rasterizer::FILL });
}

#[test]
fn pipeline_is_built() {
    let (mut build, first) = begin();
    let vertex = PipelineAction::CompileShader {
        glsl: "vertex source".to_string(),
        kind: ShaderKind::Vertex,
        file_name: "unnamed",
        entry_point: "main",
        options: false,
    };
    assert_eq!(first, vertex);
    let mut actions = vec![];
    for reply in successes() {
        assert!(build.expects(&reply));
        let (next, action) = build.resume(reply);
        build = next;
        actions.push(action);
    }
    let expected = vec![
        PipelineAction::CreateModule { kind: ShaderKind::Vertex, spirv: vec![1, 2] },
        PipelineAction::CompileShader {
            glsl: "fragment source".to_string(),
            kind: ShaderKind::Fragment,
            file_name: "unnamed",
            entry_point: "main",
            options: false,
        },
        PipelineAction::CreateModule { kind: ShaderKind::Fragment, spirv: vec![3] },
        PipelineAction::CreatePipeline(pipeline_plan(TARGET)),
        PipelineAction::DestroyModule(ShaderKind::Vertex),
        PipelineAction::DestroyModule(ShaderKind::Fragment),
        PipelineAction::Finish,
    ];
    assert_eq!(actions, expected);
    assert_eq!(build, PipelineBuild::Built);
}

#[test]
fn each_pipeline_failure_has_its_error() {
    let abort = |error| (PipelineBuild::Failed, PipelineAction::Abort(error));
    let uncompiled = || PipelineReply::Compiled(None);
    let uncreated = || PipelineReply::ModuleCreated(false);
    assert_eq!(fail_after(0, uncompiled()), abort(PipelineError::CompileShader));
    assert_eq!(fail_after(1, uncreated()), abort(PipelineError::CreateVertexModule));
    assert_eq!(fail_after(2, uncompiled()), abort(PipelineError::CompileShader));
    assert_eq!(fail_after(3, uncreated()), abort(PipelineError::CreateFragmentModule));
    let failure = PipelineReply::PipelineCreated(false);
    assert_eq!(fail_after(4, failure), abort(PipelineError::CreatePipeline));
}

#[test]
fn only_the_awaited_pipeline_reply_is_expected() {
    let (mut build, _) = begin();
    for (i, reply) in successes().into_iter().enumerate() {
        for (j, other) in successes().iter().enumerate() {
            let alike = i == j || (i, j) == (0, 2) || (i, j) == (2, 0) || (i, j) == (1, 3)
                || (i, j) == (3, 1) || (i, j) == (5, 6) || (i, j) == (6, 5);
            assert_eq!(build.expects(other), alike);
        }
        build = build.resume(reply).0;
    }
    for reply in successes().iter() {
        assert!(!build.expects(reply));
        assert!(!PipelineBuild::Failed.expects(reply));
    }
}

#[test]
fn pipeline_messages() {
    assert_eq!(PipelineError::CompileShader.message(), "Failed to compile shader");
    assert_eq!(
        PipelineError::CreateVertexModule.message(),
        "Failed to create vertex shader modile"
    );
    assert_eq!(
        PipelineError::CreateFragmentModule.message(),
        "Failed to create fragment shader module"
    );
    assert_eq!(PipelineError::CreatePipeline.message(), "Failed to create graphics");
}

use surface_viewer::command::GlCommand;
use surface_viewer::error::GlError;
use surface_viewer::shader_program::{run_assembly, CompileJob, ProgramAssembly, ShaderProgramBuilder};
use surface_viewer::ShaderKind;

/// A stand-in compiler: accepts any source starting with `b"ok"`, rejects
/// the rest with a diagnostic, handing out ids from 100 upward.
fn mock_compile(job: &CompileJob) -> Vec<Result<u32, String>> {
    let mut results = Vec::new();
    for (i, stage) in job.stages.iter().enumerate() {
        if stage.source_code.starts_with(b"ok") {
            results.push(Ok(100 + i as u32));
        } else {
            results.push(Err(format!("syntax error in stage {}", i)));
        }
    }
    results
}

fn two_stage_job(vertex: &[u8], fragment: &[u8]) -> CompileJob {
    ShaderProgramBuilder::new()
        .vertex_shader(vertex)
        .fragment_shader(fragment)
        .build()
}

#[test]
fn builder_orders_and_terminates_stages() {
    let job = two_stage_job(b"ok vertex", b"ok fragment\0");
    assert_eq!(job.stage_count(), 2);
    assert_eq!(job.stages[0].kind, ShaderKind::Vertex);
    assert_eq!(job.stages[1].kind, ShaderKind::Fragment);
    // A terminator is appended when missing, and kept single when present.
    assert_eq!(job.stages[0].source_code, b"ok vertex\0");
    assert_eq!(job.stages[1].source_code, b"ok fragment\0");
}

#[test]
fn builder_with_geometry_orders_three_stages() {
    let job = ShaderProgramBuilder::new()
        .vertex_shader(b"ok v")
        .geometry_shader(b"ok g")
        .fragment_shader(b"ok f")
        .build();
    assert_eq!(job.stages.len(), 3);
    assert_eq!(job.stages[0].kind, ShaderKind::Vertex);
    assert_eq!(job.stages[1].kind, ShaderKind::Geometry);
    assert_eq!(job.stages[2].kind, ShaderKind::Fragment);
}

#[test]
fn builder_accepts_any_setter_order() {
    let job = ShaderProgramBuilder::new()
        .fragment_shader(b"ok f")
        .vertex_shader(b"ok v")
        .build();
    assert_eq!(job.stages[0].kind, ShaderKind::Vertex);
    assert_eq!(job.stages[1].kind, ShaderKind::Fragment);
}

#[test]
fn empty_source_becomes_single_terminator() {
    let job = two_stage_job(b"", b"\0");
    assert_eq!(job.stages[0].source_code, b"\0");
    assert_eq!(job.stages[1].source_code, b"\0");
}

#[test]
fn assembly_succeeds_when_all_stages_compile_and_link() {
    let job = two_stage_job(b"ok v", b"ok f");
    let results = mock_compile(&job);
    assert!(results.iter().all(|r| r.is_ok()));
    let built = run_assembly(job, results, Ok(9)).unwrap();
    let (program, cleanup) = built;
    assert_eq!(program.id, 9);
    assert!(!program.released);
    // Every compiled stage object is released exactly once after linking.
    assert_eq!(
        cleanup,
        vec![GlCommand::DeleteShader { id: 100 }, GlCommand::DeleteShader { id: 101 }]
    );
}

#[test]
fn malformed_vertex_source_names_vertex_stage() {
    let job = two_stage_job(b"void main( {", b"ok f");
    let results = mock_compile(&job);
    match run_assembly(job, results, Ok(9)) {
        Err(GlError::ShaderCompileError { shader_kind, gl_log }) => {
            assert_eq!(shader_kind, ShaderKind::Vertex);
            assert!(!gl_log.is_empty());
        }
        other => panic!("expected a compile error, got {:?}", other),
    }
}

#[test]
fn malformed_fragment_source_names_fragment_stage() {
    let job = two_stage_job(b"ok v", b"#garbage!");
    let results = mock_compile(&job);
    match run_assembly(job, results, Ok(9)) {
        Err(GlError::ShaderCompileError { shader_kind, gl_log }) => {
            assert_eq!(shader_kind, ShaderKind::Fragment);
            assert!(!gl_log.is_empty());
        }
        other => panic!("expected a compile error, got {:?}", other),
    }
}

#[test]
fn malformed_geometry_source_names_geometry_stage() {
    let job = ShaderProgramBuilder::new()
        .vertex_shader(b"ok v")
        .geometry_shader(b"broken")
        .fragment_shader(b"ok f")
        .build();
    let results = mock_compile(&job);
    match run_assembly(job, results, Ok(9)) {
        Err(GlError::ShaderCompileError { shader_kind, .. }) => {
            assert_eq!(shader_kind, ShaderKind::Geometry);
        }
        other => panic!("expected a compile error, got {:?}", other),
    }
}

#[test]
fn first_compile_failure_wins() {
    let job = two_stage_job(b"broken v", b"broken f");
    let results = mock_compile(&job);
    match run_assembly(job, results, Ok(9)) {
        Err(GlError::ShaderCompileError { shader_kind, gl_log }) => {
            assert_eq!(shader_kind, ShaderKind::Vertex);
            assert_eq!(gl_log, "syntax error in stage 0");
        }
        other => panic!("expected a compile error, got {:?}", other),
    }
}

#[test]
fn link_failure_surfaces_its_diagnostic() {
    let job = two_stage_job(b"ok v", b"ok f");
    let results = mock_compile(&job);
    match run_assembly(job, results, Err(String::from("unresolved varying"))) {
        Err(GlError::ProgramLinkingError { gl_log }) => {
            assert_eq!(gl_log, "unresolved varying");
        }
        other => panic!("expected a link error, got {:?}", other),
    }
}

#[test]
fn incremental_assembly_walks_stages_in_order() {
    let job = two_stage_job(b"ok v", b"ok f");
    let mut assembly = ProgramAssembly::begin(job);
    assert!(assembly.in_progress());
    assert_eq!(assembly.next_stage_kind(), ShaderKind::Vertex);
    assert_eq!(assembly.next_stage_source(), b"ok v\0");
    assembly.record_compiled(41);
    assert!(assembly.in_progress());
    assert_eq!(assembly.next_stage_kind(), ShaderKind::Fragment);
    assembly.record_compiled(42);
    assert!(!assembly.in_progress());
    assert!(assembly.ready_to_link());
    let link = assembly.link_commands(77);
    assert_eq!(
        link,
        vec![
            GlCommand::AttachShader { program: 77, shader: 41 },
            GlCommand::AttachShader { program: 77, shader: 42 },
            GlCommand::LinkProgram { program: 77 },
        ]
    );
    let (program, cleanup) = assembly.complete(77);
    assert_eq!(program.id, 77);
    assert_eq!(
        cleanup,
        vec![GlCommand::DeleteShader { id: 41 }, GlCommand::DeleteShader { id: 42 }]
    );
}

#[test]
fn incremental_compile_failure_is_terminal() {
    let job = two_stage_job(b"ok v", b"bad f");
    let mut assembly = ProgramAssembly::begin(job);
    assembly.record_compiled(41);
    assembly.record_compile_failure(String::from("bad token"));
    assert!(assembly.failed());
    assert!(!assembly.in_progress());
    assert!(!assembly.ready_to_link());
    match assembly.into_error() {
        GlError::ShaderCompileError { shader_kind, gl_log } => {
            assert_eq!(shader_kind, ShaderKind::Fragment);
            assert_eq!(gl_log, "bad token");
        }
        other => panic!("expected a compile error, got {:?}", other),
    }
}

#[test]
fn stage_labels_and_gl_tags() {
    assert_eq!(ShaderKind::Vertex.label(), "vertex");
    assert_eq!(ShaderKind::Geometry.label(), "geometry");
    assert_eq!(ShaderKind::Fragment.label(), "fragment");
    assert_eq!(ShaderKind::Vertex.gl_tag(), 0x8B31);
    assert_eq!(ShaderKind::Geometry.gl_tag(), 0x8DD9);
    assert_eq!(ShaderKind::Fragment.gl_tag(), 0x8B30);
}

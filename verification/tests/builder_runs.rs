use shaderlink::builder::{BuildAction, BuildEvent, ProgramBuilder};
use shaderlink::error::{ShaderError, StageKind};

fn expect_read(b: &ProgramBuilder, stage: StageKind, path: &str) {
    match b.next_action().unwrap() {
        BuildAction::ReadSource { stage: s, path: p } => {
            assert_eq!(s, stage);
            assert_eq!(p, path);
        }
        other => panic!("expected a read action, got {:?}", other),
    }
}

fn expect_create_stage(b: &ProgramBuilder, stage: StageKind) {
    match b.next_action().unwrap() {
        BuildAction::CreateStage { stage: s } => assert_eq!(s, stage),
        other => panic!("expected a create-stage action, got {:?}", other),
    }
}

fn expect_compile(b: &ProgramBuilder, stage: StageKind, handle: u32, source: &[u8]) {
    match b.next_action().unwrap() {
        BuildAction::CompileStage { stage: s, handle: h, source: src } => {
            assert_eq!(s, stage);
            assert_eq!(h, handle);
            assert_eq!(src, source);
        }
        other => panic!("expected a compile action, got {:?}", other),
    }
}

fn expect_release_stage(b: &ProgramBuilder, handle: u32) {
    match b.next_action().unwrap() {
        BuildAction::ReleaseStage { handle: h } => assert_eq!(h, handle),
        other => panic!("expected a release-stage action, got {:?}", other),
    }
}

#[test]
fn successful_build_yields_program_handle() {
    let mut b = ProgramBuilder::new(String::from("v.vert"), String::from("f.frag"));
    assert!(!b.is_finished());

    expect_read(&b, StageKind::Vertex, "v.vert");
    b.step(BuildEvent::SourceRead { content: Some(b"vertex body".to_vec()) });

    expect_read(&b, StageKind::Fragment, "f.frag");
    b.step(BuildEvent::SourceRead { content: Some(b"fragment body".to_vec()) });

    expect_create_stage(&b, StageKind::Vertex);
    b.step(BuildEvent::StageCreated { handle: 11 });

    expect_compile(&b, StageKind::Vertex, 11, b"vertex body");
    b.step(BuildEvent::CompileFinished { success: true, log: String::new() });

    expect_create_stage(&b, StageKind::Fragment);
    b.step(BuildEvent::StageCreated { handle: 12 });

    expect_compile(&b, StageKind::Fragment, 12, b"fragment body");
    b.step(BuildEvent::CompileFinished { success: true, log: String::new() });

    match b.next_action().unwrap() {
        BuildAction::CreateProgram => {}
        other => panic!("expected a create-program action, got {:?}", other),
    }
    b.step(BuildEvent::ProgramCreated { handle: 77 });

    match b.next_action().unwrap() {
        BuildAction::AttachAndLink { program, vertex, fragment } => {
            assert_eq!(program, 77);
            assert_eq!(vertex, 11);
            assert_eq!(fragment, 12);
        }
        other => panic!("expected an attach-and-link action, got {:?}", other),
    }
    b.step(BuildEvent::LinkFinished { success: true, log: String::new() });

    // both transient stage objects are released, the program is kept
    expect_release_stage(&b, 11);
    b.step(BuildEvent::Released);
    expect_release_stage(&b, 12);
    b.step(BuildEvent::Released);

    assert!(b.is_finished());
    assert!(b.next_action().is_none());
    match b.finish() {
        Ok(handle) => assert_eq!(handle, 77),
        Err(e) => panic!("build failed: {}", e.message()),
    }
}

#[test]
fn unreadable_vertex_source_names_the_path() {
    let mut b = ProgramBuilder::new(String::from("no/such.vert"), String::from("f.frag"));
    b.step(BuildEvent::SourceRead { content: None });
    assert!(b.is_finished());
    match b.finish() {
        Err(ShaderError::FileReadError { stage, path }) => {
            assert_eq!(stage, StageKind::Vertex);
            assert_eq!(path, "no/such.vert");
        }
        other => panic!("expected a file-read error, got {:?}", other),
    }
}

#[test]
fn unreadable_fragment_source_names_the_path() {
    let mut b = ProgramBuilder::new(String::from("v.vert"), String::from("no/such.frag"));
    b.step(BuildEvent::SourceRead { content: Some(b"vertex body".to_vec()) });
    b.step(BuildEvent::SourceRead { content: None });
    assert!(b.is_finished());
    match b.finish() {
        Err(ShaderError::FileReadError { stage, path }) => {
            assert_eq!(stage, StageKind::Fragment);
            assert_eq!(path, "no/such.frag");
        }
        other => panic!("expected a file-read error, got {:?}", other),
    }
}

#[test]
fn vertex_compile_failure_carries_stage_and_log() {
    let mut b = ProgramBuilder::new(String::from("v.vert"), String::from("f.frag"));
    b.step(BuildEvent::SourceRead { content: Some(b"broken ;".to_vec()) });
    b.step(BuildEvent::SourceRead { content: Some(b"fragment body".to_vec()) });
    b.step(BuildEvent::StageCreated { handle: 21 });
    b.step(BuildEvent::CompileFinished { success: false, log: String::from("0:1: syntax error") });

    // the one allocated stage object is released before the build finishes
    expect_release_stage(&b, 21);
    b.step(BuildEvent::Released);

    assert!(b.is_finished());
    match b.finish() {
        Err(ShaderError::CompileError { stage, log }) => {
            assert_eq!(stage, StageKind::Vertex);
            assert_eq!(log, "0:1: syntax error");
            assert!(!log.is_empty());
        }
        other => panic!("expected a compile error, got {:?}", other),
    }
}

#[test]
fn fragment_compile_failure_releases_both_stages() {
    let mut b = ProgramBuilder::new(String::from("v.vert"), String::from("f.frag"));
    b.step(BuildEvent::SourceRead { content: Some(b"vertex body".to_vec()) });
    b.step(BuildEvent::SourceRead { content: Some(b"broken ;".to_vec()) });
    b.step(BuildEvent::StageCreated { handle: 21 });
    b.step(BuildEvent::CompileFinished { success: true, log: String::new() });
    b.step(BuildEvent::StageCreated { handle: 22 });
    b.step(BuildEvent::CompileFinished { success: false, log: String::from("0:2: bad token") });

    expect_release_stage(&b, 21);
    b.step(BuildEvent::Released);
    expect_release_stage(&b, 22);
    b.step(BuildEvent::Released);

    assert!(b.is_finished());
    match b.finish() {
        Err(ShaderError::CompileError { stage, log }) => {
            assert_eq!(stage, StageKind::Fragment);
            assert_eq!(log, "0:2: bad token");
        }
        other => panic!("expected a compile error, got {:?}", other),
    }
}

#[test]
fn link_failure_releases_stages_and_program() {
    let mut b = ProgramBuilder::new(String::from("v.vert"), String::from("f.frag"));
    b.step(BuildEvent::SourceRead { content: Some(b"vertex body".to_vec()) });
    b.step(BuildEvent::SourceRead { content: Some(b"fragment body".to_vec()) });
    b.step(BuildEvent::StageCreated { handle: 31 });
    b.step(BuildEvent::CompileFinished { success: true, log: String::new() });
    b.step(BuildEvent::StageCreated { handle: 32 });
    b.step(BuildEvent::CompileFinished { success: true, log: String::new() });
    b.step(BuildEvent::ProgramCreated { handle: 99 });
    b.step(BuildEvent::LinkFinished { success: false, log: String::from("varying mismatch") });

    expect_release_stage(&b, 31);
    b.step(BuildEvent::Released);
    expect_release_stage(&b, 32);
    b.step(BuildEvent::Released);
    match b.next_action().unwrap() {
        BuildAction::ReleaseProgram { handle } => assert_eq!(handle, 99),
        other => panic!("expected a release-program action, got {:?}", other),
    }
    b.step(BuildEvent::Released);

    assert!(b.is_finished());
    match b.finish() {
        Err(ShaderError::LinkError { log }) => {
            assert_eq!(log, "varying mismatch");
            assert!(!log.is_empty());
        }
        other => panic!("expected a link error, got {:?}", other),
    }
}

#[test]
fn mismatched_event_changes_nothing() {
    let mut b = ProgramBuilder::new(String::from("v.vert"), String::from("f.frag"));
    b.step(BuildEvent::Released);
    b.step(BuildEvent::LinkFinished { success: false, log: String::from("noise") });
    assert!(!b.is_finished());
    expect_read(&b, StageKind::Vertex, "v.vert");
}

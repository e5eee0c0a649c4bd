use learn_opengl::shader::{ProgramBuild, ShaderError, Stage, StageReport};

fn ok_report(id: u32) -> StageReport {
    StageReport { id, ok: true, log: String::new() }
}

fn bad_report(id: u32, log: &str) -> StageReport {
    StageReport { id, ok: false, log: log.to_owned() }
}

#[test]
fn successful_build_yields_program() {
    let mut b = ProgramBuild::new();
    b.report_vertex(ok_report(7));
    b.report_fragment(ok_report(8));
    b.report_link(ok_report(9));
    assert_eq!(b.stage_ids(), (7, 8));
    b.stages_deleted();
    let p = b.finish().expect("all steps succeeded");
    assert_eq!(p.program_id(), 9);
}

#[test]
fn vertex_failure_names_vertex_stage() {
    let mut b = ProgramBuild::new();
    b.report_vertex(bad_report(7, "syntax error in vertex source"));
    let e = b.finish().err().expect("vertex compile failed");
    assert_eq!(
        e,
        ShaderError::StageCompile {
            stage: Stage::Vertex,
            log: "syntax error in vertex source".to_owned()
        }
    );
}

#[test]
fn fragment_failure_names_fragment_stage() {
    let mut b = ProgramBuild::new();
    b.report_vertex(ok_report(7));
    b.report_fragment(bad_report(8, "bad fragment"));
    let e = b.finish().err().expect("fragment compile failed");
    assert_eq!(
        e,
        ShaderError::StageCompile { stage: Stage::Fragment, log: "bad fragment".to_owned() }
    );
}

#[test]
fn link_failure_reports_link_log() {
    let mut b = ProgramBuild::new();
    b.report_vertex(ok_report(7));
    b.report_fragment(ok_report(8));
    b.report_link(bad_report(9, "unresolved varying"));
    let e = b.finish().err().expect("link failed");
    assert_eq!(e, ShaderError::Link { log: "unresolved varying".to_owned() });
}

#[test]
fn sources_from_reads_passes_both_texts_through() {
    let r = learn_opengl::shader::sources_from_reads(
        "a.vert".to_owned(),
        Some("vertex text".to_owned()),
        "a.frag".to_owned(),
        Some("fragment text".to_owned()),
    );
    assert_eq!(r, Ok(("vertex text".to_owned(), "fragment text".to_owned())));
}

#[test]
fn sources_from_reads_reports_unreadable_vertex_path() {
    let r = learn_opengl::shader::sources_from_reads(
        "a.vert".to_owned(),
        None,
        "a.frag".to_owned(),
        Some("fragment text".to_owned()),
    );
    assert_eq!(r, Err(ShaderError::FileRead { path: "a.vert".to_owned() }));
}

#[test]
fn sources_from_reads_reports_unreadable_fragment_path() {
    let r = learn_opengl::shader::sources_from_reads(
        "a.vert".to_owned(),
        Some("vertex text".to_owned()),
        "a.frag".to_owned(),
        None,
    );
    assert_eq!(r, Err(ShaderError::FileRead { path: "a.frag".to_owned() }));
}

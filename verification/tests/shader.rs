use gl_text_pipe::shader::{
    check_source, compile_shader, info_log_capacity, link_programs, status_ok, BuildError,
    ShaderStage,
};

#[test]
fn stages_have_the_driver_codes() {
    assert_eq!(ShaderStage::Vertex.kind(), gl::VERTEX_SHADER);
    assert_eq!(ShaderStage::Fragment.kind(), gl::FRAGMENT_SHADER);
}

#[test]
fn stage_from_code() {
    assert_eq!(ShaderStage::from_kind(gl::VERTEX_SHADER), Some(ShaderStage::Vertex));
    assert_eq!(ShaderStage::from_kind(gl::FRAGMENT_SHADER), Some(ShaderStage::Fragment));
    assert_eq!(ShaderStage::from_kind(gl::GEOMETRY_SHADER), None);
    assert_eq!(ShaderStage::from_kind(0), None);
}

#[test]
fn source_without_zero_byte_is_accepted() {
    assert_eq!(check_source("#version 150\nvoid main() {}\n"), Ok(()));
    assert_eq!(check_source(""), Ok(()));
    assert_eq!(check_source("gr\u{fc}\u{df}e \u{4e16}\u{754c}"), Ok(()));
}

#[test]
fn source_with_zero_byte_is_refused_at_its_position() {
    assert_eq!(check_source("void\0main"), Err(BuildError::InteriorNul { position: 4 }));
    assert_eq!(check_source("\0"), Err(BuildError::InteriorNul { position: 0 }));
    assert_eq!(check_source("ab\0cd\0"), Err(BuildError::InteriorNul { position: 2 }));
    assert_eq!(check_source("abc\0"), Err(BuildError::InteriorNul { position: 3 }));
}

#[test]
fn zero_byte_position_counts_bytes() {
    assert_eq!(
        check_source("\u{4e16}\u{754c}\0"),
        Err(BuildError::InteriorNul { position: 6 })
    );
}

#[test]
fn only_true_is_success() {
    assert!(status_ok(gl::TRUE as i32));
    assert!(!status_ok(gl::FALSE as i32));
    assert!(!status_ok(2));
    assert!(!status_ok(-1));
}

#[test]
fn info_log_text_is_one_byte_shorter_than_its_length() {
    assert_eq!(info_log_capacity(1), 0);
    assert_eq!(info_log_capacity(2), 1);
    assert_eq!(info_log_capacity(120), 119);
    assert_eq!(info_log_capacity(i32::MAX), i32::MAX as usize - 1);
}

#[test]
fn compiled_shader_is_handed_back() {
    assert_eq!(compile_shader(5, ShaderStage::Vertex, 1, Vec::new()), Ok(5));
    assert_eq!(
        compile_shader(6, ShaderStage::Fragment, 1, b"warning: unused".to_vec()),
        Ok(6)
    );
}

#[test]
fn compile_failure_carries_the_log() {
    let log = b"0:3(1): error: syntax error".to_vec();
    assert_eq!(
        compile_shader(5, ShaderStage::Fragment, 0, log),
        Err(BuildError::Compile {
            stage: ShaderStage::Fragment,
            log: String::from("0:3(1): error: syntax error"),
        })
    );
}

#[test]
fn compile_failure_with_empty_log() {
    assert_eq!(
        compile_shader(5, ShaderStage::Vertex, 0, Vec::new()),
        Err(BuildError::Compile { stage: ShaderStage::Vertex, log: String::new() })
    );
}

#[test]
fn compile_failure_with_multibyte_log() {
    let log = "Fehler: ung\u{fc}ltig \u{2014} \u{4e16}".as_bytes().to_vec();
    assert_eq!(
        compile_shader(5, ShaderStage::Vertex, 0, log),
        Err(BuildError::Compile {
            stage: ShaderStage::Vertex,
            log: String::from("Fehler: ung\u{fc}ltig \u{2014} \u{4e16}"),
        })
    );
}

#[test]
fn compile_failure_with_unreadable_log() {
    assert_eq!(
        compile_shader(5, ShaderStage::Vertex, 0, vec![0x65, 0xFF, 0x66]),
        Err(BuildError::UnreadableLog)
    );
    assert_eq!(
        compile_shader(5, ShaderStage::Vertex, 0, vec![0xC3]),
        Err(BuildError::UnreadableLog)
    );
    assert_eq!(
        compile_shader(5, ShaderStage::Vertex, 0, vec![0xED, 0xA0, 0x80]),
        Err(BuildError::UnreadableLog)
    );
}

#[test]
fn unreadable_log_does_not_matter_on_success() {
    assert_eq!(compile_shader(5, ShaderStage::Vertex, 1, vec![0xFF]), Ok(5));
    assert_eq!(link_programs(8, 1, vec![0xFF]), Ok(8));
}

#[test]
fn linked_program_is_handed_back() {
    assert_eq!(link_programs(8, 1, Vec::new()), Ok(8));
}

#[test]
fn link_failure_carries_the_log() {
    let log = b"error: vertex shader lacks `main'".to_vec();
    assert_eq!(
        link_programs(8, 0, log),
        Err(BuildError::Link { log: String::from("error: vertex shader lacks `main'") })
    );
}

#[test]
fn link_failure_with_unreadable_log() {
    assert_eq!(link_programs(8, 0, vec![0x80]), Err(BuildError::UnreadableLog));
}

#[test]
fn any_status_but_true_is_a_failure() {
    assert!(matches!(
        compile_shader(5, ShaderStage::Vertex, 2, Vec::new()),
        Err(BuildError::Compile { .. })
    ));
    assert!(matches!(link_programs(8, -1, Vec::new()), Err(BuildError::Link { .. })));
}

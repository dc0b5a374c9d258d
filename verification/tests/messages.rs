use gl_text_pipe::decimal::{append_decimal, append_digits};
use gl_text_pipe::frame::FrameError;
use gl_text_pipe::pipeline::{PipeError, VertexField};
use gl_text_pipe::shader::{BuildError, ShaderStage};

fn decimal(value: i64) -> String {
    let mut text = String::new();
    append_decimal(value, &mut text);
    text
}

fn digits(value: u64) -> String {
    let mut text = String::new();
    append_digits(value, &mut text);
    text
}

#[test]
fn digits_of_small_numbers() {
    assert_eq!(digits(0), "0");
    assert_eq!(digits(7), "7");
    assert_eq!(digits(9), "9");
    assert_eq!(digits(10), "10");
    assert_eq!(digits(1234567890), "1234567890");
    assert_eq!(digits(1002003), "1002003");
}

#[test]
fn digits_of_the_largest_number() {
    assert_eq!(digits(u64::MAX), "18446744073709551615");
}

#[test]
fn decimal_of_negative_numbers() {
    assert_eq!(decimal(-1), "-1");
    assert_eq!(decimal(-10), "-10");
    assert_eq!(decimal(-2147483648), "-2147483648");
    assert_eq!(decimal(i64::MIN), "-9223372036854775808");
}

#[test]
fn decimal_of_numbers_that_are_not_negative() {
    assert_eq!(decimal(0), "0");
    assert_eq!(decimal(42), "42");
    assert_eq!(decimal(i64::MAX), "9223372036854775807");
}

#[test]
fn decimal_agrees_with_the_standard_formatting() {
    for value in [-100i64, -99, -11, -9, 0, 5, 19, 20, 99, 100, 101, 65535, 1 << 40] {
        assert_eq!(decimal(value), format!("{}", value));
    }
}

#[test]
fn digits_are_appended_to_what_is_there() {
    let mut text = String::from("x = ");
    append_decimal(-305, &mut text);
    text.push_str(", y = ");
    append_digits(17, &mut text);
    assert_eq!(text, "x = -305, y = 17");
}

#[test]
fn missing_uniform_message() {
    assert_eq!(
        PipeError::MissingUniform { location: -1 }.message(),
        "GetUniformLocation(\"transform\") -> -1"
    );
}

#[test]
fn missing_attribute_message_names_the_field() {
    assert_eq!(
        PipeError::MissingAttribute { field: VertexField::TexRightBottom, location: -1 }.message(),
        "tex_right_bottom GetAttribLocation -> -1"
    );
    assert_eq!(
        PipeError::MissingAttribute { field: VertexField::Color, location: -12 }.message(),
        "color GetAttribLocation -> -12"
    );
}

#[test]
fn compile_and_link_messages_are_the_log() {
    let log = String::from("0:1(10): error: GLSL 1.50 is not supported");
    assert_eq!(
        BuildError::Compile { stage: ShaderStage::Vertex, log: log.clone() }.message(),
        log
    );
    assert_eq!(BuildError::Link { log: log.clone() }.message(), log);
}

#[test]
fn interior_nul_message_gives_the_position() {
    assert_eq!(
        BuildError::InteriorNul { position: 4 }.message(),
        "nul byte found in provided data at position: 4"
    );
}

#[test]
fn unreadable_log_message() {
    assert_eq!(
        BuildError::UnreadableLog.message(),
        "the driver's info log is not valid UTF-8"
    );
}

#[test]
fn overflow_loop_message_counts_the_recreations() {
    assert_eq!(
        FrameError::UnboundedOverflowLoop { overflows: 8 }.message(),
        "the glyph atlas is still too small after 8 recreations in one frame"
    );
}

//! Building the shader program: what is handed to the driver's compiler and
//! linker, and how their reports are read.
//!
//! The driver reports success as a status word and explains a failure in an
//! info log. A failed compile or link is fatal for the pipeline; the log's
//! text travels with the error.

use vstd::prelude::*;
use vstd::string::{StringExecFns, StringSliceAdditionalSpecFns};
use crate::decimal::{append_digits, digits};
use vstd::utf8::{decode_utf8, encode_utf8, encode_utf8_decode_utf8, valid_utf8};
use crate::codes::{FRAGMENT_SHADER, TRUE, VERTEX_SHADER};

verus! {

/// The two programmable stages of the text pipeline.
#[derive(Clone, Copy, Debug, PartialEq, Eq)]
pub enum ShaderStage {
    Vertex,
    Fragment,
}

impl ShaderStage {
    pub open spec fn spec_kind(self) -> u32 {
        match self {
            ShaderStage::Vertex => VERTEX_SHADER,
            ShaderStage::Fragment => FRAGMENT_SHADER,
        }
    }

    /// The driver's code for the stage.
    pub fn kind(&self) -> (kind: u32)
        ensures
            kind == self.spec_kind(),
    {
        match self {
            ShaderStage::Vertex => VERTEX_SHADER,
            ShaderStage::Fragment => FRAGMENT_SHADER,
        }
    }

    /// The stage that the driver's code `kind` stands for, if it is one of
    /// the two.
    pub fn from_kind(kind: u32) -> (stage: Option<ShaderStage>)
        ensures
            stage matches Some(s) ==> s.spec_kind() == kind,
            stage is None <==> kind != VERTEX_SHADER && kind != FRAGMENT_SHADER,
    {
        if kind == VERTEX_SHADER {
            Some(ShaderStage::Vertex)
        } else if kind == FRAGMENT_SHADER {
            Some(ShaderStage::Fragment)
        } else {
            None
        }
    }
}

/// Why the shader program could not be built.
#[derive(Debug, PartialEq, Eq)]
pub enum BuildError {
    /// The source holds a zero byte at `position`, so it cannot be passed to
    /// the driver as a terminated string.
    InteriorNul { position: usize },
    /// The driver's compiler rejected the source of the shader of this
    /// stage.
    Compile { stage: ShaderStage, log: String },
    /// The driver's linker rejected the program.
    Link { log: String },
    /// The driver reported a failure and its info log is not UTF-8.
    UnreadableLog,
}

impl BuildError {
    /// The error in words. For a failed compile or link that is the driver's
    /// own info log.
    pub open spec fn spec_message(self) -> Seq<char> {
        match self {
            BuildError::InteriorNul { position } => "nul byte found in provided data at position: "@
                + digits(position as nat),
            BuildError::Compile { stage, log } => log@,
            BuildError::Link { log } => log@,
            BuildError::UnreadableLog => "the driver's info log is not valid UTF-8"@,
        }
    }

    /// The text to show for the error.
    pub fn message(&self) -> (text: String)
        ensures
            text@ == self.spec_message(),
    {
        match self {
            BuildError::InteriorNul { position } => {
                let mut text = String::from_str("nul byte found in provided data at position: ");
                append_digits(*position as u64, &mut text);
                text
            },
            BuildError::Compile { stage, log } => String::from_str(log.as_str()),
            BuildError::Link { log } => String::from_str(log.as_str()),
            BuildError::UnreadableLog => String::from_str(
                "the driver's info log is not valid UTF-8",
            ),
        }
    }
}

/// The position of the first zero byte of `bytes` at or after `from`, or the
/// length of `bytes` if there is none.
pub open spec fn first_nul(bytes: Seq<u8>, from: int) -> int
    decreases bytes.len() - from,
{
    if from < 0 || from >= bytes.len() {
        bytes.len() as int
    } else if bytes[from] == 0 {
        from
    } else {
        first_nul(bytes, from + 1)
    }
}

/// `first_nul` finds a zero byte whenever there is one, and the first of
/// them.
pub proof fn lemma_first_nul(bytes: Seq<u8>, from: int)
    requires
        0 <= from <= bytes.len(),
    ensures
        from <= first_nul(bytes, from) <= bytes.len(),
        first_nul(bytes, from) < bytes.len() ==> bytes[first_nul(bytes, from)] == 0,
        forall|k: int| from <= k < first_nul(bytes, from) ==> bytes[k] != 0,
    decreases bytes.len() - from,
{
    if from < bytes.len() && bytes[from] != 0 {
        lemma_first_nul(bytes, from + 1);
    }
}

/// A shader source can be handed to the driver only as a string that ends at
/// its first zero byte, so a source with a zero byte inside is refused.
pub fn check_source(source: &str) -> (outcome: Result<(), BuildError>)
    ensures
        first_nul(source.spec_bytes(), 0) == source.spec_bytes().len() ==> outcome is Ok,
        first_nul(source.spec_bytes(), 0) < source.spec_bytes().len() ==> outcome == Err::<(), BuildError>(
            BuildError::InteriorNul { position: first_nul(source.spec_bytes(), 0) as usize },
        ),
{
    let bytes = source.as_bytes();
    let mut i: usize = 0;
    while i < bytes.len()
        invariant
            0 <= i <= bytes.len(),
            bytes@ == source.spec_bytes(),
            first_nul(bytes@, 0) == first_nul(bytes@, i as int),
        decreases bytes.len() - i,
    {
        if bytes[i] == 0 {
            return Err(BuildError::InteriorNul { position: i });
        }
        i += 1;
    }
    Ok(())
}

/// The driver's status word says that a compile or link went through.
pub open spec fn succeeded(status: i32) -> bool {
    status == TRUE as i32
}

/// Whether the status word that the driver gave after a compile or link says
/// success.
pub fn status_ok(status: i32) -> (ok: bool)
    ensures
        ok == succeeded(status),
{
    status == TRUE as i32
}

/// The bytes to reserve for an info log whose length the driver gives as
/// `log_length`. The driver counts the terminating zero byte, the text is one
/// byte shorter.
pub fn info_log_capacity(log_length: i32) -> (capacity: usize)
    requires
        log_length >= 1,
    ensures
        capacity == log_length - 1,
{
    (log_length - 1) as usize
}

/// Turns bytes into text with `String::from_utf8`, which accepts exactly the
/// byte strings that are valid UTF-8 and then yields the string made of those
/// very bytes.
#[verifier::external_body]
fn text_of(bytes: Vec<u8>) -> (text: Option<String>)
    ensures
        text is Some <==> valid_utf8(bytes@),
        text matches Some(s) ==> encode_utf8(s@) == bytes@,
{
    match String::from_utf8(bytes) {
        Ok(s) => Some(s),
        Err(_) => None,
    }
}

/// The text of an info log, if the log is text at all.
fn log_text(log: Vec<u8>) -> (text: Option<String>)
    ensures
        text is Some <==> valid_utf8(log@),
        text matches Some(s) ==> s@ == decode_utf8(log@),
{
    let text = text_of(log);
    proof {
        if text is Some {
            encode_utf8_decode_utf8(text->Some_0@);
        }
    }
    text
}

/// The error that a failed compile of a shader of `stage` with the info log
/// `log` amounts to.
pub open spec fn compile_failure(stage: ShaderStage, log: Seq<u8>, error: BuildError) -> bool {
    if valid_utf8(log) {
        error matches BuildError::Compile { stage: s, log: text } && s == stage && text@
            == decode_utf8(log)
    } else {
        error == BuildError::UnreadableLog
    }
}

/// The error that a failed link with the info log `log` amounts to.
pub open spec fn link_failure(log: Seq<u8>, error: BuildError) -> bool {
    if valid_utf8(log) {
        error matches BuildError::Link { log: text } && text@ == decode_utf8(log)
    } else {
        error == BuildError::UnreadableLog
    }
}

/// Reads the driver's report on compiling the shader `shader` of the given
/// stage: the shader itself where the status says success, otherwise the
/// compile error with the text of `log`. On success `log` is not looked at.
/// After a failure the shader is of no use and is to be deleted.
pub fn compile_shader(shader: u32, stage: ShaderStage, status: i32, log: Vec<u8>) -> (outcome: Result<
    u32,
    BuildError,
>)
    ensures
        succeeded(status) ==> outcome == Ok::<u32, BuildError>(shader),
        !succeeded(status) ==> outcome is Err && compile_failure(stage, log@, outcome->Err_0),
{
    if status_ok(status) {
        return Ok(shader);
    }
    match log_text(log) {
        Some(text) => Err(BuildError::Compile { stage, log: text }),
        None => Err(BuildError::UnreadableLog),
    }
}

/// Reads the driver's report on linking `program`: the program itself where
/// the status says success, otherwise the link error with the text of `log`.
/// On success `log` is not looked at. After a failure the program is of no
/// use and is to be deleted.
pub fn link_programs(program: u32, status: i32, log: Vec<u8>) -> (outcome: Result<u32, BuildError>)
    ensures
        succeeded(status) ==> outcome == Ok::<u32, BuildError>(program),
        !succeeded(status) ==> outcome is Err && link_failure(log@, outcome->Err_0),
{
    if status_ok(status) {
        return Ok(program);
    }
    match log_text(log) {
        Some(text) => Err(BuildError::Link { log: text }),
        None => Err(BuildError::UnreadableLog),
    }
}

} // verus!

//! The requests this library makes of the graphics driver.
//!
//! Nothing here talks to a driver. Every operation of the library hands back
//! the commands it wants carried out, in order, and a backend that owns the
//! rendering context performs them on the thread that owns that context.
//! Bulk payloads a command needs besides its scalar arguments (the bytes of
//! an upload) stay with the caller, who passes them to the backend alongside.

use vstd::prelude::*;

verus! {

/// One request to the driver.
///
/// Codes the library does not interpret (binding targets, usage hints,
/// element types) are the driver's own numbers, passed through as given.
#[derive(Debug, PartialEq, Eq)]
#[must_use]
pub enum Command {
    /// Make `buffer` the buffer bound to `target`.
    BindBuffer { target: u32, buffer: u32 },
    /// Replace the whole store of the buffer bound to `target` with `size`
    /// bytes taken from the caller's data.
    BufferData { target: u32, size: usize, usage: u32 },
    /// Free the buffer name `buffer`.
    DeleteBuffer { buffer: u32 },
    /// Make `array` the bound vertex array.
    BindVertexArray { array: u32 },
    /// Describe attribute `location` of the bound vertex array: `count`
    /// components of `data_type` per vertex, `stride` bytes apart, read from
    /// the start of the buffer bound to the vertex-data target.
    VertexAttribPointer { location: u32, count: i32, data_type: u32, normalized: u8, stride: i32 },
    /// Switch attribute `location` of the bound vertex array on.
    EnableVertexAttribArray { location: u32 },
    /// Free the vertex-array name `array`.
    DeleteVertexArray { array: u32 },
    /// Set the source text of `shader`.
    ShaderSource { shader: u32, source: String },
    /// Compile `shader` from its source text.
    CompileShader { shader: u32 },
    /// Free the shader name `shader`.
    DeleteShader { shader: u32 },
    /// Attach `shader` to `program`.
    AttachShader { program: u32, shader: u32 },
    /// Link `program` from the shaders attached to it.
    LinkProgram { program: u32 },
    /// Make `program` the program used for drawing.
    UseProgram { program: u32 },
    /// Free the program name `program`.
    DeleteProgram { program: u32 },
}

/// A [`Command`] as a mathematical value: text is a sequence of characters.
pub ghost enum CommandView {
    BindBuffer { target: u32, buffer: u32 },
    BufferData { target: u32, size: nat, usage: u32 },
    DeleteBuffer { buffer: u32 },
    BindVertexArray { array: u32 },
    VertexAttribPointer { location: u32, count: i32, data_type: u32, normalized: u8, stride: i32 },
    EnableVertexAttribArray { location: u32 },
    DeleteVertexArray { array: u32 },
    ShaderSource { shader: u32, source: Seq<char> },
    CompileShader { shader: u32 },
    DeleteShader { shader: u32 },
    AttachShader { program: u32, shader: u32 },
    LinkProgram { program: u32 },
    UseProgram { program: u32 },
    DeleteProgram { program: u32 },
}

impl View for Command {
    type V = CommandView;

    open spec fn view(&self) -> CommandView {
        match *self {
            Command::BindBuffer { target, buffer } => CommandView::BindBuffer { target, buffer },
            Command::BufferData { target, size, usage } => CommandView::BufferData {
                target,
                size: size as nat,
                usage,
            },
            Command::DeleteBuffer { buffer } => CommandView::DeleteBuffer { buffer },
            Command::BindVertexArray { array } => CommandView::BindVertexArray { array },
            Command::VertexAttribPointer { location, count, data_type, normalized, stride } =>
                CommandView::VertexAttribPointer { location, count, data_type, normalized, stride },
            Command::EnableVertexAttribArray { location } => CommandView::EnableVertexAttribArray {
                location,
            },
            Command::DeleteVertexArray { array } => CommandView::DeleteVertexArray { array },
            Command::ShaderSource { shader, source } => CommandView::ShaderSource {
                shader,
                source: source@,
            },
            Command::CompileShader { shader } => CommandView::CompileShader { shader },
            Command::DeleteShader { shader } => CommandView::DeleteShader { shader },
            Command::AttachShader { program, shader } => CommandView::AttachShader {
                program,
                shader,
            },
            Command::LinkProgram { program } => CommandView::LinkProgram { program },
            Command::UseProgram { program } => CommandView::UseProgram { program },
            Command::DeleteProgram { program } => CommandView::DeleteProgram { program },
        }
    }
}

/// The views of a run of commands, in the same order.
pub open spec fn views(commands: Seq<Command>) -> Seq<CommandView> {
    Seq::new(commands.len(), |i: int| commands[i]@)
}

} // verus!

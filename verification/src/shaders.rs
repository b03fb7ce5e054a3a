//! Shader stages and programs: building them and reporting why a build failed.
//!
//! A build runs in steps, and the types keep the steps in order. `submit`
//! says which commands start the build and hands back the object in its
//! unjudged state ([`Uncompiled`], [`Unlinked`]). `new` takes that object and
//! the status the driver reported, and gives either the finished object or a
//! [`Rejected`] build. A rejected build takes the driver's info log and turns
//! into the error for the caller and the command that frees what the driver
//! had allocated. No other path leads to a [`Shader`] or a [`ShaderProgram`],
//! so each of them stands for an object the driver reported as built.

use crate::command::{views, Command, CommandView};
use crate::context::Context;
use vstd::prelude::*;
use vstd::utf8::{decode_utf8, encode_utf8, valid_utf8};

verus! {

/// `core::str::Utf8Error`, the error of `core::str::from_utf8`. It is only
/// told apart from success here; nothing is claimed of what it holds.
#[verifier::external_type_specification]
#[verifier::external_body]
pub struct ExUtf8Error(core::str::Utf8Error);

/// `core::str::from_utf8`, which this library does not verify: it succeeds on
/// exactly the byte strings that are well-formed UTF-8, and the string slice
/// it then returns spells the text those bytes encode.
pub assume_specification<'a>[ core::str::from_utf8 ](v: &'a [u8]) -> (r: Result<
    &'a str,
    core::str::Utf8Error,
>)
    ensures
        r is Ok <==> valid_utf8(v@),
        r is Ok ==> r->Ok_0@ == decode_utf8(v@),
;

/// Why a stage or a program could not be built.
#[derive(Debug, PartialEq, Eq)]
pub enum ShaderError {
    /// The driver rejected a stage's source; this is its diagnostic, verbatim.
    CompilationError(String),
    /// The driver could not link the stages; this is its diagnostic, verbatim.
    LinkingError(String),
    /// The driver's diagnostic is not text; these are its bytes, all of them.
    Utf8Error(Vec<u8>),
}

/// A [`ShaderError`] as a mathematical value.
pub ghost enum ShaderErrorView {
    CompilationError(Seq<char>),
    LinkingError(Seq<char>),
    Utf8Error(Seq<u8>),
}

impl View for ShaderError {
    type V = ShaderErrorView;

    open spec fn view(&self) -> ShaderErrorView {
        match *self {
            ShaderError::CompilationError(log) => ShaderErrorView::CompilationError(log@),
            ShaderError::LinkingError(log) => ShaderErrorView::LinkingError(log@),
            ShaderError::Utf8Error(bytes) => ShaderErrorView::Utf8Error(bytes@),
        }
    }
}

/// The two kinds of object a build can leave behind.
#[derive(Debug, Clone, Copy, PartialEq, Eq, Structural)]
pub enum Object {
    Stage,
    Program,
}

/// A compiled shader stage.
#[derive(Debug)]
pub struct Shader {
    id: u32,
    shader_type: u32,
}

/// A stage whose source the driver has been given and whose compile status
/// has not been read yet.
#[derive(Debug)]
#[must_use]
pub struct Uncompiled {
    id: u32,
    shader_type: u32,
}

/// A linked program.
#[derive(Debug)]
pub struct ShaderProgram {
    id: u32,
}

/// A program whose stages the driver has been given and whose link status has
/// not been read yet.
#[derive(Debug)]
#[must_use]
pub struct Unlinked {
    id: u32,
}

/// A build the driver reported as failed. The object is still allocated and
/// its info log has not been read yet.
#[derive(Debug)]
#[must_use]
pub struct Rejected {
    id: u32,
    object: Object,
}

/// The error that a failed build of `object` reports when the driver's info
/// log holds the bytes `log`.
pub open spec fn diagnosis(object: Object, log: Seq<u8>) -> ShaderErrorView {
    if !valid_utf8(log) {
        ShaderErrorView::Utf8Error(log)
    } else {
        match object {
            Object::Stage => ShaderErrorView::CompilationError(decode_utf8(log)),
            Object::Program => ShaderErrorView::LinkingError(decode_utf8(log)),
        }
    }
}

/// The command that frees the driver object `id` of kind `object`.
pub open spec fn disposal(object: Object, id: u32) -> CommandView {
    match object {
        Object::Stage => CommandView::DeleteShader { shader: id },
        Object::Program => CommandView::DeleteProgram { program: id },
    }
}

/// The commands that compile `shader` from `source`: the text is handed over
/// as it is, then the compile is asked for.
pub open spec fn compile_commands(shader: u32, source: Seq<char>) -> Seq<CommandView> {
    seq![CommandView::ShaderSource { shader, source }, CommandView::CompileShader { shader }]
}

/// The commands that link `stages` into `program`: one attachment per stage,
/// in the order given, then the link.
pub open spec fn link_commands(program: u32, stages: Seq<&Shader>) -> Seq<CommandView> {
    Seq::new(
        stages.len() + 1,
        |i: int|
            if i < stages.len() {
                CommandView::AttachShader { program, shader: stages[i].id() }
            } else {
                CommandView::LinkProgram { program }
            },
    )
}

impl Uncompiled {
    /// What [`Self::id`] returns, for use in contracts.
    pub closed spec fn spec_id(&self) -> u32 {
        self.id
    }

    /// What [`Self::shader_type`] returns, for use in contracts.
    pub closed spec fn spec_shader_type(&self) -> u32 {
        self.shader_type
    }

    /// The driver's name for the stage, under which its compile status is read.
    #[verifier::when_used_as_spec(spec_id)]
    pub fn id(&self) -> (id: u32)
        ensures
            id == self.id(),
    {
        self.id
    }

    /// The kind of stage, as the driver numbers it.
    #[verifier::when_used_as_spec(spec_shader_type)]
    pub fn shader_type(&self) -> (shader_type: u32)
        ensures
            shader_type == self.shader_type(),
    {
        self.shader_type
    }
}

impl Shader {
    /// What [`Self::id`] returns, for use in contracts.
    pub closed spec fn spec_id(&self) -> u32 {
        self.id
    }

    /// What [`Self::shader_type`] returns, for use in contracts.
    pub closed spec fn spec_shader_type(&self) -> u32 {
        self.shader_type
    }

    /// Starts the compile of one stage.
    ///
    /// `id` is the name the driver created for a shader of kind
    /// `shader_type`. The commands give the driver `shader_source`, unchanged,
    /// as the text of that shader and then compile it.
    #[must_use]
    pub fn submit(id: u32, shader_source: &str, shader_type: u32) -> (started: (
        Uncompiled,
        Vec<Command>,
    ))
        ensures
            started.0.id() == id,
            started.0.shader_type() == shader_type,
            views(started.1@) == compile_commands(id, shader_source@),
    {
        let mut commands: Vec<Command> = Vec::new();
        commands.push(Command::ShaderSource { shader: id, source: shader_source.to_owned() });
        commands.push(Command::CompileShader { shader: id });
        assert(views(commands@) =~= compile_commands(id, shader_source@));
        (Uncompiled { id, shader_type }, commands)
    }

    /// Judges a compile by the status the driver reported for it.
    ///
    /// A status of 1 means the stage compiled, and the stage is handed over.
    /// Any other status means it did not, and the build comes back as
    /// [`Rejected`], still owning the driver's object.
    pub fn new(stage: Uncompiled, status: i32) -> (built: Result<Shader, Rejected>)
        ensures
            status == 1 ==> built is Ok && built->Ok_0.id() == stage.id()
                && built->Ok_0.shader_type() == stage.shader_type(),
            status != 1 ==> built is Err && built->Err_0.id() == stage.id()
                && built->Err_0.object() == Object::Stage,
    {
        if status == 1 {
            Ok(Shader { id: stage.id, shader_type: stage.shader_type })
        } else {
            Err(Rejected { id: stage.id, object: Object::Stage })
        }
    }

    /// The driver's name for this stage.
    #[verifier::when_used_as_spec(spec_id)]
    pub fn id(&self) -> (id: u32)
        ensures
            id == self.id(),
    {
        self.id
    }

    /// The kind of stage, as the driver numbers it.
    #[verifier::when_used_as_spec(spec_shader_type)]
    pub fn shader_type(&self) -> (shader_type: u32)
        ensures
            shader_type == self.shader_type(),
    {
        self.shader_type
    }

    /// Gives the stage up. The one command frees its name, and the stage is
    /// gone with the call, so no second release of it can be written.
    pub fn release(self) -> (command: Command)
        ensures
            command@ == (CommandView::DeleteShader { shader: self.id() }),
    {
        Command::DeleteShader { shader: self.id }
    }
}

impl Unlinked {
    /// What [`Self::id`] returns, for use in contracts.
    pub closed spec fn spec_id(&self) -> u32 {
        self.id
    }

    /// The driver's name for the program, under which its link status is read.
    #[verifier::when_used_as_spec(spec_id)]
    pub fn id(&self) -> (id: u32)
        ensures
            id == self.id(),
    {
        self.id
    }
}

impl ShaderProgram {
    /// What [`Self::id`] returns, for use in contracts.
    pub closed spec fn spec_id(&self) -> u32 {
        self.id
    }

    /// Starts the link of a program.
    ///
    /// `id` is the name the driver created for the program. The commands
    /// attach every stage of `shaders` to it, first to last, and then link.
    /// The stages are only borrowed: their owners may release them once the
    /// commands have run.
    #[must_use]
    pub fn submit(id: u32, shaders: &[&Shader]) -> (started: (Unlinked, Vec<Command>))
        ensures
            started.0.id() == id,
            views(started.1@) == link_commands(id, shaders@),
    {
        let mut commands: Vec<Command> = Vec::new();
        let mut i: usize = 0;
        while i < shaders.len()
            invariant
                i <= shaders@.len(),
                commands@.len() == i,
                forall|k: int|
                    0 <= k < i ==> (#[trigger] commands@[k])@ == (CommandView::AttachShader {
                        program: id,
                        shader: shaders@[k].id(),
                    }),
            decreases shaders@.len() - i,
        {
            commands.push(Command::AttachShader { program: id, shader: shaders[i].id });
            i += 1;
        }
        commands.push(Command::LinkProgram { program: id });
        assert(views(commands@) =~= link_commands(id, shaders@));
        (Unlinked { id }, commands)
    }

    /// Judges a link by the status the driver reported for it.
    ///
    /// A status of 1 means the program linked, and the program is handed
    /// over. Any other status means it did not, and the build comes back as
    /// [`Rejected`], still owning the driver's object.
    pub fn new(program: Unlinked, status: i32) -> (built: Result<ShaderProgram, Rejected>)
        ensures
            status == 1 ==> built is Ok && built->Ok_0.id() == program.id(),
            status != 1 ==> built is Err && built->Err_0.id() == program.id()
                && built->Err_0.object() == Object::Program,
    {
        if status == 1 {
            Ok(ShaderProgram { id: program.id })
        } else {
            Err(Rejected { id: program.id, object: Object::Program })
        }
    }

    /// The driver's name for this program.
    #[verifier::when_used_as_spec(spec_id)]
    pub fn id(&self) -> (id: u32)
        ensures
            id == self.id(),
    {
        self.id
    }

    /// Makes this the program used for drawing, in place of whichever was.
    pub fn apply(&self, ctx: &mut Context) -> (command: Command)
        ensures
            final(ctx)@ == old(ctx)@.use_program(self.id()),
            command@ == (CommandView::UseProgram { program: self.id() }),
    {
        ctx.set_program(self.id);
        Command::UseProgram { program: self.id }
    }

    /// Gives the program up. The one command frees its name, and the program
    /// is gone with the call, so no second release of it can be written.
    pub fn release(self) -> (command: Command)
        ensures
            command@ == (CommandView::DeleteProgram { program: self.id() }),
    {
        Command::DeleteProgram { program: self.id }
    }
}

impl Rejected {
    /// What [`Self::id`] returns, for use in contracts.
    pub closed spec fn spec_id(&self) -> u32 {
        self.id
    }

    /// What [`Self::object`] returns, for use in contracts.
    pub closed spec fn spec_object(&self) -> Object {
        self.object
    }

    /// The driver's name for the failed object, under which its info log is
    /// read.
    #[verifier::when_used_as_spec(spec_id)]
    pub fn id(&self) -> (id: u32)
        ensures
            id == self.id(),
    {
        self.id
    }

    /// Whether a stage or a program failed to build.
    #[verifier::when_used_as_spec(spec_object)]
    pub fn object(&self) -> (object: Object)
        ensures
            object == self.object(),
    {
        self.object
    }

    /// Ends a failed build, given the bytes of the driver's info log.
    ///
    /// A log that is text becomes the message of a compilation error for a
    /// stage and of a linking error for a program, character for character. A
    /// log that is not well-formed UTF-8 is reported as such, with its bytes.
    /// Either way the command frees the object the driver had allocated for
    /// the build.
    #[must_use]
    pub fn report(self, log: Vec<u8>) -> (ended: (ShaderError, Command))
        ensures
            ended.0@ == diagnosis(self.object(), log@),
            ended.1@ == disposal(self.object(), self.id()),
    {
        let text: Option<String> = match core::str::from_utf8(log.as_slice()) {
            Ok(s) => Some(s.to_owned()),
            Err(_) => None,
        };
        match self.object {
            Object::Stage => {
                let error = match text {
                    Some(message) => ShaderError::CompilationError(message),
                    None => ShaderError::Utf8Error(log),
                };
                (error, Command::DeleteShader { shader: self.id })
            },
            Object::Program => {
                let error = match text {
                    Some(message) => ShaderError::LinkingError(message),
                    None => ShaderError::Utf8Error(log),
                };
                (error, Command::DeleteProgram { program: self.id })
            },
        }
    }
}

/// A failed build reports the driver's log and nothing else.
///
/// A log that is text comes back as the message of the error that fits the
/// kind of build, and the message spells the log exactly: encoded again it is
/// the same bytes, and it is empty only where the log is. A log that is not
/// text comes back as the bytes it is.
pub proof fn lemma_diagnosis_is_verbatim(object: Object, log: Seq<u8>)
    ensures
        match diagnosis(object, log) {
            ShaderErrorView::CompilationError(message) => {
                &&& object == Object::Stage
                &&& valid_utf8(log)
                &&& encode_utf8(message) == log
                &&& (message.len() == 0 <==> log.len() == 0)
            },
            ShaderErrorView::LinkingError(message) => {
                &&& object == Object::Program
                &&& valid_utf8(log)
                &&& encode_utf8(message) == log
                &&& (message.len() == 0 <==> log.len() == 0)
            },
            ShaderErrorView::Utf8Error(bytes) => !valid_utf8(log) && bytes == log,
        },
{
    if valid_utf8(log) {
        vstd::utf8::decode_utf8_encode_utf8(log);
    }
}

} // verus!

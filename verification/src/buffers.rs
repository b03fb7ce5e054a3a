//! Buffer objects and vertex arrays.
//!
//! A [`Buffer`] owns one buffer name of the driver and a [`VertexArray`] one
//! vertex-array name. Neither can be copied, and `release` consumes the
//! value, so every name is freed at most once and never used afterwards.

use crate::command::{views, Command, CommandView};
use crate::context::{Bindings, Context};
use vstd::layout::size_of;
use vstd::prelude::*;

verus! {

broadcast use vstd::layout::layout_of_slices;

/// One buffer object of the driver, bound to one target for its whole life.
#[derive(Debug)]
pub struct Buffer {
    id: u32,
    buffer_type: u32,
}

/// How the bytes of a vertex buffer are read for one attribute slot.
#[derive(Debug, Clone, Copy, PartialEq, Eq, Structural)]
pub struct Attribute {
    /// The attribute slot.
    pub location: u32,
    /// Components per vertex.
    pub count: i32,
    /// The type of one component, as the driver numbers it.
    pub data_type: u32,
    /// Whether integer components are scaled into the unit range; 0 for no.
    pub normalized: u8,
    /// Bytes from one vertex to the next; 0 for tightly packed.
    pub stride: i32,
}

/// One vertex array of the driver, with the attributes declared through it.
#[derive(Debug)]
pub struct VertexArray {
    id: u32,
    attributes: Vec<Attribute>,
}

/// The commands of an upload of `size` bytes to `buffer` on `target`: the
/// bind, then the store.
pub open spec fn upload_commands(target: u32, buffer: u32, size: nat, usage: u32) -> Seq<
    CommandView,
> {
    seq![
        CommandView::BindBuffer { target, buffer },
        CommandView::BufferData { target, size, usage },
    ]
}

/// The commands that declare `attribute`: the description, then the switch
/// that turns its slot on.
pub open spec fn layout_commands(attribute: Attribute) -> Seq<CommandView> {
    seq![
        CommandView::VertexAttribPointer {
            location: attribute.location,
            count: attribute.count,
            data_type: attribute.data_type,
            normalized: attribute.normalized,
            stride: attribute.stride,
        },
        CommandView::EnableVertexAttribArray { location: attribute.location },
    ]
}

impl Buffer {
    /// What [`Self::id`] returns, for use in contracts.
    pub closed spec fn spec_id(&self) -> u32 {
        self.id
    }

    /// What [`Self::buffer_type`] returns, for use in contracts.
    pub closed spec fn spec_buffer_type(&self) -> u32 {
        self.buffer_type
    }

    /// Takes charge of the buffer name `id`, which the driver generated, for
    /// use on the target `buffer_type`.
    pub fn new(id: u32, buffer_type: u32) -> (buffer: Buffer)
        ensures
            buffer.id() == id,
            buffer.buffer_type() == buffer_type,
    {
        Buffer { id, buffer_type }
    }

    /// The driver's name for this buffer.
    #[verifier::when_used_as_spec(spec_id)]
    pub fn id(&self) -> (id: u32)
        ensures
            id == self.id(),
    {
        self.id
    }

    /// The target this buffer is bound to, as the driver numbers it.
    #[verifier::when_used_as_spec(spec_buffer_type)]
    pub fn buffer_type(&self) -> (buffer_type: u32)
        ensures
            buffer_type == self.buffer_type(),
    {
        self.buffer_type
    }

    /// Binds this buffer to its target, in place of whichever buffer the
    /// target held. Other targets keep theirs.
    pub fn bind(&self, ctx: &mut Context) -> (command: Command)
        ensures
            final(ctx)@ == old(ctx)@.bind_buffer(self.buffer_type(), self.id()),
            command@ == (CommandView::BindBuffer {
                target: self.buffer_type(),
                buffer: self.id(),
            }),
    {
        ctx.set_buffer(self.buffer_type, self.id);
        Command::BindBuffer { target: self.buffer_type, buffer: self.id }
    }

    /// Replaces the whole content of this buffer with the bytes of `data`.
    ///
    /// The buffer is bound first. The store is then sized to the elements of
    /// `data` exactly: their number times the size of one. The backend reads
    /// that many bytes from the start of `data`. An empty `data` stores
    /// nothing and leaves the buffer empty.
    #[must_use]
    pub fn set_data<D>(&self, ctx: &mut Context, data: &[D], usage: u32) -> (commands: Vec<
        Command,
    >)
        ensures
            final(ctx)@ == old(ctx)@.bind_buffer(self.buffer_type(), self.id()),
            views(commands@) == upload_commands(
                self.buffer_type(),
                self.id(),
                data@.len() * size_of::<D>(),
                usage,
            ),
    {
        let mut commands: Vec<Command> = Vec::new();
        commands.push(self.bind(ctx));
        let size: usize = core::mem::size_of_val(data);
        commands.push(Command::BufferData { target: self.buffer_type, size, usage });
        assert(views(commands@) =~= upload_commands(
            self.buffer_type(),
            self.id(),
            data@.len() * size_of::<D>(),
            usage,
        ));
        commands
    }

    /// Gives the buffer up. The one command frees its name, and the buffer is
    /// gone with the call, so no second release of it can be written.
    pub fn release(self) -> (command: Command)
        ensures
            command@ == (CommandView::DeleteBuffer { buffer: self.id() }),
    {
        Command::DeleteBuffer { buffer: self.id }
    }
}

impl VertexArray {
    /// What [`Self::id`] returns, for use in contracts.
    pub closed spec fn spec_id(&self) -> u32 {
        self.id
    }

    /// The attributes declared so far, oldest first.
    pub closed spec fn layout(&self) -> Seq<Attribute> {
        self.attributes@
    }

    /// Takes charge of the vertex-array name `id`, which the driver
    /// generated. No attribute is declared yet.
    pub fn new(id: u32) -> (array: VertexArray)
        ensures
            array.id() == id,
            array.layout() == Seq::<Attribute>::empty(),
    {
        VertexArray { id, attributes: Vec::new() }
    }

    /// The driver's name for this vertex array.
    #[verifier::when_used_as_spec(spec_id)]
    pub fn id(&self) -> (id: u32)
        ensures
            id == self.id(),
    {
        self.id
    }

    /// The attributes declared so far, oldest first.
    pub fn attributes(&self) -> (attributes: &[Attribute])
        ensures
            attributes@ == self.layout(),
    {
        self.attributes.as_slice()
    }

    /// Binds this vertex array, in place of whichever was bound.
    pub fn bind(&self, ctx: &mut Context) -> (command: Command)
        ensures
            final(ctx)@ == old(ctx)@.bind_vertex_array(self.id()),
            command@ == (CommandView::BindVertexArray { array: self.id() }),
    {
        ctx.set_vertex_array(self.id);
        Command::BindVertexArray { array: self.id }
    }

    /// Declares how attribute slot `location` reads the vertex buffer that is
    /// bound when the commands run, and turns the slot on.
    ///
    /// The declaration is added to those this vertex array already has; none
    /// is ever taken away. Nothing is checked against what is bound: to have
    /// bound this vertex array and the buffer meant as the source is the
    /// caller's part.
    #[must_use]
    pub fn set_layout(
        &mut self,
        location: u32,
        count: i32,
        data_type: u32,
        normalized: u8,
        stride: i32,
    ) -> (commands: Vec<Command>)
        ensures
            final(self).id() == old(self).id(),
            final(self).layout() == old(self).layout().push(
                (Attribute { location, count, data_type, normalized, stride }),
            ),
            views(commands@) == layout_commands(
                (Attribute { location, count, data_type, normalized, stride }),
            ),
    {
        let attribute = Attribute { location, count, data_type, normalized, stride };
        self.attributes.push(attribute);
        let mut commands: Vec<Command> = Vec::new();
        commands.push(
            Command::VertexAttribPointer { location, count, data_type, normalized, stride },
        );
        commands.push(Command::EnableVertexAttribArray { location });
        assert(views(commands@) =~= layout_commands(attribute));
        commands
    }

    /// Gives the vertex array up. The one command frees its name, and the
    /// vertex array is gone with the call, so no second release of it can be
    /// written.
    pub fn release(self) -> (command: Command)
        ensures
            command@ == (CommandView::DeleteVertexArray { array: self.id() }),
    {
        Command::DeleteVertexArray { array: self.id }
    }
}

/// Last bind wins: when two buffers of one target are bound in turn, the
/// target holds the second, and the bindings are what they would be had the
/// first never been bound.
pub proof fn lemma_last_bind_wins(before: Bindings, first: Buffer, second: Buffer)
    requires
        first.buffer_type() == second.buffer_type(),
    ensures
        before.bind_buffer(first.buffer_type(), first.id()).bind_buffer(
            second.buffer_type(),
            second.id(),
        ).buffer(second.buffer_type()) == Some(second.id()),
        before.bind_buffer(first.buffer_type(), first.id()).bind_buffer(
            second.buffer_type(),
            second.id(),
        ) == before.bind_buffer(second.buffer_type(), second.id()),
{
    let target = second.buffer_type();
    assert(before.buffers.insert(target, first.id()).insert(target, second.id())
        =~= before.buffers.insert(target, second.id()));
}

/// A bind to one target leaves every other target with the buffer it held.
pub proof fn lemma_bind_keeps_other_targets(before: Bindings, buffer: Buffer, other: u32)
    requires
        other != buffer.buffer_type(),
    ensures
        before.bind_buffer(buffer.buffer_type(), buffer.id()).buffer(other) == before.buffer(
            other,
        ),
        before.bind_buffer(buffer.buffer_type(), buffer.id()).vertex_array
            == before.vertex_array,
        before.bind_buffer(buffer.buffer_type(), buffer.id()).program == before.program,
{
}

} // verus!

//! What the driver has bound, kept as a value.
//!
//! The driver holds one bound object per target: one buffer for each buffer
//! target, one vertex array, one program. Binding an object to a target puts
//! out whatever the target held. A [`Context`] keeps that state in the open:
//! every operation that binds takes the context and records the binding, so
//! that the order of binds shows in a value the caller can ask.

use std::collections::HashMap;
use vstd::prelude::*;

verus! {

broadcast use vstd::std_specs::hash::group_hash_axioms;

/// The bindings this library has asked the driver to make.
#[derive(Debug)]
pub struct Context {
    buffers: HashMap<u32, u32>,
    vertex_array: Option<u32>,
    program: Option<u32>,
}

/// The bindings as a mathematical value.
pub ghost struct Bindings {
    /// The buffer bound to each buffer target that has had one bound.
    pub buffers: Map<u32, u32>,
    /// The bound vertex array, if one has been bound.
    pub vertex_array: Option<u32>,
    /// The program in use, if one has been put to use.
    pub program: Option<u32>,
}

impl Bindings {
    /// Nothing bound anywhere.
    pub open spec fn empty() -> Bindings {
        Bindings { buffers: Map::empty(), vertex_array: None, program: None }
    }

    /// The buffer bound to `target`, if any.
    pub open spec fn buffer(self, target: u32) -> Option<u32> {
        if self.buffers.contains_key(target) {
            Some(self.buffers[target])
        } else {
            None
        }
    }

    /// These bindings after `buffer` is bound to `target`.
    pub open spec fn bind_buffer(self, target: u32, buffer: u32) -> Bindings {
        Bindings { buffers: self.buffers.insert(target, buffer), ..self }
    }

    /// These bindings after `array` is bound as the vertex array.
    pub open spec fn bind_vertex_array(self, array: u32) -> Bindings {
        Bindings { vertex_array: Some(array), ..self }
    }

    /// These bindings after `program` is put to use.
    pub open spec fn use_program(self, program: u32) -> Bindings {
        Bindings { program: Some(program), ..self }
    }
}

impl View for Context {
    type V = Bindings;

    closed spec fn view(&self) -> Bindings {
        Bindings {
            buffers: self.buffers@,
            vertex_array: self.vertex_array,
            program: self.program,
        }
    }
}

impl Context {
    /// A context in which nothing has been bound yet.
    pub fn new() -> (ctx: Context)
        ensures
            ctx@ == Bindings::empty(),
    {
        Context { buffers: HashMap::new(), vertex_array: None, program: None }
    }

    /// The buffer bound to `target`, if any.
    pub fn bound_buffer(&self, target: u32) -> (buffer: Option<u32>)
        ensures
            buffer == self@.buffer(target),
    {
        match self.buffers.get(&target) {
            Some(buffer) => Some(*buffer),
            None => None,
        }
    }

    /// The bound vertex array, if any.
    pub fn bound_vertex_array(&self) -> (array: Option<u32>)
        ensures
            array == self@.vertex_array,
    {
        self.vertex_array
    }

    /// The program in use, if any.
    pub fn active_program(&self) -> (program: Option<u32>)
        ensures
            program == self@.program,
    {
        self.program
    }

    pub(crate) fn set_buffer(&mut self, target: u32, buffer: u32)
        ensures
            final(self)@ == old(self)@.bind_buffer(target, buffer),
    {
        self.buffers.insert(target, buffer);
    }

    pub(crate) fn set_vertex_array(&mut self, array: u32)
        ensures
            final(self)@ == old(self)@.bind_vertex_array(array),
    {
        self.vertex_array = Some(array);
    }

    pub(crate) fn set_program(&mut self, program: u32)
        ensures
            final(self)@ == old(self)@.use_program(program),
    {
        self.program = Some(program);
    }
}

} // verus!

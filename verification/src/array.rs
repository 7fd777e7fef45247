//! GPU vertex and element arrays.
//!
//! Each array owns a pair (or single) of GPU ids, remembers its element
//! count from creation time, and emits the exact command sequences for
//! upload, binding, attribute description and release. Release happens at
//! most once: a second call emits nothing.

use vstd::prelude::*;
use crate::command::GlCommand;

verus! {

/// A resolved attribute slot of a linked program.
pub struct AttribLocation(pub u32);

impl AttribLocation {
    pub fn new(value: u32) -> (r: Self)
        ensures
            r.0 == value,
    {
        AttribLocation(value)
    }
}

/// How many components one attribute element has (the API accepts 1 to 4).
#[derive(Clone, Copy, Debug, PartialEq, Eq, Structural)]
pub enum Size {
    One,
    Two,
    Three,
    Four,
}

impl Size {
    /// The component count as a number, always within 1 to 4.
    pub open spec fn component_count_spec(self) -> u8 {
        match self {
            Size::One => 1,
            Size::Two => 2,
            Size::Three => 3,
            Size::Four => 4,
        }
    }

    pub fn component_count(&self) -> (r: u8)
        ensures
            r == self.component_count_spec(),
            1 <= r <= 4,
    {
        match self {
            Size::One => 1,
            Size::Two => 2,
            Size::Three => 3,
            Size::Four => 4,
        }
    }
}

/// How a buffer's bytes map to one shader input slot: pure configuration,
/// no ownership.
pub struct AttribPointer {
    pub size: Size,
    pub stride: usize,
    pub offset: usize,
    pub element_type: u32,
}

/// A vertex-array object paired with its data buffer.
///
/// The ids are valid GPU handles for the array's lifetime and are released
/// exactly once; the element count is fixed at creation and never
/// recomputed.
#[derive(Debug, PartialEq, Eq, Structural)]
pub struct VerticesArray {
    pub vao: u32,
    pub vbo: u32,
    pub count: usize,
    pub released: bool,
}

impl VerticesArray {
    /// The release step as a value-level transition: the commands emitted
    /// and the array afterwards.
    pub open spec fn release_spec(self) -> (VerticesArray, Seq<GlCommand>) {
        if self.released {
            (self, Seq::empty())
        } else {
            (
                (VerticesArray { released: true, ..self }),
                seq![
                    (GlCommand::DeleteVertexArray { vao: self.vao }),
                    (GlCommand::DeleteBuffer { id: self.vbo }),
                ],
            )
        }
    }

    /// Wrap freshly generated ids and stage the upload of `count` elements
    /// of `elem_byte_size` bytes each.
    pub fn new(vao: u32, vbo: u32, count: usize, elem_byte_size: usize) -> (r: (
        VerticesArray,
        Vec<GlCommand>,
    ))
        requires
            count * elem_byte_size <= usize::MAX,
        ensures
            r.0 == (VerticesArray { vao, vbo, count, released: false }),
            r.1@ == seq![
                (GlCommand::BindVertexArray { vao }),
                (GlCommand::BindArrayBuffer { vbo }),
                (GlCommand::UploadArrayData { byte_len: (count * elem_byte_size) as usize }),
            ],
    {
        let byte_len: usize = count * elem_byte_size;
        let mut commands: Vec<GlCommand> = Vec::new();
        commands.push(GlCommand::BindVertexArray { vao });
        commands.push(GlCommand::BindArrayBuffer { vbo });
        commands.push(GlCommand::UploadArrayData { byte_len });
        let array = VerticesArray { vao, vbo, count, released: false };
        (array, commands)
    }

    /// Make this array the implicit target of subsequent attribute and draw
    /// calls. Callers must not assume the binding survives another array's
    /// `use_array`.
    pub fn use_array(&self) -> (r: Vec<GlCommand>)
        requires
            !self.released,
        ensures
            r@ == seq![
                (GlCommand::BindVertexArray { vao: self.vao }),
                (GlCommand::BindArrayBuffer { vbo: self.vbo }),
            ],
    {
        let mut commands: Vec<GlCommand> = Vec::new();
        commands.push(GlCommand::BindVertexArray { vao: self.vao });
        commands.push(GlCommand::BindArrayBuffer { vbo: self.vbo });
        commands
    }

    /// Configure and enable one floating-point attribute slot.
    pub fn set_attrib_pointer(
        &self,
        location: AttribLocation,
        value: AttribPointer,
        normalized: bool,
    ) -> (r: Vec<GlCommand>)
        requires
            !self.released,
        ensures
            r@ == seq![
                (GlCommand::BindVertexArray { vao: self.vao }),
                (GlCommand::BindArrayBuffer { vbo: self.vbo }),
                (GlCommand::VertexAttribPointer {
                    location: location.0,
                    components: value.size.component_count_spec(),
                    element_type: value.element_type,
                    normalized,
                    stride: value.stride,
                    offset: value.offset,
                }),
                (GlCommand::EnableVertexAttribArray { location: location.0 }),
            ],
    {
        let mut commands: Vec<GlCommand> = Vec::new();
        commands.push(GlCommand::BindVertexArray { vao: self.vao });
        commands.push(GlCommand::BindArrayBuffer { vbo: self.vbo });
        commands.push(GlCommand::VertexAttribPointer {
            location: location.0,
            components: value.size.component_count(),
            element_type: value.element_type,
            normalized,
            stride: value.stride,
            offset: value.offset,
        });
        commands.push(GlCommand::EnableVertexAttribArray { location: location.0 });
        commands
    }

    /// Configure and enable one integer attribute slot; the API treats
    /// integer inputs through a distinct call with no implicit conversion.
    pub fn set_attrib_int_pointer(&self, location: AttribLocation, value: AttribPointer) -> (r:
        Vec<GlCommand>)
        requires
            !self.released,
        ensures
            r@ == seq![
                (GlCommand::BindVertexArray { vao: self.vao }),
                (GlCommand::BindArrayBuffer { vbo: self.vbo }),
                (GlCommand::VertexAttribIPointer {
                    location: location.0,
                    components: value.size.component_count_spec(),
                    element_type: value.element_type,
                    stride: value.stride,
                    offset: value.offset,
                }),
                (GlCommand::EnableVertexAttribArray { location: location.0 }),
            ],
    {
        let mut commands: Vec<GlCommand> = Vec::new();
        commands.push(GlCommand::BindVertexArray { vao: self.vao });
        commands.push(GlCommand::BindArrayBuffer { vbo: self.vbo });
        commands.push(GlCommand::VertexAttribIPointer {
            location: location.0,
            components: value.size.component_count(),
            element_type: value.element_type,
            stride: value.stride,
            offset: value.offset,
        });
        commands.push(GlCommand::EnableVertexAttribArray { location: location.0 });
        commands
    }

    /// The element count recorded at creation time.
    pub fn len(&self) -> (r: usize)
        ensures
            r == self.count,
    {
        self.count
    }

    /// Release both ids. The first call emits exactly one delete per id;
    /// any further call emits nothing and changes nothing.
    pub fn release(&mut self) -> (r: Vec<GlCommand>)
        ensures
            (*final(self), r@) == old(self).release_spec(),
    {
        if self.released {
            Vec::new()
        } else {
            self.released = true;
            let mut commands: Vec<GlCommand> = Vec::new();
            commands.push(GlCommand::DeleteVertexArray { vao: self.vao });
            commands.push(GlCommand::DeleteBuffer { id: self.vbo });
            commands
        }
    }
}

/// Releasing a live vertices array frees its array and buffer ids exactly
/// once: the first release emits one delete for each id and a repeated
/// release emits no command at all.
pub proof fn lemma_vertices_release_exactly_once(a: VerticesArray)
    requires
        !a.released,
    ensures
        ({
            let (a1, c1) = a.release_spec();
            let (a2, c2) = a1.release_spec();
            &&& c1 == seq![
                (GlCommand::DeleteVertexArray { vao: a.vao }),
                (GlCommand::DeleteBuffer { id: a.vbo }),
            ]
            &&& c2 == Seq::<GlCommand>::empty()
            &&& a2 == a1
        }),
{
}

/// An element (index) buffer with its element count.
#[derive(Debug, PartialEq, Eq, Structural)]
pub struct ElementsArray {
    pub ebo: u32,
    pub count: usize,
    pub released: bool,
}

impl ElementsArray {
    /// The release step as a value-level transition.
    pub open spec fn release_spec(self) -> (ElementsArray, Seq<GlCommand>) {
        if self.released {
            (self, Seq::empty())
        } else {
            (
                (ElementsArray { released: true, ..self }),
                seq![(GlCommand::DeleteBuffer { id: self.ebo })],
            )
        }
    }

    /// Wrap a freshly generated id and stage the upload of `count` indices
    /// of `elem_byte_size` bytes each.
    pub fn new(ebo: u32, count: usize, elem_byte_size: usize) -> (r: (
        ElementsArray,
        Vec<GlCommand>,
    ))
        requires
            count * elem_byte_size <= usize::MAX,
        ensures
            r.0 == (ElementsArray { ebo, count, released: false }),
            r.1@ == seq![
                (GlCommand::BindElementArrayBuffer { ebo }),
                (GlCommand::UploadElementData { byte_len: (count * elem_byte_size) as usize }),
            ],
    {
        let byte_len: usize = count * elem_byte_size;
        let mut commands: Vec<GlCommand> = Vec::new();
        commands.push(GlCommand::BindElementArrayBuffer { ebo });
        commands.push(GlCommand::UploadElementData { byte_len });
        let array = ElementsArray { ebo, count, released: false };
        (array, commands)
    }

    /// Make this buffer the bound element array.
    pub fn use_array(&self) -> (r: Vec<GlCommand>)
        requires
            !self.released,
        ensures
            r@ == seq![(GlCommand::BindElementArrayBuffer { ebo: self.ebo })],
    {
        let mut commands: Vec<GlCommand> = Vec::new();
        commands.push(GlCommand::BindElementArrayBuffer { ebo: self.ebo });
        commands
    }

    /// The element count recorded at creation time.
    pub fn len(&self) -> (r: usize)
        ensures
            r == self.count,
    {
        self.count
    }

    /// Release the buffer id; a repeated call emits nothing.
    pub fn release(&mut self) -> (r: Vec<GlCommand>)
        ensures
            (*final(self), r@) == old(self).release_spec(),
    {
        if self.released {
            Vec::new()
        } else {
            self.released = true;
            let mut commands: Vec<GlCommand> = Vec::new();
            commands.push(GlCommand::DeleteBuffer { id: self.ebo });
            commands
        }
    }
}

/// Releasing a live elements array frees its buffer id exactly once.
pub proof fn lemma_elements_release_exactly_once(a: ElementsArray)
    requires
        !a.released,
    ensures
        ({
            let (a1, c1) = a.release_spec();
            let (a2, c2) = a1.release_spec();
            &&& c1 == seq![(GlCommand::DeleteBuffer { id: a.ebo })]
            &&& c2 == Seq::<GlCommand>::empty()
            &&& a2 == a1
        }),
{
}

} // verus!

use surface_viewer::array::{
    AttribLocation, AttribPointer, ElementsArray, Size, VerticesArray,
};
use surface_viewer::command::GlCommand;
use surface_viewer::shader_program::ShaderProgram;
use surface_viewer::texture::Texture;

/// A mock GPU that only counts release calls per id, as a real driver
/// would free resources.
#[derive(Default)]
struct MockGpu {
    deleted_vertex_arrays: Vec<u32>,
    deleted_buffers: Vec<u32>,
    deleted_programs: Vec<u32>,
}

impl MockGpu {
    fn execute(&mut self, commands: &[GlCommand]) {
        for c in commands {
            match c {
                GlCommand::DeleteVertexArray { vao } => self.deleted_vertex_arrays.push(*vao),
                GlCommand::DeleteBuffer { id } => self.deleted_buffers.push(*id),
                GlCommand::DeleteProgram { id } => self.deleted_programs.push(*id),
                _ => {}
            }
        }
    }

    fn times_deleted(&self, list: &[u32], id: u32) -> usize {
        list.iter().filter(|&&x| x == id).count()
    }
}

#[test]
fn vertices_array_release_frees_both_ids_exactly_once() {
    let mut gpu = MockGpu::default();
    let (mut array, setup) = VerticesArray::new(7, 8, 10, 4);
    gpu.execute(&setup);
    // Creation frees nothing.
    assert!(gpu.deleted_vertex_arrays.is_empty() && gpu.deleted_buffers.is_empty());

    gpu.execute(&array.release());
    // A second release emits nothing: no double free.
    gpu.execute(&array.release());
    assert_eq!(gpu.times_deleted(&gpu.deleted_vertex_arrays, 7), 1);
    assert_eq!(gpu.times_deleted(&gpu.deleted_buffers, 8), 1);
}

#[test]
fn vertices_array_creation_uploads_exact_byte_count() {
    let (array, setup) = VerticesArray::new(1, 2, 6, 4);
    assert_eq!(
        setup,
        vec![
            GlCommand::BindVertexArray { vao: 1 },
            GlCommand::BindArrayBuffer { vbo: 2 },
            GlCommand::UploadArrayData { byte_len: 24 },
        ]
    );
    assert_eq!(array.len(), 6);
}

#[test]
fn use_array_rebinds_both_objects() {
    let (array, _) = VerticesArray::new(1, 2, 6, 4);
    assert_eq!(
        array.use_array(),
        vec![GlCommand::BindVertexArray { vao: 1 }, GlCommand::BindArrayBuffer { vbo: 2 }]
    );
}

#[test]
fn integer_attribute_uses_the_integer_call() {
    let (array, _) = VerticesArray::new(1, 2, 6, 4);
    let commands = array.set_attrib_int_pointer(
        AttribLocation::new(3),
        AttribPointer { size: Size::One, stride: 8, offset: 4, element_type: 0x1405 },
    );
    assert_eq!(
        commands,
        vec![
            GlCommand::BindVertexArray { vao: 1 },
            GlCommand::BindArrayBuffer { vbo: 2 },
            GlCommand::VertexAttribIPointer {
                location: 3,
                components: 1,
                element_type: 0x1405,
                stride: 8,
                offset: 4,
            },
            GlCommand::EnableVertexAttribArray { location: 3 },
        ]
    );
}

#[test]
fn float_attribute_uses_the_float_call_with_normalization() {
    let (array, _) = VerticesArray::new(1, 2, 6, 4);
    let commands = array.set_attrib_pointer(
        AttribLocation::new(5),
        AttribPointer { size: Size::Three, stride: 12, offset: 0, element_type: 0x1406 },
        true,
    );
    assert_eq!(
        commands,
        vec![
            GlCommand::BindVertexArray { vao: 1 },
            GlCommand::BindArrayBuffer { vbo: 2 },
            GlCommand::VertexAttribPointer {
                location: 5,
                components: 3,
                element_type: 0x1406,
                normalized: true,
                stride: 12,
                offset: 0,
            },
            GlCommand::EnableVertexAttribArray { location: 5 },
        ]
    );
}

#[test]
fn component_counts_match_sizes() {
    assert_eq!(Size::One.component_count(), 1);
    assert_eq!(Size::Two.component_count(), 2);
    assert_eq!(Size::Three.component_count(), 3);
    assert_eq!(Size::Four.component_count(), 4);
}

#[test]
fn elements_array_release_frees_its_id_exactly_once() {
    let mut gpu = MockGpu::default();
    let (mut array, setup) = ElementsArray::new(9, 12, 2);
    assert_eq!(
        setup,
        vec![
            GlCommand::BindElementArrayBuffer { ebo: 9 },
            GlCommand::UploadElementData { byte_len: 24 },
        ]
    );
    assert_eq!(array.len(), 12);
    assert_eq!(array.use_array(), vec![GlCommand::BindElementArrayBuffer { ebo: 9 }]);
    gpu.execute(&array.release());
    gpu.execute(&array.release());
    assert_eq!(gpu.times_deleted(&gpu.deleted_buffers, 9), 1);
}

#[test]
fn program_release_frees_its_id_exactly_once() {
    let mut gpu = MockGpu::default();
    let mut program = ShaderProgram { id: 33, released: false };
    assert_eq!(program.use_program(), vec![GlCommand::UseProgram { id: 33 }]);
    gpu.execute(&program.release());
    gpu.execute(&program.release());
    assert_eq!(gpu.times_deleted(&gpu.deleted_programs, 33), 1);
}

#[test]
fn uniform_setters_target_the_program_by_name() {
    let program = ShaderProgram { id: 33, released: false };
    assert_eq!(
        program.set_uniform_bool(String::from("uMaterial.useColor"), true),
        GlCommand::SetUniformI32 { program: 33, name: String::from("uMaterial.useColor"), value: 1 }
    );
    assert_eq!(
        program.set_uniform_bool(String::from("uFlag"), false),
        GlCommand::SetUniformI32 { program: 33, name: String::from("uFlag"), value: 0 }
    );
    assert_eq!(
        program.set_uniform_i32(String::from("uCount"), -4),
        GlCommand::SetUniformI32 { program: 33, name: String::from("uCount"), value: -4 }
    );
    assert_eq!(
        program.set_uniform_u32(String::from("uSlicesCount"), 1000),
        GlCommand::SetUniformU32 { program: 33, name: String::from("uSlicesCount"), value: 1000 }
    );
}

#[test]
fn texture_setup_and_bind_sequences() {
    let texture = Texture::new(5);
    let setup = texture.setup_commands(640, 480);
    assert_eq!(setup.len(), 7);
    assert_eq!(setup[0], GlCommand::BindTexture { id: 5 });
    assert_eq!(setup[5], GlCommand::UploadTexImage { width: 640, height: 480 });
    assert_eq!(setup[6], GlCommand::GenerateMipmap);
    assert_eq!(
        texture.bind(),
        vec![GlCommand::ActiveTexture { unit: 0 }, GlCommand::BindTexture { id: 5 }]
    );
}

use aegis_gl::{
    catalog, gl_attach_shader, gl_bind_buffer, gl_bind_texture, gl_bind_vertex_array,
    gl_buffer_data, gl_clear, gl_clear_color, gl_compile_shader, gl_create_program,
    gl_create_shader, gl_delete_shader, gl_draw_arrays, gl_enable_vertex_attrib_array,
    gl_gen_buffers, gl_gen_textures, gl_gen_vertex_arrays, gl_generate_mipmap,
    gl_get_uniform_location, gl_link_program, gl_load, gl_shader_source, gl_tex_image_2d,
    gl_tex_parameter_i, gl_uniform_4f, gl_use_program, gl_vertex_attrib_pointer, gl_viewport,
    CallError, ExtractError, Kind, NativeCall, NativeReturn, Number, Operation, Param, Value,
};

fn integer(i: i64) -> Value {
    Value::Integer(i)
}

fn float(x: f64) -> Value {
    Value::Float(x.to_bits())
}

fn text(s: &str) -> Value {
    Value::String(s.to_string())
}

fn number(x: f64) -> Number {
    Number::Float(x.to_bits())
}

fn mismatch(position: usize, expected: Kind) -> CallError {
    CallError::Argument { position, cause: ExtractError::TypeMismatch { expected } }
}

fn documented(param: Param) -> Value {
    match param {
        Param::Integer => integer(7),
        Param::Float => float(0.5),
        Param::Boolean => Value::Boolean(true),
        Param::Text => text("name"),
        Param::FloatList => Value::List(vec![float(1.0), integer(2)]),
        Param::ByteList => Value::List(vec![integer(1), integer(2)]),
    }
}

fn documented_args(op: Operation) -> Vec<Value> {
    op.parameters().into_iter().map(documented).collect()
}

#[test]
fn clear_color_takes_four_floats() {
    let r = gl_clear_color(vec![float(0.1), float(0.2), float(0.3), float(1.0)]);
    assert_eq!(
        r,
        Ok(NativeCall::ClearColor {
            red: number(0.1),
            green: number(0.2),
            blue: number(0.3),
            alpha: number(1.0),
        })
    );
    assert_eq!(Operation::ClearColor.wrap_result(NativeReturn::Nothing), Value::Null);
}

#[test]
fn clear_color_takes_integers_as_numbers() {
    let r = gl_clear_color(vec![integer(0), integer(1), float(0.5), integer(1)]);
    assert_eq!(
        r,
        Ok(NativeCall::ClearColor {
            red: Number::Integer(0),
            green: Number::Integer(1),
            blue: number(0.5),
            alpha: Number::Integer(1),
        })
    );
}

#[test]
fn create_shader_hands_the_native_id_back_unaltered() {
    assert_eq!(gl_create_shader(vec![integer(35633)]), Ok(NativeCall::CreateShader { kind: 35633 }));
    for id in [0u32, 1, 3, 65536, u32::MAX] {
        assert_eq!(
            Operation::CreateShader.wrap_result(NativeReturn::Handle(id)),
            Value::Integer(id as i64)
        );
    }
    assert_eq!(
        Operation::CreateShader.wrap_result(NativeReturn::Handle(u32::MAX)),
        Value::Integer(4294967295)
    );
}

#[test]
fn buffer_data_takes_mixed_integers_and_floats() {
    let r = gl_buffer_data(vec![integer(34962), Value::List(vec![integer(1), float(2.5)]), integer(35044)]);
    assert_eq!(
        r,
        Ok(NativeCall::BufferData {
            target: 34962,
            data: vec![Number::Integer(1), number(2.5)],
            usage: 35044,
        })
    );
}

#[test]
fn buffer_data_faults() {
    assert_eq!(
        gl_buffer_data(vec![integer(34962), integer(1), integer(35044)]),
        Err(CallError::Argument { position: 1, cause: ExtractError::NotAList })
    );
    assert_eq!(
        gl_buffer_data(vec![integer(34962), Value::List(vec![float(1.0), text("2")]), integer(35044)]),
        Err(CallError::Argument {
            position: 1,
            cause: ExtractError::ElementMismatch { index: 1, expected: Kind::Float },
        })
    );
    assert_eq!(
        gl_buffer_data(vec![integer(34962), Value::List(vec![]), float(1.0)]),
        Err(mismatch(2, Kind::Integer))
    );
    assert_eq!(
        gl_buffer_data(vec![integer(34962), Value::List(vec![]), integer(35044)]),
        Ok(NativeCall::BufferData { target: 34962, data: vec![], usage: 35044 })
    );
}

#[test]
fn load_takes_the_address_of_the_loader() {
    assert_eq!(gl_load(vec![integer(0x7f00_1234)]), Ok(NativeCall::Load { loader: 0x7f00_1234 }));
    assert_eq!(gl_load(vec![text("loader")]), Err(mismatch(0, Kind::Integer)));
    assert_eq!(gl_load(vec![]), Err(CallError::Arity { expected: 1, found: 0 }));
    assert_eq!(gl_load(vec![integer(1), integer(2)]), Err(CallError::Arity { expected: 1, found: 2 }));
    assert_eq!(Operation::Load.wrap_result(NativeReturn::Nothing), Value::Boolean(true));
}

#[test]
fn viewport_narrows_to_signed_32_bits() {
    assert_eq!(
        gl_viewport(vec![integer(0), integer(-10), integer(800), integer(4294967296 + 600)]),
        Ok(NativeCall::Viewport { x: 0, y: -10, width: 800, height: 600 })
    );
}

#[test]
fn viewport_stops_at_the_first_argument_turned_down() {
    assert_eq!(
        gl_viewport(vec![integer(0), float(1.0), text("800"), Value::Null]),
        Err(mismatch(1, Kind::Integer))
    );
    assert_eq!(
        gl_viewport(vec![integer(0), integer(0), integer(800), Value::Boolean(true)]),
        Err(mismatch(3, Kind::Integer))
    );
}

#[test]
fn arity_is_checked_before_any_argument() {
    assert_eq!(
        gl_viewport(vec![text("x"), text("y"), text("w")]),
        Err(CallError::Arity { expected: 4, found: 3 })
    );
    assert_eq!(
        gl_viewport(vec![integer(0), integer(0), integer(1), integer(1), integer(1)]),
        Err(CallError::Arity { expected: 4, found: 5 })
    );
}

#[test]
fn clear_narrows_to_unsigned_32_bits() {
    assert_eq!(gl_clear(vec![integer(16640)]), Ok(NativeCall::Clear { mask: 16640 }));
    assert_eq!(gl_clear(vec![integer(-1)]), Ok(NativeCall::Clear { mask: u32::MAX }));
    assert_eq!(gl_clear(vec![float(16640.0)]), Err(mismatch(0, Kind::Integer)));
}

#[test]
fn shader_source_null_terminates_the_text() {
    assert_eq!(
        gl_shader_source(vec![integer(3), text("void main() {}")]),
        Ok(NativeCall::ShaderSource { shader: 3, source: b"void main() {}\0".to_vec() })
    );
    assert_eq!(
        gl_shader_source(vec![integer(3), text("void\0main")]),
        Err(CallError::Argument { position: 1, cause: ExtractError::Encoding })
    );
    assert_eq!(gl_shader_source(vec![integer(3), integer(4)]), Err(mismatch(1, Kind::String)));
    assert_eq!(gl_shader_source(vec![text("3"), text("\0")]), Err(mismatch(0, Kind::Integer)));
}

#[test]
fn get_uniform_location_answers_with_the_location() {
    assert_eq!(
        gl_get_uniform_location(vec![integer(5), text("u_color")]),
        Ok(NativeCall::GetUniformLocation { program: 5, name: b"u_color\0".to_vec() })
    );
    assert_eq!(
        gl_get_uniform_location(vec![integer(5), text("u\0")]),
        Err(CallError::Argument { position: 1, cause: ExtractError::Encoding })
    );
    assert_eq!(
        gl_get_uniform_location(vec![integer(5)]),
        Err(CallError::Arity { expected: 2, found: 1 })
    );
    assert_eq!(
        Operation::GetUniformLocation.wrap_result(NativeReturn::Location(4)),
        Value::Integer(4)
    );
    assert_eq!(
        Operation::GetUniformLocation.wrap_result(NativeReturn::Location(-1)),
        Value::Integer(-1)
    );
}

#[test]
fn uniform_4f_takes_a_location_and_four_numbers() {
    assert_eq!(
        gl_uniform_4f(vec![integer(-1), float(1.0), integer(0), float(0.25), float(1.0)]),
        Ok(NativeCall::Uniform4f {
            location: -1,
            v0: number(1.0),
            v1: Number::Integer(0),
            v2: number(0.25),
            v3: number(1.0),
        })
    );
    assert_eq!(
        gl_uniform_4f(vec![float(1.0), float(1.0), float(1.0), float(1.0), float(1.0)]),
        Err(mismatch(0, Kind::Integer))
    );
    assert_eq!(
        gl_uniform_4f(vec![integer(1), float(1.0), float(1.0), text("1"), float(1.0)]),
        Err(mismatch(3, Kind::Float))
    );
    assert_eq!(
        gl_uniform_4f(vec![integer(1), float(1.0), float(1.0), float(1.0)]),
        Err(CallError::Arity { expected: 5, found: 4 })
    );
}

#[test]
fn vertex_attrib_pointer_encodes_the_flag() {
    assert_eq!(
        gl_vertex_attrib_pointer(vec![
            integer(0),
            integer(3),
            integer(5126),
            Value::Boolean(false),
            integer(20),
            integer(12),
        ]),
        Ok(NativeCall::VertexAttribPointer {
            index: 0,
            size: 3,
            kind: 5126,
            normalized: 0,
            stride: 20,
            offset: 12,
        })
    );
    assert_eq!(
        gl_vertex_attrib_pointer(vec![
            integer(1),
            integer(2),
            integer(5121),
            Value::Boolean(true),
            integer(0),
            integer(0),
        ]),
        Ok(NativeCall::VertexAttribPointer {
            index: 1,
            size: 2,
            kind: 5121,
            normalized: gl::TRUE,
            stride: 0,
            offset: 0,
        })
    );
    assert_eq!(
        gl_vertex_attrib_pointer(vec![integer(1), integer(2), integer(5121), integer(1), integer(0), integer(0)]),
        Err(mismatch(3, Kind::Boolean))
    );
}

#[test]
fn tex_image_2d_takes_eight_integers_and_the_pixels() {
    let pixels = Value::List(vec![integer(255), integer(0), integer(0), integer(255), integer(256), integer(-1)]);
    assert_eq!(
        gl_tex_image_2d(vec![
            integer(3553),
            integer(0),
            integer(6408),
            integer(2),
            integer(1),
            integer(0),
            integer(6408),
            integer(5121),
            pixels,
        ]),
        Ok(NativeCall::TexImage2D {
            target: 3553,
            level: 0,
            internal_format: 6408,
            width: 2,
            height: 1,
            border: 0,
            format: 6408,
            kind: 5121,
            pixels: vec![255, 0, 0, 255, 0, 255],
        })
    );
}

#[test]
fn tex_image_2d_faults() {
    let args = |pixels: Value| {
        vec![integer(3553), integer(0), integer(6408), integer(2), integer(1), integer(0), integer(6408), integer(5121), pixels]
    };
    assert_eq!(
        gl_tex_image_2d(args(Value::List(vec![integer(1), integer(2), text("3")]))),
        Err(CallError::Argument {
            position: 8,
            cause: ExtractError::ElementMismatch { index: 2, expected: Kind::Integer },
        })
    );
    assert_eq!(
        gl_tex_image_2d(args(integer(1))),
        Err(CallError::Argument { position: 8, cause: ExtractError::NotAList })
    );
    let mut short = args(Value::List(vec![]));
    short.pop();
    assert_eq!(gl_tex_image_2d(short), Err(CallError::Arity { expected: 9, found: 8 }));
    let mut wrong = args(Value::List(vec![text("x")]));
    wrong[6] = Value::Null;
    assert_eq!(gl_tex_image_2d(wrong), Err(mismatch(6, Kind::Integer)));
}

#[test]
fn creating_asks_for_exactly_one() {
    assert_eq!(gl_gen_buffers(vec![]), Ok(NativeCall::GenBuffers { count: 1 }));
    assert_eq!(gl_gen_vertex_arrays(vec![]), Ok(NativeCall::GenVertexArrays { count: 1 }));
    assert_eq!(gl_gen_textures(vec![]), Ok(NativeCall::GenTextures { count: 1 }));
    assert_eq!(gl_create_program(vec![]), Ok(NativeCall::CreateProgram));
    assert_eq!(
        Operation::GenBuffers.wrap_result(NativeReturn::Handle(9)),
        Value::Integer(9)
    );
}

#[test]
fn operations_without_arguments_take_none() {
    assert_eq!(gl_gen_buffers(vec![integer(2)]), Err(CallError::Arity { expected: 0, found: 1 }));
    assert_eq!(
        gl_gen_vertex_arrays(vec![integer(2)]),
        Err(CallError::Arity { expected: 0, found: 1 })
    );
    assert_eq!(gl_gen_textures(vec![integer(2)]), Err(CallError::Arity { expected: 0, found: 1 }));
    assert_eq!(
        gl_create_program(vec![Value::Null]),
        Err(CallError::Arity { expected: 0, found: 1 })
    );
}

#[test]
fn operations_of_one_handle() {
    assert_eq!(gl_compile_shader(vec![integer(3)]), Ok(NativeCall::CompileShader { shader: 3 }));
    assert_eq!(gl_link_program(vec![integer(4)]), Ok(NativeCall::LinkProgram { program: 4 }));
    assert_eq!(gl_use_program(vec![integer(4)]), Ok(NativeCall::UseProgram { program: 4 }));
    assert_eq!(gl_delete_shader(vec![integer(3)]), Ok(NativeCall::DeleteShader { shader: 3 }));
    assert_eq!(gl_bind_vertex_array(vec![integer(1)]), Ok(NativeCall::BindVertexArray { array: 1 }));
    assert_eq!(
        gl_enable_vertex_attrib_array(vec![integer(2)]),
        Ok(NativeCall::EnableVertexAttribArray { index: 2 })
    );
    assert_eq!(gl_generate_mipmap(vec![integer(3553)]), Ok(NativeCall::GenerateMipmap { target: 3553 }));
    assert_eq!(gl_compile_shader(vec![text("3")]), Err(mismatch(0, Kind::Integer)));
    assert_eq!(gl_use_program(vec![]), Err(CallError::Arity { expected: 1, found: 0 }));
}

#[test]
fn operations_of_two_and_three_integers() {
    assert_eq!(
        gl_attach_shader(vec![integer(4), integer(3)]),
        Ok(NativeCall::AttachShader { program: 4, shader: 3 })
    );
    assert_eq!(
        gl_bind_buffer(vec![integer(34962), integer(1)]),
        Ok(NativeCall::BindBuffer { target: 34962, buffer: 1 })
    );
    assert_eq!(
        gl_bind_texture(vec![integer(3553), integer(2)]),
        Ok(NativeCall::BindTexture { target: 3553, texture: 2 })
    );
    assert_eq!(
        gl_tex_parameter_i(vec![integer(3553), integer(10241), integer(-9729)]),
        Ok(NativeCall::TexParameteri { target: 3553, pname: 10241, param: -9729 })
    );
    assert_eq!(
        gl_draw_arrays(vec![integer(4), integer(0), integer(3)]),
        Ok(NativeCall::DrawArrays { mode: 4, first: 0, count: 3 })
    );
    assert_eq!(gl_attach_shader(vec![integer(4), Value::Null]), Err(mismatch(1, Kind::Integer)));
    assert_eq!(
        gl_draw_arrays(vec![integer(4), integer(0)]),
        Err(CallError::Arity { expected: 3, found: 2 })
    );
}

#[test]
fn every_operation_takes_its_documented_arguments() {
    for op in catalog() {
        let r = op.prepare(documented_args(op));
        assert!(r.is_ok(), "{:?}: {:?}", op, r);
    }
}

#[test]
fn every_operation_fails_one_argument_short() {
    for op in catalog() {
        let mut args = documented_args(op);
        if args.pop().is_none() {
            continue;
        }
        assert_eq!(
            op.prepare(args),
            Err(CallError::Arity { expected: op.arity(), found: op.arity() - 1 }),
            "{:?}",
            op
        );
    }
}

#[test]
fn every_operation_fails_one_argument_over() {
    for op in catalog() {
        let mut args = documented_args(op);
        args.push(Value::Null);
        assert_eq!(
            op.prepare(args),
            Err(CallError::Arity { expected: op.arity(), found: op.arity() + 1 }),
            "{:?}",
            op
        );
    }
}

#[test]
fn every_operation_names_the_argument_of_the_wrong_kind() {
    for op in catalog() {
        for position in 0..op.arity() {
            let mut args = documented_args(op);
            args[position] = Value::Null;
            match op.prepare(args) {
                Err(CallError::Argument { position: named, .. }) => assert_eq!(named, position),
                other => panic!("{:?} at {}: {:?}", op, position, other),
            }
        }
    }
}

#[test]
fn arity_is_the_number_of_parameters() {
    for op in catalog() {
        assert_eq!(op.arity(), op.parameters().len());
    }
    assert_eq!(Operation::TexImage2D.arity(), 9);
    assert_eq!(Operation::VertexAttribPointer.arity(), 6);
    assert_eq!(Operation::Uniform4f.arity(), 5);
    assert_eq!(Operation::CreateProgram.arity(), 0);
    assert_eq!(
        Operation::BufferData.parameters(),
        vec![Param::Integer, Param::FloatList, Param::Integer]
    );
}

#[test]
fn prepare_is_the_wrapper_of_the_operation() {
    assert_eq!(
        Operation::Viewport.prepare(vec![integer(1), integer(2), integer(3), integer(4)]),
        gl_viewport(vec![integer(1), integer(2), integer(3), integer(4)])
    );
    assert_eq!(Operation::Clear.prepare(vec![integer(256)]), Ok(NativeCall::Clear { mask: 256 }));
    assert_eq!(
        Operation::DrawArrays.prepare(vec![integer(4), integer(0), integer(3)]),
        Ok(NativeCall::DrawArrays { mode: 4, first: 0, count: 3 })
    );
}

#[test]
fn answers_where_the_native_side_returns_nothing() {
    for op in catalog() {
        let answer = op.wrap_result(NativeReturn::Nothing);
        if op == Operation::Load {
            assert_eq!(answer, Value::Boolean(true));
        } else {
            assert_eq!(answer, Value::Null);
        }
    }
}

#[test]
fn answers_are_of_the_kind_that_the_catalog_gives() {
    for op in catalog() {
        let returned = match op {
            Operation::CreateShader
            | Operation::CreateProgram
            | Operation::GenBuffers
            | Operation::GenVertexArrays
            | Operation::GenTextures => NativeReturn::Handle(17),
            Operation::GetUniformLocation => NativeReturn::Location(-1),
            _ => NativeReturn::Nothing,
        };
        assert_eq!(op.wrap_result(returned).kind(), op.result_kind(), "{:?}", op);
    }
    assert_eq!(Operation::Load.result_kind(), Kind::Boolean);
    assert_eq!(Operation::CreateShader.result_kind(), Kind::Integer);
    assert_eq!(Operation::GetUniformLocation.result_kind(), Kind::Integer);
    assert_eq!(Operation::Viewport.result_kind(), Kind::Null);
    assert_eq!(Operation::BufferData.result_kind(), Kind::Null);
}

#[test]
fn a_nested_list_is_no_element_of_a_buffer() {
    let nested = Value::List(vec![Value::List(vec![integer(1)])]);
    assert_eq!(
        gl_buffer_data(vec![integer(34962), nested, integer(35044)]),
        Err(CallError::Argument {
            position: 1,
            cause: ExtractError::ElementMismatch { index: 0, expected: Kind::Float },
        })
    );
}

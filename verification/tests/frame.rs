//! Frame bracketing and the full-frame scenario.

use citro3d::buffer;
use citro3d::driver::{Call, Driver, FRAME_SYNCDRAW};
use citro3d::render::{DepthFormat, Target};
use citro3d::shader;
use citro3d::uniform;
use citro3d::{attrib, Instance};

fn fresh_instance() -> Instance {
    Instance::new(Driver::power_on()).expect("fresh driver must initialize")
}

fn configured_target(handle: usize) -> Target {
    let mut target = Target::new(handle, Some(DepthFormat::Depth24Stencil8));
    target.set_output(0x2340);
    target
}

fn bracket_pairs(inst: &Instance) -> (u64, u64) {
    (inst.driver().frames_begun(), inst.driver().frames_ended())
}

#[test]
fn bracket_closes_once_with_empty_body() {
    let inst = fresh_instance();
    assert_eq!(bracket_pairs(&inst), (0, 0));
    let inst = inst.render_frame_with(|i| i);
    assert_eq!(bracket_pairs(&inst), (1, 1));
    assert_eq!(
        inst.driver().calls().as_slice(),
        &[
            Call::FrameBegin { sync: FRAME_SYNCDRAW },
            Call::FrameEnd { flags: 0 },
        ]
    );
}

#[test]
fn bracket_closes_once_per_invocation_with_one_or_many_draws() {
    let info = buffer::Info::new(0x3000_2000, 24, 2, 0x10);
    let vbo = buffer::Slice::new(info, 0, 3);

    let inst = fresh_instance();
    let inst = inst.render_frame_with(move |mut i| {
        i.draw_arrays(buffer::Primitive::Triangles, vbo);
        i
    });
    assert_eq!(bracket_pairs(&inst), (1, 1));

    let inst = inst.render_frame_with(move |mut i| {
        i.draw_arrays(buffer::Primitive::Triangles, vbo);
        i.draw_arrays(buffer::Primitive::TriangleStrip, vbo);
        i.draw_arrays(buffer::Primitive::TriangleFan, vbo);
        i
    });
    assert_eq!(bracket_pairs(&inst), (2, 2));

    // Every begin in the log pairs with exactly one end, in order.
    let mut depth: i64 = 0;
    for call in inst.driver().calls() {
        match call {
            Call::FrameBegin { .. } => {
                depth += 1;
                assert_eq!(depth, 1, "brackets must not overlap");
            }
            Call::FrameEnd { .. } => {
                depth -= 1;
                assert_eq!(depth, 0, "an end closes exactly one open bracket");
            }
            _ => {}
        }
    }
    assert_eq!(depth, 0);
}

#[test]
fn full_frame_scenario_submits_each_call_once_in_order() {
    // Construct context, begin a frame, select a target, describe a 3-vertex
    // triangle, bind the identity matrix to vertex uniform slot 0, draw, end.
    let inst = fresh_instance();
    let target = configured_target(1);

    let mut attr = attrib::Info::new();
    assert!(attr.add_loader(0, attrib::Format::Float, 3));
    assert!(attr.add_loader(1, attrib::Format::Float, 3));

    let buf = buffer::Info::new(0x3000_2000, 24, 2, 0x10);
    let vbo = buffer::Slice::new(buf, 0, 3);

    let one = 1.0f32.to_bits();
    let mut words = [0u32; 16];
    words[0] = one;
    words[5] = one;
    words[10] = one;
    words[15] = one;
    let identity = uniform::Uniform::Matrix4x4(uniform::Matrix { words });

    let program = shader::Program::new(0x5000);

    let inst = inst.render_frame_with(move |mut i| {
        i.select_render_target(&target).expect("configured target");
        i.bind_program(&program);
        i.set_attr_info(&attr);
        i.bind_vertex_uniform(uniform::Index::new(0), identity);
        i.draw_arrays(buffer::Primitive::Triangles, vbo);
        i
    });

    assert_eq!(bracket_pairs(&inst), (1, 1));
    assert_eq!(inst.driver().current_target(), Some(1));
    assert_eq!(inst.driver().current_program(), Some(program));
    assert_eq!(inst.buffer_info(), Some(buf));
    assert_eq!(inst.attr_info(), Some(attr));
    assert_eq!(
        inst.driver().calls().as_slice(),
        &[
            Call::FrameBegin { sync: FRAME_SYNCDRAW },
            Call::DrawOn { target: 1 },
            Call::BindProgram { program },
            Call::SetAttrInfo { info: attr },
            Call::UploadMatrix {
                stage: shader::Type::Vertex,
                index: uniform::Index::new(0),
                matrix: uniform::Matrix { words },
            },
            Call::SetBufInfo { info: buf },
            Call::DrawArrays {
                primitive: buffer::Primitive::Triangles,
                first: 0,
                count: 3,
            },
            Call::FrameEnd { flags: 0 },
        ]
    );
}

#[test]
fn uniform_binds_dispatch_by_variant_and_stage() {
    let inst = fresh_instance();
    let inst = inst.render_frame_with(|mut i| {
        i.bind_vertex_uniform(
            uniform::Index::new(4),
            uniform::Uniform::Vector(uniform::Vector { words: [1, 2, 3, 4] }),
        );
        i.bind_geometry_uniform(uniform::Index::new(5), uniform::Uniform::Bool(true));
        i.bind_vertex_uniform(uniform::Index::new(6), uniform::Uniform::Int(9));
        i
    });
    assert_eq!(
        inst.driver().calls().as_slice(),
        &[
            Call::FrameBegin { sync: FRAME_SYNCDRAW },
            Call::UploadVector {
                stage: shader::Type::Vertex,
                index: uniform::Index::new(4),
                vector: uniform::Vector { words: [1, 2, 3, 4] },
            },
            Call::UploadBool {
                stage: shader::Type::Geometry,
                index: uniform::Index::new(5),
                value: true,
            },
            Call::UploadInt {
                stage: shader::Type::Vertex,
                index: uniform::Index::new(6),
                value: 9,
            },
            Call::FrameEnd { flags: 0 },
        ]
    );
}

#[test]
fn state_set_before_a_draw_is_visible_to_it() {
    // Submission order is preserved: the descriptor set inside the frame
    // stands in the log before the draw that consumes it.
    let inst = fresh_instance();
    let buf = buffer::Info::new(0x3000_4000, 12, 1, 0x0);
    let vbo = buffer::Slice::new(buf, 0, 6);
    let inst = inst.render_frame_with(move |mut i| {
        i.set_buffer_info(&buf);
        i.draw_arrays(buffer::Primitive::TriangleStrip, vbo);
        i
    });
    let calls = inst.driver().calls();
    let set_at = calls
        .iter()
        .position(|c| matches!(c, Call::SetBufInfo { .. }))
        .expect("descriptor set submitted");
    let draw_at = calls
        .iter()
        .position(|c| matches!(c, Call::DrawArrays { .. }))
        .expect("draw submitted");
    assert!(set_at < draw_at);
}

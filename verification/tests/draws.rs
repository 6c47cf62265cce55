//! Draw dispatch and the linear-memory residency check.

use citro3d::buffer;
use citro3d::driver::{Call, Driver};
use citro3d::linear::LinearPool;
use citro3d::{Error, IndexType, Instance, LinearIndices};

fn fresh_instance() -> Instance {
    Instance::new(Driver::power_on()).expect("fresh driver must initialize")
}

#[test]
fn index_type_reports_length_and_width() {
    let bytes: [u8; 3] = [0, 1, 2];
    let shorts: [u16; 4] = [0, 1, 2, 3];
    let narrow = IndexType::from(&bytes[..]);
    let wide = IndexType::from(&shorts[..]);
    assert_eq!(narrow.len(), 3);
    assert_eq!(wide.len(), 4);
    assert_eq!(narrow.format(), buffer::IndexFormat::UnsignedByte);
    assert_eq!(wide.format(), buffer::IndexFormat::UnsignedShort);
}

#[test]
fn linear_indices_admit_pool_allocations() {
    let mut pool = LinearPool::new(0x3000_0000, 0x1000_0000);
    let addr = pool.allocate(6).expect("the pool has room");
    assert!(pool.contains(addr));
    let indices: [u16; 3] = [0, 1, 2];
    let ix = LinearIndices::new(&pool, addr, IndexType::from(&indices[..]))
        .expect("pool allocations pass the residency check");
    assert_eq!(ix.base(), addr);
    assert_eq!(ix.len(), 3);
    assert_eq!(ix.format(), buffer::IndexFormat::UnsignedShort);
}

#[test]
fn linear_indices_reject_ordinary_memory() {
    let pool = LinearPool::new(0x3000_0000, 0x1000_0000);
    let indices: [u16; 3] = [0, 1, 2];
    // An address outside the linear region: the residency check catches the
    // contract breach before anything reaches the GPU.
    let ordinary = 0x0010_0000;
    assert!(!pool.contains(ordinary));
    assert!(LinearIndices::new(&pool, ordinary, IndexType::from(&indices[..])).is_none());
}

#[test]
fn indexed_draw_from_the_linear_pool_succeeds() {
    let mut pool = LinearPool::new(0x3000_0000, 0x1000_0000);
    let addr = pool.allocate(6).expect("the pool has room");
    let indices: [u16; 3] = [2, 0, 1];
    let ix = LinearIndices::new(&pool, addr, IndexType::from(&indices[..]))
        .expect("pool allocations pass the residency check");

    let inst = fresh_instance();
    let target = configured_target();
    let info = buffer::Info::new(0x3000_1000, 24, 2, 0x10);
    let inst = inst.render_frame_with(|mut i| {
        i.select_render_target(&target).expect("configured target");
        i.draw_elements(buffer::Primitive::Triangles, &info, ix);
        i
    });
    let calls = inst.driver().calls();
    assert_eq!(calls[calls.len() - 3], Call::SetBufInfo { info });
    assert_eq!(
        calls[calls.len() - 2],
        Call::DrawElements {
            primitive: buffer::Primitive::Triangles,
            count: 3,
            format: buffer::IndexFormat::UnsignedShort,
            base: addr,
        }
    );
    assert_eq!(calls[calls.len() - 1], Call::FrameEnd { flags: 0 });
}

#[test]
fn narrow_indices_select_the_byte_flag() {
    let mut pool = LinearPool::new(0x3000_0000, 0x1000_0000);
    let addr = pool.allocate(3).expect("the pool has room");
    let indices: [u8; 3] = [0, 1, 2];
    let ix = LinearIndices::new(&pool, addr, IndexType::from(&indices[..])).unwrap();

    let inst = fresh_instance();
    let info = buffer::Info::new(0x3000_1000, 24, 2, 0x10);
    let inst = inst.render_frame_with(|mut i| {
        i.draw_elements(buffer::Primitive::TriangleFan, &info, ix);
        i
    });
    let calls = inst.driver().calls();
    assert_eq!(
        calls[calls.len() - 2],
        Call::DrawElements {
            primitive: buffer::Primitive::TriangleFan,
            count: 3,
            format: buffer::IndexFormat::UnsignedByte,
            base: addr,
        }
    );
}

#[test]
fn draw_arrays_binds_the_range_buffer_then_draws() {
    let inst = fresh_instance();
    let info = buffer::Info::new(0x3000_2000, 24, 2, 0x10);
    let vbo = buffer::Slice::new(info, 0, 3);
    let inst = inst.render_frame_with(move |mut i| {
        i.draw_arrays(buffer::Primitive::Triangles, vbo);
        i
    });
    assert_eq!(inst.buffer_info(), Some(info));
    let calls = inst.driver().calls();
    assert_eq!(calls[calls.len() - 3], Call::SetBufInfo { info });
    assert_eq!(
        calls[calls.len() - 2],
        Call::DrawArrays { primitive: buffer::Primitive::Triangles, first: 0, count: 3 }
    );
}

#[test]
fn pool_allocation_is_bump_and_bounded() {
    let mut pool = LinearPool::new(0x100, 16);
    let a = pool.allocate(8).expect("fits");
    let b = pool.allocate(8).expect("fits");
    assert_ne!(a, b);
    assert!(pool.contains(a) && pool.contains(b));
    assert!(pool.allocate(1).is_none());
    assert!(LinearPool::new(0x100, 16).allocate(0).is_none());
}

#[test]
fn select_render_target_rejects_unconfigured_targets() {
    let inst = fresh_instance();
    let bare = citro3d::render::Target::new(7, None);
    let inst = inst.render_frame_with(|mut i| {
        let r = i.select_render_target(&bare);
        assert!(matches!(r, Err(Error::InvalidRenderTarget)));
        i
    });
    assert_eq!(inst.driver().current_target(), None);
}

fn configured_target() -> citro3d::render::Target {
    let mut target = citro3d::render::Target::new(
        1,
        Some(citro3d::render::DepthFormat::Depth24Stencil8),
    );
    target.set_output(0x88);
    target
}

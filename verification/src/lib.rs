//! A safety layer around an immediate-mode GPU command-submission interface.
//!
//! The underlying GPU driver is a global, synchronous service with no safety
//! checks of its own: it must be initialized exactly once, frames must be
//! bracketed by balanced begin/end calls, and indexed draws must only ever
//! see index buffers that reside in the linear (GPU-visible) memory region.
//! This crate encodes those sequencing and residency rules in types and
//! contracts around an explicit model of the driver's state
//! ([`driver::Driver`]); a device port performs the corresponding hardware
//! call wherever a transition appends to the driver's submission log, in the
//! order the log records.

pub mod attrib;
pub mod buffer;
pub mod driver;
pub mod error;
pub mod linear;
pub mod render;
pub mod shader;
pub mod texenv;
pub mod uniform;

pub use error::Error;

use vstd::prelude::*;

use crate::driver::{Call, Driver, FRAME_SYNCDRAW};
use crate::linear::LinearPool;
use crate::texenv::{Stage, TexEnv, TEXENV_COUNT};

verus! {

/// The command buffer size used when the caller does not pick one.
pub const DEFAULT_CMDBUF_SIZE: usize = 262144;

/// The kind of index data an indexed draw reads: narrow 8-bit indices or
/// 16-bit indices.
#[derive(Clone, Copy, Debug)]
pub enum IndexType<'a> {
    /// 16-bit indices.
    U16(&'a [u16]),
    /// 8-bit indices.
    U8(&'a [u8]),
}

impl IndexType<'_> {
    /// How many indices the buffer holds.
    pub closed spec fn spec_len(self) -> int {
        match self {
            IndexType::U16(a) => a@.len() as int,
            IndexType::U8(a) => a@.len() as int,
        }
    }

    /// The element-size flag the driver is given for this index width.
    pub closed spec fn spec_format(self) -> buffer::IndexFormat {
        match self {
            IndexType::U16(_) => buffer::IndexFormat::UnsignedShort,
            IndexType::U8(_) => buffer::IndexFormat::UnsignedByte,
        }
    }

    /// How many indices the buffer holds.
    pub fn len(&self) -> (r: usize)
        ensures
            r == self.spec_len(),
    {
        match self {
            IndexType::U16(a) => a.len(),
            IndexType::U8(a) => a.len(),
        }
    }

    /// The element-size flag the driver is given for this index width.
    pub fn format(&self) -> (r: buffer::IndexFormat)
        ensures
            r == self.spec_format(),
    {
        match self {
            IndexType::U16(_) => buffer::IndexFormat::UnsignedShort,
            IndexType::U8(_) => buffer::IndexFormat::UnsignedByte,
        }
    }
}

impl<'a> From<&'a [u8]> for IndexType<'a> {
    fn from(v: &'a [u8]) -> (r: IndexType<'a>) {
        IndexType::U8(v)
    }
}

impl<'a> vstd::std_specs::convert::FromSpecImpl<&'a [u8]> for IndexType<'a> {
    open spec fn obeys_from_spec() -> bool {
        true
    }

    open spec fn from_spec(v: &'a [u8]) -> IndexType<'a> {
        IndexType::U8(v)
    }
}

impl<'a> From<&'a [u16]> for IndexType<'a> {
    fn from(v: &'a [u16]) -> (r: IndexType<'a>) {
        IndexType::U16(v)
    }
}

impl<'a> vstd::std_specs::convert::FromSpecImpl<&'a [u16]> for IndexType<'a> {
    open spec fn obeys_from_spec() -> bool {
        true
    }

    open spec fn from_spec(v: &'a [u16]) -> IndexType<'a> {
        IndexType::U16(v)
    }
}

/// Index data admitted for indexed drawing.
///
/// The GPU reads index buffers by DMA, so they must reside in the linear
/// allocation pool; handing it any other pointer corrupts memory or crashes
/// the device rather than failing recoverably. A `LinearIndices` can only be
/// obtained through [`LinearIndices::new`], which performs that residency
/// check, so holding one is the capability to pass its address to the GPU.
pub struct LinearIndices<'a> {
    base: usize,
    data: IndexType<'a>,
}

impl<'a> LinearIndices<'a> {
    /// The address the index data resides at, inside the linear region.
    pub closed spec fn spec_base(self) -> usize {
        self.base
    }

    /// How many indices the buffer holds.
    pub closed spec fn spec_len(self) -> int {
        self.data.spec_len()
    }

    /// The element-size flag for this index width.
    pub closed spec fn spec_format(self) -> buffer::IndexFormat {
        self.data.spec_format()
    }

    /// Admit index data the caller placed at `base` for indexed drawing.
    ///
    /// This is the residency check: construction succeeds exactly when `base`
    /// lies in the linear region, so index data in ordinary memory is caught
    /// here, before any of it can reach the GPU.
    pub fn new(pool: &LinearPool, base: usize, data: IndexType<'a>) -> (r: Option<
        LinearIndices<'a>,
    >)
        requires
            pool.wf(),
        ensures
            r is Some <==> pool.spec_contains(base),
            r matches Some(ix) ==> {
                &&& ix.spec_base() == base
                &&& ix.spec_len() == data.spec_len()
                &&& ix.spec_format() == data.spec_format()
            },
    {
        if pool.contains(base) {
            Some(LinearIndices { base, data })
        } else {
            None
        }
    }

    /// The address the index data resides at.
    pub fn base(&self) -> (r: usize)
        ensures
            r == self.spec_base(),
    {
        self.base
    }

    /// How many indices the buffer holds.
    pub fn len(&self) -> (r: usize)
        ensures
            r == self.spec_len(),
    {
        self.data.len()
    }

    /// The element-size flag for this index width.
    pub fn format(&self) -> (r: buffer::IndexFormat)
        ensures
            r == self.spec_format(),
    {
        self.data.format()
    }
}

/// The stage object a `texenv` call finds or creates for `stage`, given the
/// cache contents: the held object if the stage was accessed before, else the
/// neutral configuration it is initialized to.
pub open spec fn texenv_result(cache: Seq<Option<TexEnv>>, stage: Stage) -> TexEnv {
    match cache[stage.spec_index() as int] {
        Some(e) => e,
        None => TexEnv::neutral(stage),
    }
}

/// The cache contents after a `texenv` call for `stage`, before any mutation
/// through the returned reference.
pub open spec fn texenv_cached(cache: Seq<Option<TexEnv>>, stage: Stage) -> Seq<Option<TexEnv>> {
    cache.update(stage.spec_index() as int, Some(texenv_result(cache, stage)))
}

/// The context for using the GPU: owner of the driver state and of the
/// lazily-created texture combiner stage cache.
///
/// Exactly one context is live at a time: constructing it initializes the
/// driver (which refuses a second initialization), and only [`Instance::fini`]
/// gives the driver back, finalized, for a later context. All per-frame work
/// goes through [`Instance::render_frame_with`], which brackets it in one
/// begin/end pair.
#[derive(Debug)]
#[must_use]
pub struct Instance {
    driver: Driver,
    texenvs: Vec<Option<TexEnv>>,
}

impl Instance {
    /// The driver state the context owns.
    pub closed spec fn spec_driver(self) -> Driver {
        self.driver
    }

    /// The texture combiner stage cache, one slot per stage.
    pub closed spec fn spec_texenvs(self) -> Seq<Option<TexEnv>> {
        self.texenvs@
    }

    /// The commands submitted so far, in submission order.
    pub open spec fn spec_log(self) -> Seq<Call> {
        self.spec_driver().spec_log()
    }

    /// How many frame brackets have been opened.
    pub open spec fn spec_begun(self) -> u64 {
        self.spec_driver().spec_begun()
    }

    /// How many frame brackets have been closed.
    pub open spec fn spec_ended(self) -> u64 {
        self.spec_driver().spec_ended()
    }

    /// The vertex buffer descriptor held in driver storage, if one was set.
    pub open spec fn spec_buf_info(self) -> Option<buffer::Info> {
        self.spec_driver().spec_buf_info()
    }

    /// The attribute descriptor held in driver storage, if one was set.
    pub open spec fn spec_attr_info(self) -> Option<attrib::Info> {
        self.spec_driver().spec_attr_info()
    }

    /// A context is well-formed when its driver is initialized and its frame
    /// brackets never overlap.
    pub open spec fn wf(self) -> bool {
        &&& self.spec_driver().spec_initialized()
        &&& self.spec_driver().wf()
        &&& self.spec_texenvs().len() == TEXENV_COUNT
    }

    /// Whether a frame bracket is open.
    pub open spec fn spec_in_frame(self) -> bool {
        self.spec_driver().spec_in_frame()
    }

    /// The state a freshly constructed context is in: driver initialized with
    /// a command buffer of `size` bytes, nothing bound, no stage configured,
    /// and the driver's history carried over.
    pub open spec fn spec_fresh_from(self, d: Driver, size: usize) -> bool {
        &&& self.wf()
        &&& self.spec_driver().spec_cmdbuf_size() == size
        &&& self.spec_driver().same_counters(d)
        &&& self.spec_driver().spec_log() == d.spec_log()
        &&& self.spec_driver().spec_target() is None
        &&& self.spec_driver().spec_buf_info() is None
        &&& self.spec_driver().spec_attr_info() is None
        &&& self.spec_driver().spec_program() is None
        &&& forall|i: int| 0 <= i < TEXENV_COUNT ==> self.spec_texenvs()[i] is None
    }

    /// Initialize the context with the default command buffer size.
    ///
    /// Fails, constructing nothing, exactly when the driver reports that it
    /// cannot initialize: it is already initialized, or lacks resources.
    pub fn new(gpu: Driver) -> (r: Result<Instance, Error>)
        requires
            gpu.wf(),
        ensures
            r is Ok <==> gpu.spec_init_succeeds(),
            r matches Ok(inst) ==> inst.spec_fresh_from(gpu, DEFAULT_CMDBUF_SIZE),
            r matches Err(e) ==> e == Error::FailedToInitialize,
    {
        Instance::with_cmdbuf_size(gpu, DEFAULT_CMDBUF_SIZE)
    }

    /// Initialize the context with a command buffer of `size` bytes.
    ///
    /// Fails, constructing nothing, exactly when the driver reports that it
    /// cannot initialize: it is already initialized, or lacks resources.
    pub fn with_cmdbuf_size(gpu: Driver, size: usize) -> (r: Result<Instance, Error>)
        requires
            gpu.wf(),
        ensures
            r is Ok <==> gpu.spec_init_succeeds(),
            r matches Ok(inst) ==> inst.spec_fresh_from(gpu, size),
            r matches Err(e) ==> e == Error::FailedToInitialize,
    {
        let mut d = gpu;
        if d.init(size) {
            let mut texenvs: Vec<Option<TexEnv>> = Vec::new();
            let mut i: usize = 0;
            while i < TEXENV_COUNT
                invariant
                    i <= TEXENV_COUNT,
                    texenvs@.len() == i,
                    forall|j: int| 0 <= j < i ==> texenvs@[j] is None,
                decreases TEXENV_COUNT - i,
            {
                texenvs.push(None);
                i = i + 1;
            }
            Ok(Instance { driver: d, texenvs })
        } else {
            Err(Error::FailedToInitialize)
        }
    }

    /// Tear the context down: the driver is finalized, exactly once, as the
    /// last call of this context's lifetime, and handed back ready for a
    /// later initialization.
    pub fn fini(self) -> (r: Driver)
        requires
            self.wf(),
            !self.spec_in_frame(),
        ensures
            !r.spec_initialized(),
            r.spec_init_succeeds() == !self.spec_driver().spec_faulty(),
            r.same_counters(self.spec_driver()),
            r.spec_log() == self.spec_log(),
            r.wf(),
    {
        let Instance { driver: mut d, texenvs: _ } = self;
        d.fini();
        d
    }

    /// The driver state the context owns, for inspection.
    pub fn driver(&self) -> (r: &Driver)
        ensures
            *r == self.spec_driver(),
    {
        &self.driver
    }

    /// The parts of the context every state-setting and draw call leaves
    /// alone: initialization state, bracket counters, and the stage cache.
    pub open spec fn steady(pre: Instance, post: Instance) -> bool {
        &&& post.wf()
        &&& post.spec_driver().same_init(pre.spec_driver())
        &&& post.spec_driver().same_counters(pre.spec_driver())
        &&& post.spec_texenvs() == pre.spec_texenvs()
    }

    /// The transition `select_render_target` performs on success: `target`'s
    /// surface becomes the drawing destination and the binding is submitted.
    pub open spec fn target_selected(pre: Instance, post: Instance, target: render::Target) -> bool {
        &&& Instance::steady(pre, post)
        &&& post.spec_driver().spec_target() == Some(target.spec_handle())
        &&& post.spec_buf_info() == pre.spec_buf_info()
        &&& post.spec_attr_info() == pre.spec_attr_info()
        &&& post.spec_driver().spec_program() == pre.spec_driver().spec_program()
        &&& post.spec_log() == pre.spec_log().push(
            Call::DrawOn { target: target.spec_handle() },
        )
    }

    /// Select the given render target for drawing the rest of the frame.
    ///
    /// Fails, changing nothing, exactly when the target cannot be drawn on:
    /// it has not been configured with an output sink.
    pub fn select_render_target(&mut self, target: &render::Target) -> (r: Result<(), Error>)
        requires
            old(self).wf(),
            old(self).spec_in_frame(),
        ensures
            final(self).wf(),
            final(self).spec_in_frame(),
            r is Ok <==> target.spec_has_output(),
            r is Ok ==> Instance::target_selected(*old(self), *final(self), *target),
            r matches Err(e) ==> e == Error::InvalidRenderTarget && *final(self) == *old(self),
    {
        if self.driver.frame_draw_on(target) {
            Ok(())
        } else {
            Err(Error::InvalidRenderTarget)
        }
    }

    /// The transition `set_buffer_info` performs: the descriptor is copied
    /// into driver storage and the copy is submitted.
    pub open spec fn buffer_info_set(pre: Instance, post: Instance, info: buffer::Info) -> bool {
        &&& Instance::steady(pre, post)
        &&& post.spec_driver().spec_target() == pre.spec_driver().spec_target()
        &&& post.spec_buf_info() == Some(info)
        &&& post.spec_attr_info() == pre.spec_attr_info()
        &&& post.spec_driver().spec_program() == pre.spec_driver().spec_program()
        &&& post.spec_log() == pre.spec_log().push(Call::SetBufInfo { info })
    }

    /// Copy the given vertex buffer descriptor into driver storage for the
    /// draw calls that follow. The caller's descriptor is not retained.
    pub fn set_buffer_info(&mut self, buffer_info: &buffer::Info)
        requires
            old(self).wf(),
        ensures
            Instance::buffer_info_set(*old(self), *final(self), *buffer_info),
            final(self).spec_in_frame() == old(self).spec_in_frame(),
    {
        self.driver.set_buf_info(buffer_info);
    }

    /// The vertex buffer descriptor being used, if one was set: a copy of the
    /// one in driver storage, equal by value to the last descriptor set.
    pub fn buffer_info(&self) -> (r: Option<buffer::Info>)
        ensures
            r == self.spec_buf_info(),
    {
        self.driver.get_buf_info()
    }

    /// The transition `set_attr_info` performs: the descriptor is copied into
    /// driver storage and the copy is submitted.
    pub open spec fn attr_info_set(pre: Instance, post: Instance, info: attrib::Info) -> bool {
        &&& Instance::steady(pre, post)
        &&& post.spec_driver().spec_target() == pre.spec_driver().spec_target()
        &&& post.spec_buf_info() == pre.spec_buf_info()
        &&& post.spec_attr_info() == Some(info)
        &&& post.spec_driver().spec_program() == pre.spec_driver().spec_program()
        &&& post.spec_log() == pre.spec_log().push(Call::SetAttrInfo { info })
    }

    /// Copy the given attribute descriptor into driver storage for the draw
    /// calls that follow. The caller's descriptor is not retained.
    pub fn set_attr_info(&mut self, attr_info: &attrib::Info)
        requires
            old(self).wf(),
        ensures
            Instance::attr_info_set(*old(self), *final(self), *attr_info),
            final(self).spec_in_frame() == old(self).spec_in_frame(),
    {
        self.driver.set_attr_info(attr_info);
    }

    /// The attribute descriptor being used, if one was set: a copy of the one
    /// in driver storage, equal by value to the last descriptor set.
    pub fn attr_info(&self) -> (r: Option<attrib::Info>)
        ensures
            r == self.spec_attr_info(),
    {
        self.driver.get_attr_info()
    }

    /// The transition `bind_program` performs: the program's handle is copied
    /// into driver state and the binding is submitted. The program's own
    /// resources are never touched.
    pub open spec fn program_bound(pre: Instance, post: Instance, program: shader::Program) -> bool {
        &&& Instance::steady(pre, post)
        &&& post.spec_driver().spec_target() == pre.spec_driver().spec_target()
        &&& post.spec_buf_info() == pre.spec_buf_info()
        &&& post.spec_attr_info() == pre.spec_attr_info()
        &&& post.spec_driver().spec_program() == Some(program)
        &&& post.spec_log() == pre.spec_log().push(Call::BindProgram { program })
    }

    /// Use the given shader program for subsequent draw calls.
    pub fn bind_program(&mut self, program: &shader::Program)
        requires
            old(self).wf(),
        ensures
            Instance::program_bound(*old(self), *final(self), *program),
            final(self).spec_in_frame() == old(self).spec_in_frame(),
    {
        self.driver.bind_program(program);
    }

    /// The transition a uniform bind performs: the value is dispatched, by
    /// its variant, to the matching upload, tagged with the shader stage, and
    /// nothing else changes.
    pub open spec fn uniform_bound(
        pre: Instance,
        post: Instance,
        stage: shader::Type,
        index: uniform::Index,
        value: uniform::Uniform,
    ) -> bool {
        &&& Instance::steady(pre, post)
        &&& post.spec_driver().same_bindings(pre.spec_driver())
        &&& post.spec_log() == pre.spec_log().push(driver::upload_call(stage, index, value))
    }

    /// Dispatch one uniform value to the matching upload for `stage`.
    fn bind_uniform(&mut self, stage: shader::Type, index: uniform::Index, value: uniform::Uniform)
        requires
            old(self).wf(),
        ensures
            Instance::uniform_bound(*old(self), *final(self), stage, index, value),
            final(self).spec_in_frame() == old(self).spec_in_frame(),
    {
        match value {
            uniform::Uniform::Matrix4x4(m) => self.driver.upload_matrix(stage, index, &m),
            uniform::Uniform::Vector(v) => self.driver.upload_vector(stage, index, &v),
            uniform::Uniform::Bool(b) => self.driver.upload_bool(stage, index, b),
            uniform::Uniform::Int(n) => self.driver.upload_int(stage, index, n),
        }
    }

    /// Bind a uniform to the given slot in the vertex shader for the next
    /// draw call. The value is consumed by copy; nothing is retained.
    pub fn bind_vertex_uniform(&mut self, index: uniform::Index, uniform: uniform::Uniform)
        requires
            old(self).wf(),
        ensures
            Instance::uniform_bound(
                *old(self),
                *final(self),
                shader::Type::Vertex,
                index,
                uniform,
            ),
            final(self).spec_in_frame() == old(self).spec_in_frame(),
    {
        self.bind_uniform(shader::Type::Vertex, index, uniform);
    }

    /// Bind a uniform to the given slot in the geometry shader for the next
    /// draw call. The value is consumed by copy; nothing is retained.
    pub fn bind_geometry_uniform(&mut self, index: uniform::Index, uniform: uniform::Uniform)
        requires
            old(self).wf(),
        ensures
            Instance::uniform_bound(
                *old(self),
                *final(self),
                shader::Type::Geometry,
                index,
                uniform,
            ),
            final(self).spec_in_frame() == old(self).spec_in_frame(),
    {
        self.bind_uniform(shader::Type::Geometry, index, uniform);
    }

    /// The transition `draw_arrays` performs: the range's buffer descriptor
    /// is copy-bound, then the non-indexed draw over the range is submitted.
    pub open spec fn arrays_drawn(pre: Instance, post: Instance, primitive: buffer::Primitive, vbo: buffer::Slice) -> bool {
        &&& Instance::steady(pre, post)
        &&& post.spec_driver().spec_target() == pre.spec_driver().spec_target()
        &&& post.spec_buf_info() == Some(vbo.spec_info())
        &&& post.spec_attr_info() == pre.spec_attr_info()
        &&& post.spec_driver().spec_program() == pre.spec_driver().spec_program()
        &&& post.spec_log() == pre.spec_log().push(
            Call::SetBufInfo { info: vbo.spec_info() },
        ).push(
            Call::DrawArrays {
                primitive,
                first: vbo.spec_index(),
                count: vbo.spec_len(),
            },
        )
    }

    /// Render primitives from the given range of its vertex buffer: the
    /// range's buffer descriptor is bound, then the draw is issued over it.
    /// Matching the attribute layout to the buffer layout is the caller's
    /// responsibility.
    pub fn draw_arrays(&mut self, primitive: buffer::Primitive, vbo_data: buffer::Slice)
        requires
            old(self).wf(),
            old(self).spec_in_frame(),
        ensures
            final(self).spec_in_frame(),
            Instance::arrays_drawn(*old(self), *final(self), primitive, vbo_data),
    {
        self.set_buffer_info(vbo_data.info());
        self.driver.draw_arrays(primitive, vbo_data.index(), vbo_data.len());
    }

    /// The transition `draw_elements` performs: the given buffer descriptor
    /// is copy-bound, then the indexed draw is submitted with the element
    /// count, the element-size flag matching the index width, and the index
    /// data's linear-region address.
    pub open spec fn elements_drawn(
        pre: Instance,
        post: Instance,
        primitive: buffer::Primitive,
        info: buffer::Info,
        indices: LinearIndices<'_>,
    ) -> bool {
        &&& Instance::steady(pre, post)
        &&& post.spec_driver().spec_target() == pre.spec_driver().spec_target()
        &&& post.spec_buf_info() == Some(info)
        &&& post.spec_attr_info() == pre.spec_attr_info()
        &&& post.spec_driver().spec_program() == pre.spec_driver().spec_program()
        &&& post.spec_log() == pre.spec_log().push(Call::SetBufInfo { info }).push(
            Call::DrawElements {
                primitive,
                count: indices.spec_len() as usize,
                format: indices.spec_format(),
                base: indices.spec_base(),
            },
        )
    }

    /// Indexed drawing: draw the vertices of `buf` selected by `indices`.
    ///
    /// The residency rule is enforced by the `indices` type: only index data
    /// that passed the linear-region membership check can be handed to this
    /// call. One obligation remains with the caller, documented here because
    /// no call-time check can see it: the index data must stay valid until
    /// the current frame's GPU work retires, not merely until this call
    /// returns, and `buf` must hold every vertex the indices reference.
    pub fn draw_elements(
        &mut self,
        primitive: buffer::Primitive,
        buf: &buffer::Info,
        indices: LinearIndices<'_>,
    )
        requires
            old(self).wf(),
            old(self).spec_in_frame(),
        ensures
            final(self).spec_in_frame(),
            Instance::elements_drawn(*old(self), *final(self), primitive, *buf, indices),
    {
        self.set_buffer_info(buf);
        let count: usize = indices.len();
        let format = indices.format();
        self.driver.draw_elements(primitive, count, format, indices.base());
    }

    /// Retrieve the stage object for `stage`, initializing it to the neutral
    /// configuration if this is the stage's first access. Later accesses
    /// return the held object unchanged: initialization never re-runs, and
    /// mutations through the returned reference persist in the cache.
    pub fn texenv(&mut self, stage: Stage) -> (env: &mut TexEnv)
        requires
            old(self).wf(),
        ensures
            *env == texenv_result(old(self).spec_texenvs(), stage),
            final(self).spec_driver() == old(self).spec_driver(),
            final(self).spec_texenvs() == old(self).spec_texenvs().update(
                stage.spec_index() as int,
                Some(*final(env)),
            ),
            final(self).wf(),
    {
        let i: usize = stage.index();
        let slot: &mut Option<TexEnv> = &mut self.texenvs[i];
        slot.get_or_insert(TexEnv::new(stage))
    }
}

/// The relation between the context before a frame and the context the frame
/// body receives: the bracket was opened with the fixed synchronization flag
/// and nothing else happened.
pub open spec fn frame_opened(pre: Instance, opened: Instance) -> bool {
    &&& opened.spec_driver().same_init(pre.spec_driver())
    &&& opened.spec_driver().same_bindings(pre.spec_driver())
    &&& opened.spec_begun() == pre.spec_begun() + 1
    &&& opened.spec_ended() == pre.spec_ended()
    &&& opened.spec_log() == pre.spec_log().push(Call::FrameBegin { sync: FRAME_SYNCDRAW })
    &&& opened.spec_texenvs() == pre.spec_texenvs()
}

/// What a frame body must leave behind: a well-formed context whose bracket
/// is still the one that was opened (no begin or end of its own, neither in
/// the counters nor in the submission log, which it may only extend) and
/// whose initialization state is untouched.
pub open spec fn frame_body_ok(opened: Instance, body_out: Instance) -> bool {
    &&& body_out.wf()
    &&& body_out.spec_driver().same_init(opened.spec_driver())
    &&& body_out.spec_begun() == opened.spec_begun()
    &&& body_out.spec_ended() == opened.spec_ended()
    &&& body_out.spec_log().len() >= opened.spec_log().len()
    &&& body_out.spec_log().subrange(0, opened.spec_log().len() as int) == opened.spec_log()
    &&& forall|k: int|
        opened.spec_log().len() <= k < body_out.spec_log().len() ==> {
            &&& !((#[trigger] body_out.spec_log()[k]) is FrameBegin)
            &&& !(body_out.spec_log()[k] is FrameEnd)
        }
}

/// The relation between the context the frame body returned and the context
/// the caller gets back: the bracket was closed and nothing else happened.
pub open spec fn frame_closed(body_out: Instance, post: Instance) -> bool {
    &&& post.spec_driver().same_init(body_out.spec_driver())
    &&& post.spec_driver().same_bindings(body_out.spec_driver())
    &&& post.spec_begun() == body_out.spec_begun()
    &&& post.spec_ended() == body_out.spec_ended() + 1
    &&& post.spec_log() == body_out.spec_log().push(Call::FrameEnd { flags: 0 })
    &&& post.spec_texenvs() == body_out.spec_texenvs()
}

impl Instance {
    /// Render a frame: open the frame bracket with the fixed synchronization
    /// flag, run `body` with exclusive access to the context, then close the
    /// bracket. This is the only way to bracket a frame, and the close is
    /// unconditional once the open has happened, so every invocation submits
    /// exactly one begin/end pair — whether the body issues zero, one, or
    /// many draw calls. The body receives the context inside the open
    /// bracket, so it cannot finalize it or open a second, overlapping
    /// bracket; it must hand back a well-formed context without brackets of
    /// its own, and may otherwise select targets, bind state, and draw
    /// freely.
    pub fn render_frame_with<F>(self, body: F) -> (r: Instance) where
        F: FnOnce(Instance) -> Instance,

        requires
            self.wf(),
            !self.spec_in_frame(),
            self.spec_begun() < u64::MAX,
            forall|opened: Instance| frame_opened(self, opened) ==> call_requires(body, (opened,)),
            forall|opened: Instance, out: Instance|
                frame_opened(self, opened) && #[trigger] call_ensures(body, (opened,), out)
                    ==> frame_body_ok(opened, out),
        ensures
            r.wf(),
            !r.spec_in_frame(),
            r.spec_driver().same_init(self.spec_driver()),
            r.spec_begun() == self.spec_begun() + 1,
            r.spec_ended() == self.spec_ended() + 1,
            r.spec_log().len() >= self.spec_log().len() + 2,
            r.spec_log().subrange(0, self.spec_log().len() as int) == self.spec_log(),
            r.spec_log()[self.spec_log().len() as int] == (Call::FrameBegin {
                sync: FRAME_SYNCDRAW,
            }),
            r.spec_log().last() == (Call::FrameEnd { flags: 0 }),
            (forall|k: int|
                self.spec_log().len() + 1 <= k < r.spec_log().len() - 1 ==> {
                    &&& !((#[trigger] r.spec_log()[k]) is FrameBegin)
                    &&& !(r.spec_log()[k] is FrameEnd)
                }),
            (exists|opened: Instance, out: Instance| {
                &&& frame_opened(self, opened)
                &&& #[trigger] call_ensures(body, (opened,), out)
                &&& frame_closed(out, r)
            }),
    {
        let ghost pre: Instance = self;
        let mut opened = self;
        opened.driver.frame_begin(FRAME_SYNCDRAW);
        proof {
            assert(frame_opened(pre, opened));
        }
        let ghost opened_snap: Instance = opened;
        let mut out = body(opened);
        let ghost out_snap: Instance = out;
        proof {
            assert(frame_body_ok(opened_snap, out_snap));
        }
        out.driver.frame_end(0);
        proof {
            assert(frame_closed(out_snap, out));
            let n: int = pre.spec_log().len() as int;
            assert forall|i: int| 0 <= i < n implies out.spec_log()[i] == pre.spec_log()[i] by {
                assert(out_snap.spec_log()[i] == out_snap.spec_log().subrange(
                    0,
                    opened_snap.spec_log().len() as int,
                )[i]);
            }
            assert(out.spec_log().subrange(0, n) =~= pre.spec_log());
            assert(out.spec_log()[n] == out_snap.spec_log().subrange(
                0,
                opened_snap.spec_log().len() as int,
            )[n]);
            assert forall|k: int|
                n + 1 <= k < out.spec_log().len() - 1 implies !((#[trigger] out.spec_log()[
            k]) is FrameBegin) && !(out.spec_log()[k] is FrameEnd) by {
                assert(out.spec_log()[k] == out_snap.spec_log()[k]);
            }
        }
        out
    }
}

/// Law: the texture combiner stage cache is identity-stable. After a `texenv`
/// call for a stage, the cache holds exactly the object that call returned;
/// a further call for the same stage returns that identical object and leaves
/// the cache unchanged — initialization never runs twice for one stage within
/// a context lifetime.
pub proof fn lemma_texenv_identity_stable(cache: Seq<Option<TexEnv>>, stage: Stage)
    requires
        stage.spec_index() < cache.len(),
    ensures
        texenv_cached(cache, stage)[stage.spec_index() as int] == Some(texenv_result(cache, stage)),
        texenv_result(texenv_cached(cache, stage), stage) == texenv_result(cache, stage),
        texenv_cached(texenv_cached(cache, stage), stage) == texenv_cached(cache, stage),
{
    assert(texenv_cached(texenv_cached(cache, stage), stage) =~= texenv_cached(cache, stage));
}

/// Law: setting the vertex buffer descriptor and reading it straight back
/// returns a descriptor equal by value to the one set: `buffer_info` reports
/// exactly what `set_buffer_info` stored.
pub proof fn lemma_buffer_info_round_trip(pre: Instance, post: Instance, info: buffer::Info)
    requires
        Instance::buffer_info_set(pre, post, info),
    ensures
        post.spec_buf_info() == Some(info),
{
}

} // verus!

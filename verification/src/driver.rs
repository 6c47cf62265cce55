//! The GPU driver, modeled as explicit state.
//!
//! The real driver is a process-global, synchronous service: one
//! initialization per lifetime, balanced frame brackets, state-setting calls
//! consumed in submission order, and no safety checks of its own. This module
//! represents that service as a value, [`Driver`]: each operation the context
//! issues is a verified transition on it, and every command that would reach
//! the GPU is recorded, in submission order, in the driver's call log. A
//! device port performs the corresponding hardware call wherever a transition
//! appends to the log.
//!
//! Initialization failure is modeled by constructing the driver with
//! [`Driver::power_on_faulty`], which makes [`Driver::init`] report failure
//! the way a resource-exhausted driver would.

use vstd::prelude::*;

use crate::attrib;
use crate::buffer;
use crate::render::Target;
use crate::shader;
use crate::uniform;

verus! {

/// The synchronization flag the context opens every frame bracket with: wait
/// for the previous frame's transfer before drawing.
pub const FRAME_SYNCDRAW: u32 = 2;

/// One command submitted to the GPU, in submission order.
#[allow(inconsistent_fields)]
#[derive(Clone, Copy, Debug, PartialEq, Eq)]
pub enum Call {
    /// A frame bracket was opened with the given synchronization flag.
    FrameBegin { sync: u32 },
    /// A frame bracket was closed with the given flags.
    FrameEnd { flags: u32 },
    /// The target surface with this handle became the drawing destination.
    DrawOn { target: usize },
    /// The vertex buffer descriptor was copied into driver storage.
    SetBufInfo { info: buffer::Info },
    /// The attribute descriptor was copied into driver storage.
    SetAttrInfo { info: attrib::Info },
    /// The program with this handle became the current shader program.
    BindProgram { program: shader::Program },
    /// A 4x4 matrix was uploaded to a uniform slot of a shader stage.
    UploadMatrix { stage: shader::Type, index: uniform::Index, matrix: uniform::Matrix },
    /// A vector was uploaded to a uniform slot of a shader stage.
    UploadVector { stage: shader::Type, index: uniform::Index, vector: uniform::Vector },
    /// A boolean register was uploaded to a uniform slot of a shader stage.
    UploadBool { stage: shader::Type, index: uniform::Index, value: bool },
    /// An integer register was uploaded to a uniform slot of a shader stage.
    UploadInt { stage: shader::Type, index: uniform::Index, value: u32 },
    /// A non-indexed draw over `count` vertices starting at `first`.
    DrawArrays { primitive: buffer::Primitive, first: usize, count: usize },
    /// An indexed draw over `count` indices of the given width, read from
    /// linear memory at `base`.
    DrawElements {
        primitive: buffer::Primitive,
        count: usize,
        format: buffer::IndexFormat,
        base: usize,
    },
}

/// The upload command a uniform bind dispatches to, selected by the value's
/// variant and tagged with the destination shader stage.
pub open spec fn upload_call(
    stage: shader::Type,
    index: uniform::Index,
    value: uniform::Uniform,
) -> Call {
    match value {
        uniform::Uniform::Matrix4x4(m) => Call::UploadMatrix { stage, index, matrix: m },
        uniform::Uniform::Vector(v) => Call::UploadVector { stage, index, vector: v },
        uniform::Uniform::Bool(b) => Call::UploadBool { stage, index, value: b },
        uniform::Uniform::Int(n) => Call::UploadInt { stage, index, value: n },
    }
}

/// The driver's global state.
#[derive(Debug)]
pub struct Driver {
    initialized: bool,
    init_fault: bool,
    cmdbuf_size: usize,
    frames_begun: u64,
    frames_ended: u64,
    target: Option<usize>,
    buf_info: Option<buffer::Info>,
    attr_info: Option<attrib::Info>,
    program: Option<shader::Program>,
    calls: Vec<Call>,
}

impl Driver {
    /// Whether the driver is initialized.
    pub closed spec fn spec_initialized(self) -> bool {
        self.initialized
    }

    /// Whether the next initialization attempt will succeed.
    pub closed spec fn spec_init_succeeds(self) -> bool {
        !self.initialized && !self.init_fault
    }

    /// Whether the driver reports resource exhaustion at initialization.
    pub closed spec fn spec_faulty(self) -> bool {
        self.init_fault
    }

    /// The command buffer size granted at initialization.
    pub closed spec fn spec_cmdbuf_size(self) -> usize {
        self.cmdbuf_size
    }

    /// How many frame brackets have been opened.
    pub closed spec fn spec_begun(self) -> u64 {
        self.frames_begun
    }

    /// How many frame brackets have been closed.
    pub closed spec fn spec_ended(self) -> u64 {
        self.frames_ended
    }

    /// The handle of the surface draws currently go to, if one is bound.
    pub closed spec fn spec_target(self) -> Option<usize> {
        self.target
    }

    /// The vertex buffer descriptor held in driver storage, if one was set.
    pub closed spec fn spec_buf_info(self) -> Option<buffer::Info> {
        self.buf_info
    }

    /// The attribute descriptor held in driver storage, if one was set.
    pub closed spec fn spec_attr_info(self) -> Option<attrib::Info> {
        self.attr_info
    }

    /// The currently bound shader program, if one was bound.
    pub closed spec fn spec_program(self) -> Option<shader::Program> {
        self.program
    }

    /// The commands submitted so far, in submission order.
    pub closed spec fn spec_log(self) -> Seq<Call> {
        self.calls@
    }

    /// Frame brackets never overlap: at most one is open.
    pub open spec fn wf(self) -> bool {
        self.spec_ended() <= self.spec_begun() <= self.spec_ended() + 1
    }

    /// Whether a frame bracket is open.
    pub open spec fn spec_in_frame(self) -> bool {
        self.spec_begun() == self.spec_ended() + 1
    }

    /// Both drivers are in the same initialization state.
    pub open spec fn same_init(self, o: Driver) -> bool {
        &&& self.spec_initialized() == o.spec_initialized()
        &&& self.spec_init_succeeds() == o.spec_init_succeeds()
        &&& self.spec_cmdbuf_size() == o.spec_cmdbuf_size()
    }

    /// Both drivers have opened and closed the same number of brackets.
    pub open spec fn same_counters(self, o: Driver) -> bool {
        &&& self.spec_begun() == o.spec_begun()
        &&& self.spec_ended() == o.spec_ended()
    }

    /// Both drivers hold the same bound state: target, descriptors, program.
    pub open spec fn same_bindings(self, o: Driver) -> bool {
        &&& self.spec_target() == o.spec_target()
        &&& self.spec_buf_info() == o.spec_buf_info()
        &&& self.spec_attr_info() == o.spec_attr_info()
        &&& self.spec_program() == o.spec_program()
    }

    /// The driver as it comes up: uninitialized, nothing bound, nothing
    /// submitted.
    pub fn power_on() -> (r: Driver)
        ensures
            !r.spec_initialized(),
            r.spec_init_succeeds(),
            r.spec_begun() == 0,
            r.spec_ended() == 0,
            r.spec_target() is None,
            r.spec_buf_info() is None,
            r.spec_attr_info() is None,
            r.spec_program() is None,
            r.spec_log() == Seq::<Call>::empty(),
            r.wf(),
    {
        Driver {
            initialized: false,
            init_fault: false,
            cmdbuf_size: 0,
            frames_begun: 0,
            frames_ended: 0,
            target: None,
            buf_info: None,
            attr_info: None,
            program: None,
            calls: Vec::new(),
        }
    }

    /// A driver that will report failure at initialization, the way one
    /// without resources for the command buffer would. Used to exercise the
    /// context's failure path.
    pub fn power_on_faulty() -> (r: Driver)
        ensures
            !r.spec_initialized(),
            !r.spec_init_succeeds(),
            r.spec_begun() == 0,
            r.spec_ended() == 0,
            r.spec_log() == Seq::<Call>::empty(),
            r.wf(),
    {
        Driver { init_fault: true, ..Driver::power_on() }
    }

    /// Initialize the driver with a command buffer of `size` bytes. Reports
    /// failure, changing nothing, when the driver is already initialized or
    /// lacks resources; on success all bound state starts out clear.
    pub fn init(&mut self, size: usize) -> (r: bool)
        ensures
            r <==> old(self).spec_init_succeeds(),
            r ==> {
                &&& final(self).spec_initialized()
                &&& final(self).spec_cmdbuf_size() == size
                &&& final(self).spec_target() is None
                &&& final(self).spec_buf_info() is None
                &&& final(self).spec_attr_info() is None
                &&& final(self).spec_program() is None
                &&& final(self).same_counters(*old(self))
                &&& final(self).spec_log() == old(self).spec_log()
            },
            !r ==> *final(self) == *old(self),
            old(self).wf() ==> final(self).wf(),
    {
        if !self.initialized && !self.init_fault {
            self.initialized = true;
            self.cmdbuf_size = size;
            self.target = None;
            self.buf_info = None;
            self.attr_info = None;
            self.program = None;
            true
        } else {
            false
        }
    }

    /// Tear the driver down. This must be the last call of a context
    /// lifetime; afterwards the driver can be initialized again.
    pub fn fini(&mut self)
        requires
            old(self).spec_initialized(),
        ensures
            !final(self).spec_initialized(),
            final(self).spec_faulty() == old(self).spec_faulty(),
            final(self).spec_init_succeeds() == !old(self).spec_faulty(),
            final(self).same_counters(*old(self)),
            final(self).spec_log() == old(self).spec_log(),
            old(self).wf() ==> final(self).wf(),
    {
        self.initialized = false;
    }

    /// Open a frame bracket with the given synchronization flag.
    pub fn frame_begin(&mut self, sync: u32)
        requires
            old(self).spec_initialized(),
            !old(self).spec_in_frame(),
            old(self).spec_begun() < u64::MAX,
        ensures
            final(self).same_init(*old(self)),
            final(self).same_bindings(*old(self)),
            final(self).spec_begun() == old(self).spec_begun() + 1,
            final(self).spec_ended() == old(self).spec_ended(),
            final(self).spec_log() == old(self).spec_log().push(Call::FrameBegin { sync }),
            old(self).wf() ==> final(self).wf() && final(self).spec_in_frame(),
    {
        self.frames_begun = self.frames_begun + 1;
        self.calls.push(Call::FrameBegin { sync });
    }

    /// Close the open frame bracket with the given flags.
    pub fn frame_end(&mut self, flags: u32)
        requires
            old(self).spec_initialized(),
            old(self).spec_in_frame(),
        ensures
            final(self).same_init(*old(self)),
            final(self).same_bindings(*old(self)),
            final(self).spec_begun() == old(self).spec_begun(),
            final(self).spec_ended() == old(self).spec_ended() + 1,
            final(self).spec_log() == old(self).spec_log().push(Call::FrameEnd { flags }),
            final(self).wf(),
            !final(self).spec_in_frame(),
    {
        self.frames_ended = self.frames_ended + 1;
        self.calls.push(Call::FrameEnd { flags });
    }

    /// Bind `target` as the drawing destination for the open frame. Reports
    /// failure, changing nothing, when the target has no output sink.
    pub fn frame_draw_on(&mut self, target: &Target) -> (r: bool)
        requires
            old(self).spec_initialized(),
            old(self).spec_in_frame(),
        ensures
            r <==> target.spec_has_output(),
            r ==> {
                &&& final(self).same_init(*old(self))
                &&& final(self).same_counters(*old(self))
                &&& final(self).spec_target() == Some(target.spec_handle())
                &&& final(self).spec_buf_info() == old(self).spec_buf_info()
                &&& final(self).spec_attr_info() == old(self).spec_attr_info()
                &&& final(self).spec_program() == old(self).spec_program()
                &&& final(self).spec_log() == old(self).spec_log().push(
                    Call::DrawOn { target: target.spec_handle() },
                )
            },
            !r ==> *final(self) == *old(self),
            old(self).wf() ==> final(self).wf(),
    {
        if target.has_output() {
            self.target = Some(target.handle());
            self.calls.push(Call::DrawOn { target: target.handle() });
            true
        } else {
            false
        }
    }

    /// Copy a vertex buffer descriptor into driver storage.
    pub fn set_buf_info(&mut self, info: &buffer::Info)
        requires
            old(self).spec_initialized(),
        ensures
            final(self).same_init(*old(self)),
            final(self).same_counters(*old(self)),
            final(self).spec_target() == old(self).spec_target(),
            final(self).spec_buf_info() == Some(*info),
            final(self).spec_attr_info() == old(self).spec_attr_info(),
            final(self).spec_program() == old(self).spec_program(),
            final(self).spec_log() == old(self).spec_log().push(Call::SetBufInfo { info: *info }),
            old(self).wf() ==> final(self).wf(),
    {
        self.buf_info = Some(*info);
        self.calls.push(Call::SetBufInfo { info: *info });
    }

    /// Copy the vertex buffer descriptor out of driver storage.
    pub fn get_buf_info(&self) -> (r: Option<buffer::Info>)
        ensures
            r == self.spec_buf_info(),
    {
        self.buf_info
    }

    /// Copy an attribute descriptor into driver storage.
    pub fn set_attr_info(&mut self, info: &attrib::Info)
        requires
            old(self).spec_initialized(),
        ensures
            final(self).same_init(*old(self)),
            final(self).same_counters(*old(self)),
            final(self).spec_target() == old(self).spec_target(),
            final(self).spec_buf_info() == old(self).spec_buf_info(),
            final(self).spec_attr_info() == Some(*info),
            final(self).spec_program() == old(self).spec_program(),
            final(self).spec_log() == old(self).spec_log().push(
                Call::SetAttrInfo { info: *info },
            ),
            old(self).wf() ==> final(self).wf(),
    {
        self.attr_info = Some(*info);
        self.calls.push(Call::SetAttrInfo { info: *info });
    }

    /// Copy the attribute descriptor out of driver storage.
    pub fn get_attr_info(&self) -> (r: Option<attrib::Info>)
        ensures
            r == self.spec_attr_info(),
    {
        self.attr_info
    }

    /// Make `program` the current shader program; only its handle is copied.
    pub fn bind_program(&mut self, program: &shader::Program)
        requires
            old(self).spec_initialized(),
        ensures
            final(self).same_init(*old(self)),
            final(self).same_counters(*old(self)),
            final(self).spec_target() == old(self).spec_target(),
            final(self).spec_buf_info() == old(self).spec_buf_info(),
            final(self).spec_attr_info() == old(self).spec_attr_info(),
            final(self).spec_program() == Some(*program),
            final(self).spec_log() == old(self).spec_log().push(
                Call::BindProgram { program: *program },
            ),
            old(self).wf() ==> final(self).wf(),
    {
        self.program = Some(*program);
        self.calls.push(Call::BindProgram { program: *program });
    }

    /// Upload a 4x4 matrix to a uniform slot of a shader stage.
    pub fn upload_matrix(&mut self, stage: shader::Type, index: uniform::Index, matrix: &uniform::Matrix)
        requires
            old(self).spec_initialized(),
        ensures
            final(self).same_init(*old(self)),
            final(self).same_counters(*old(self)),
            final(self).same_bindings(*old(self)),
            final(self).spec_log() == old(self).spec_log().push(
                Call::UploadMatrix { stage, index, matrix: *matrix },
            ),
            old(self).wf() ==> final(self).wf(),
    {
        self.calls.push(Call::UploadMatrix { stage, index, matrix: *matrix });
    }

    /// Upload a vector to a uniform slot of a shader stage.
    pub fn upload_vector(&mut self, stage: shader::Type, index: uniform::Index, vector: &uniform::Vector)
        requires
            old(self).spec_initialized(),
        ensures
            final(self).same_init(*old(self)),
            final(self).same_counters(*old(self)),
            final(self).same_bindings(*old(self)),
            final(self).spec_log() == old(self).spec_log().push(
                Call::UploadVector { stage, index, vector: *vector },
            ),
            old(self).wf() ==> final(self).wf(),
    {
        self.calls.push(Call::UploadVector { stage, index, vector: *vector });
    }

    /// Upload a boolean register to a uniform slot of a shader stage.
    pub fn upload_bool(&mut self, stage: shader::Type, index: uniform::Index, value: bool)
        requires
            old(self).spec_initialized(),
        ensures
            final(self).same_init(*old(self)),
            final(self).same_counters(*old(self)),
            final(self).same_bindings(*old(self)),
            final(self).spec_log() == old(self).spec_log().push(
                Call::UploadBool { stage, index, value },
            ),
            old(self).wf() ==> final(self).wf(),
    {
        self.calls.push(Call::UploadBool { stage, index, value });
    }

    /// Upload an integer register to a uniform slot of a shader stage.
    pub fn upload_int(&mut self, stage: shader::Type, index: uniform::Index, value: u32)
        requires
            old(self).spec_initialized(),
        ensures
            final(self).same_init(*old(self)),
            final(self).same_counters(*old(self)),
            final(self).same_bindings(*old(self)),
            final(self).spec_log() == old(self).spec_log().push(
                Call::UploadInt { stage, index, value },
            ),
            old(self).wf() ==> final(self).wf(),
    {
        self.calls.push(Call::UploadInt { stage, index, value });
    }

    /// Submit a non-indexed draw over the current buffer and attribute state.
    pub fn draw_arrays(&mut self, primitive: buffer::Primitive, first: usize, count: usize)
        requires
            old(self).spec_initialized(),
            old(self).spec_in_frame(),
        ensures
            final(self).same_init(*old(self)),
            final(self).same_counters(*old(self)),
            final(self).same_bindings(*old(self)),
            final(self).spec_log() == old(self).spec_log().push(
                Call::DrawArrays { primitive, first, count },
            ),
            old(self).wf() ==> final(self).wf(),
    {
        self.calls.push(Call::DrawArrays { primitive, first, count });
    }

    /// Submit an indexed draw: `count` indices of the given width, read by
    /// the GPU from linear memory at `base`.
    pub fn draw_elements(
        &mut self,
        primitive: buffer::Primitive,
        count: usize,
        format: buffer::IndexFormat,
        base: usize,
    )
        requires
            old(self).spec_initialized(),
            old(self).spec_in_frame(),
        ensures
            final(self).same_init(*old(self)),
            final(self).same_counters(*old(self)),
            final(self).same_bindings(*old(self)),
            final(self).spec_log() == old(self).spec_log().push(
                Call::DrawElements { primitive, count, format, base },
            ),
            old(self).wf() ==> final(self).wf(),
    {
        self.calls.push(Call::DrawElements { primitive, count, format, base });
    }

    /// Whether the driver is initialized.
    pub fn is_initialized(&self) -> (r: bool)
        ensures
            r == self.spec_initialized(),
    {
        self.initialized
    }

    /// How many frame brackets have been opened.
    pub fn frames_begun(&self) -> (r: u64)
        ensures
            r == self.spec_begun(),
    {
        self.frames_begun
    }

    /// How many frame brackets have been closed.
    pub fn frames_ended(&self) -> (r: u64)
        ensures
            r == self.spec_ended(),
    {
        self.frames_ended
    }

    /// The handle of the surface draws currently go to, if one is bound.
    pub fn current_target(&self) -> (r: Option<usize>)
        ensures
            r == self.spec_target(),
    {
        self.target
    }

    /// The currently bound shader program, if one was bound.
    pub fn current_program(&self) -> (r: Option<shader::Program>)
        ensures
            r == self.spec_program(),
    {
        self.program
    }

    /// The commands submitted so far, in submission order.
    pub fn calls(&self) -> (r: &Vec<Call>)
        ensures
            r@ == self.spec_log(),
    {
        &self.calls
    }
}

} // verus!

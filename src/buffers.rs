use vstd::prelude::*;

use crate::driver::{BufferTarget, GlCommand};

verus! {

/// The kinds of buffer whose bindings a [`BufferManager`] counts.
#[derive(Clone, Copy, Debug, PartialEq, Eq, Structural)]
pub enum BufferType {
    VertexBuffer,
    IndexBuffer,
}

/// Counts the buffers of each kind that are currently bound.
///
/// The two counters are independent: a change for one kind never touches
/// the other.
pub struct BufferManager {
    /// Count of currently bound vertex buffers.
    vertex_buffer: u32,
    /// Count of currently bound index buffers.
    index_buffer: u32,
}

/// One call on a [`BufferManager`]: `true` for `increase`, `false` for `decrease`.
pub type CounterCall = (BufferType, bool);

/// How one call changes the counter of `kind`.
pub open spec fn step_of(call: CounterCall, kind: BufferType) -> int {
    if call.0 != kind {
        0
    } else if call.1 {
        1
    } else {
        -1
    }
}

/// Net effect of `calls` on the counter of `kind`: one up for each
/// `increase(kind)`, one down for each `decrease(kind)`, nothing for the
/// calls naming the other kind.
pub open spec fn net_change(calls: Seq<CounterCall>, kind: BufferType) -> int
    decreases calls.len(),
{
    if calls.len() == 0 {
        0
    } else {
        net_change(calls.drop_last(), kind) + step_of(calls.last(), kind)
    }
}

/// `after` is `before` changed by `call`: the counter of the kind it names
/// moves by one, the other stays.
pub open spec fn follows(before: BufferManager, after: BufferManager, call: CounterCall) -> bool {
    forall|kind: BufferType| #[trigger]
        after.counted(kind) == before.counted(kind) + step_of(call, kind)
}

/// `managers` are the states of one manager through `calls`: each follows
/// the one before it by the call between them.
pub open spec fn is_run(managers: Seq<BufferManager>, calls: Seq<CounterCall>) -> bool {
    &&& managers.len() == calls.len() + 1
    &&& forall|i: int| 0 <= i < calls.len() ==> follows(managers[i], managers[i + 1], #[trigger] calls[i])
}

/// Each counter changes only through the calls that name its kind: at the
/// end of any run of calls, the count of every kind is its start value plus
/// the net change of the calls naming that kind.
pub proof fn lemma_counters_independent(
    managers: Seq<BufferManager>,
    calls: Seq<CounterCall>,
    kind: BufferType,
)
    requires
        is_run(managers, calls),
    ensures
        managers.last().counted(kind) == managers[0].counted(kind) + net_change(calls, kind),
    decreases calls.len(),
{
    if calls.len() > 0 {
        let n = calls.len() - 1;
        let shorter = managers.drop_last();
        assert(is_run(shorter, calls.drop_last())) by {
            assert forall|i: int| 0 <= i < calls.drop_last().len() implies follows(
                shorter[i],
                shorter[i + 1],
                #[trigger] calls.drop_last()[i],
            ) by {
                assert(calls.drop_last()[i] == calls[i]);
                assert(follows(managers[i], managers[i + 1], calls[i]));
            }
        }
        lemma_counters_independent(shorter, calls.drop_last(), kind);
        assert(follows(managers[n], managers[n + 1], calls[n]));
        assert(managers[n] == shorter.last());
    }
}

impl BufferManager {
    /// The number of bound buffers of `kind`.
    pub closed spec fn counted(self, kind: BufferType) -> nat {
        match kind {
            BufferType::VertexBuffer => self.vertex_buffer as nat,
            BufferType::IndexBuffer => self.index_buffer as nat,
        }
    }

    /// Creates a manager with no bound buffers.
    pub fn new() -> (r: Self)
        ensures
            r.counted(BufferType::VertexBuffer) == 0,
            r.counted(BufferType::IndexBuffer) == 0,
    {
        BufferManager { vertex_buffer: 0, index_buffer: 0 }
    }

    /// The number of bound buffers of `kind`.
    pub fn count(&self, kind: BufferType) -> (r: u32)
        ensures
            r == self.counted(kind),
    {
        match kind {
            BufferType::VertexBuffer => self.vertex_buffer,
            BufferType::IndexBuffer => self.index_buffer,
        }
    }

    /// Records that a buffer of `kind` was bound, and returns the new count
    /// of bound buffers of that kind.
    pub fn increase(&mut self, kind: BufferType) -> (r: u32)
        requires
            old(self).counted(kind) < u32::MAX,
        ensures
            follows(*old(self), *final(self), (kind, true)),
            r == final(self).counted(kind),
            r == old(self).counted(kind) + 1,
    {
        match kind {
            BufferType::VertexBuffer => {
                self.vertex_buffer = self.vertex_buffer + 1;
                self.vertex_buffer
            },
            BufferType::IndexBuffer => {
                self.index_buffer = self.index_buffer + 1;
                self.index_buffer
            },
        }
    }

    /// Records that a buffer of `kind` was unbound, and returns the new count
    /// of bound buffers of that kind.
    pub fn decrease(&mut self, kind: BufferType) -> (r: u32)
        requires
            old(self).counted(kind) > 0,
        ensures
            follows(*old(self), *final(self), (kind, false)),
            r == final(self).counted(kind),
            r == old(self).counted(kind) - 1,
    {
        match kind {
            BufferType::VertexBuffer => {
                self.vertex_buffer = self.vertex_buffer - 1;
                self.vertex_buffer
            },
            BufferType::IndexBuffer => {
                self.index_buffer = self.index_buffer - 1;
                self.index_buffer
            },
        }
    }
}

/// Size in bytes of one vertex component, a 32-bit float.
pub const COMPONENT_SIZE: usize = 4;

/// Size in bytes of one index, a `u32`.
pub const INDEX_SIZE: usize = 4;

/// The commands that create a vertex buffer `handle` holding
/// `positions_len` components, `floats_per_vertex` per vertex: bind it,
/// upload the data, lay it out as attribute 0 and enable that attribute.
pub open spec fn vertex_upload(handle: u32, positions_len: usize, floats_per_vertex: usize) -> Seq<
    GlCommand,
> {
    seq![
        GlCommand::BindBuffer { target: BufferTarget::Array, buffer: handle },
        GlCommand::BufferData {
            target: BufferTarget::Array,
            size: (positions_len * COMPONENT_SIZE) as isize,
        },
        GlCommand::VertexAttribPointer {
            index: 0,
            components: floats_per_vertex as i32,
            stride: (floats_per_vertex * COMPONENT_SIZE) as i32,
        },
        GlCommand::EnableVertexAttribArray { index: 0 },
    ]
}

/// The commands that create an index buffer `name` from the first `size`
/// indices: bind it and upload them.
pub open spec fn index_upload(name: u32, size: usize) -> Seq<GlCommand> {
    seq![
        GlCommand::BindBuffer { target: BufferTarget::ElementArray, buffer: name },
        GlCommand::BufferData {
            target: BufferTarget::ElementArray,
            size: (size * INDEX_SIZE) as isize,
        },
    ]
}

/// A vertex buffer.
#[derive(Debug, PartialEq, Eq, Structural)]
pub struct VertexBuffer {
    /// The driver's name of the buffer.
    pub handle: u32,
    /// Whether the buffer is bound.
    pub is_bound: bool,
    /// The number of vertices it holds.
    pub vertex_count: usize,
}

impl VertexBuffer {
    /// The buffer that `new` creates.
    pub open spec fn created(handle: u32, positions_len: usize, floats_per_vertex: usize) -> VertexBuffer {
        VertexBuffer { handle, is_bound: true, vertex_count: positions_len / floats_per_vertex }
    }

    /// The commands that `bind` to `target` asks for: none when the buffer
    /// is already bound.
    pub open spec fn bind_calls(self, target: BufferTarget) -> Seq<GlCommand> {
        if self.is_bound {
            Seq::empty()
        } else {
            seq![GlCommand::BindBuffer { target, buffer: self.handle }]
        }
    }

    /// Creates the vertex buffer that the driver named `handle`, holding
    /// `positions_len` float components, `floats_per_vertex` of them per
    /// vertex, and binds it. The commands upload the caller's positions.
    pub fn new(handle: u32, positions_len: usize, floats_per_vertex: usize, bm: &mut BufferManager) -> (r: (
        VertexBuffer,
        Vec<GlCommand>,
    ))
        requires
            1 <= floats_per_vertex <= 4,
            positions_len * COMPONENT_SIZE <= isize::MAX,
            old(bm).counted(BufferType::VertexBuffer) < u32::MAX,
        ensures
            r.0 == VertexBuffer::created(handle, positions_len, floats_per_vertex),
            r.1@ == vertex_upload(handle, positions_len, floats_per_vertex),
            follows(*old(bm), *final(bm), (BufferType::VertexBuffer, true)),
    {
        bm.increase(BufferType::VertexBuffer);
        let mut commands: Vec<GlCommand> = Vec::new();
        commands.push(GlCommand::BindBuffer { target: BufferTarget::Array, buffer: handle });
        commands.push(
            GlCommand::BufferData {
                target: BufferTarget::Array,
                size: (positions_len * COMPONENT_SIZE) as isize,
            },
        );
        commands.push(
            GlCommand::VertexAttribPointer {
                index: 0,
                components: floats_per_vertex as i32,
                stride: (floats_per_vertex * COMPONENT_SIZE) as i32,
            },
        );
        commands.push(GlCommand::EnableVertexAttribArray { index: 0 });
        assert(commands@ =~= vertex_upload(handle, positions_len, floats_per_vertex));
        let buffer = VertexBuffer {
            handle,
            is_bound: true,
            vertex_count: positions_len / floats_per_vertex,
        };
        (buffer, commands)
    }

    /// Binds the buffer to `target`. Does nothing, and asks nothing of the
    /// driver, when it is already bound.
    pub fn bind(&mut self, target: BufferTarget, bm: &mut BufferManager) -> (r: Vec<GlCommand>)
        requires
            !old(self).is_bound ==> old(bm).counted(BufferType::VertexBuffer) < u32::MAX,
        ensures
            *final(self) == (VertexBuffer { is_bound: true, ..*old(self) }),
            r@ == old(self).bind_calls(target),
            old(self).is_bound ==> *final(bm) == *old(bm),
            !old(self).is_bound ==> follows(*old(bm), *final(bm), (BufferType::VertexBuffer, true)),
    {
        let mut r: Vec<GlCommand> = Vec::new();
        if !self.is_bound {
            bm.increase(BufferType::VertexBuffer);
            r.push(GlCommand::BindBuffer { target, buffer: self.handle });
            self.is_bound = true;
        }
        assert(old(self).is_bound ==> r@ =~= Seq::<GlCommand>::empty());
        assert(!old(self).is_bound ==> r@ =~= seq![
            GlCommand::BindBuffer { target, buffer: old(self).handle },
        ]);
        r
    }

    /// Unbinds the buffer from `target`. Does nothing when it is not bound.
    pub fn unbind(&mut self, target: BufferTarget, bm: &mut BufferManager) -> (r: Vec<GlCommand>)
        requires
            old(self).is_bound ==> old(bm).counted(BufferType::VertexBuffer) > 0,
        ensures
            *final(self) == (VertexBuffer { is_bound: false, ..*old(self) }),
            !old(self).is_bound ==> r@ == Seq::<GlCommand>::empty() && *final(bm) == *old(bm),
            old(self).is_bound ==> {
                &&& r@ == seq![GlCommand::BindBuffer { target, buffer: 0 }]
                &&& follows(*old(bm), *final(bm), (BufferType::VertexBuffer, false))
            },
    {
        let mut r: Vec<GlCommand> = Vec::new();
        if self.is_bound {
            bm.decrease(BufferType::VertexBuffer);
            r.push(GlCommand::BindBuffer { target, buffer: 0 });
            self.is_bound = false;
        }
        assert(!old(self).is_bound ==> r@ =~= Seq::<GlCommand>::empty());
        assert(old(self).is_bound ==> r@ =~= seq![GlCommand::BindBuffer { target, buffer: 0 }]);
        r
    }

    /// Ends the buffer's life: the commands release it, and a bound buffer
    /// is no longer counted.
    pub fn release(self, bm: &mut BufferManager) -> (r: Vec<GlCommand>)
        requires
            self.is_bound ==> old(bm).counted(BufferType::VertexBuffer) > 0,
        ensures
            r@ == seq![GlCommand::DeleteBuffer { buffer: self.handle }],
            self.is_bound ==> follows(*old(bm), *final(bm), (BufferType::VertexBuffer, false)),
            !self.is_bound ==> *final(bm) == *old(bm),
    {
        if self.is_bound {
            bm.decrease(BufferType::VertexBuffer);
        }
        let mut r: Vec<GlCommand> = Vec::new();
        r.push(GlCommand::DeleteBuffer { buffer: self.handle });
        assert(r@ =~= seq![GlCommand::DeleteBuffer { buffer: self.handle }]);
        r
    }
}

/// An index buffer.
#[derive(Debug, PartialEq, Eq, Structural)]
pub struct IndexBuffer {
    /// The driver's name of the buffer.
    pub name: u32,
    /// Whether the buffer is bound.
    pub is_bound: bool,
}

impl IndexBuffer {
    /// The buffer that `new` creates.
    pub open spec fn created(name: u32) -> IndexBuffer {
        IndexBuffer { name, is_bound: true }
    }

    /// The commands that `bind` asks for: none when the buffer is already
    /// bound.
    pub open spec fn bind_calls(self) -> Seq<GlCommand> {
        if self.is_bound {
            Seq::empty()
        } else {
            seq![GlCommand::BindBuffer { target: BufferTarget::ElementArray, buffer: self.name }]
        }
    }

    /// Creates the index buffer that the driver named `name` from the first
    /// `size` of `indices` (`indices.len()` is the usual size), and binds
    /// it. The commands upload them.
    pub fn new(name: u32, size: usize, indices: &Vec<u32>, bm: &mut BufferManager) -> (r: (
        IndexBuffer,
        Vec<GlCommand>,
    ))
        requires
            size <= indices.len(),
            size * INDEX_SIZE <= isize::MAX,
            old(bm).counted(BufferType::IndexBuffer) < u32::MAX,
        ensures
            r.0 == IndexBuffer::created(name),
            r.1@ == index_upload(name, size),
            follows(*old(bm), *final(bm), (BufferType::IndexBuffer, true)),
    {
        bm.increase(BufferType::IndexBuffer);
        let mut commands: Vec<GlCommand> = Vec::new();
        commands.push(GlCommand::BindBuffer { target: BufferTarget::ElementArray, buffer: name });
        commands.push(
            GlCommand::BufferData {
                target: BufferTarget::ElementArray,
                size: (size * INDEX_SIZE) as isize,
            },
        );
        assert(commands@ =~= index_upload(name, size));
        (IndexBuffer { name, is_bound: true }, commands)
    }

    /// Binds the buffer as the index buffer. Does nothing, and asks nothing
    /// of the driver, when it is already bound.
    pub fn bind(&mut self, bm: &mut BufferManager) -> (r: Vec<GlCommand>)
        requires
            !old(self).is_bound ==> old(bm).counted(BufferType::IndexBuffer) < u32::MAX,
        ensures
            *final(self) == (IndexBuffer { is_bound: true, ..*old(self) }),
            r@ == old(self).bind_calls(),
            old(self).is_bound ==> *final(bm) == *old(bm),
            !old(self).is_bound ==> follows(*old(bm), *final(bm), (BufferType::IndexBuffer, true)),
    {
        let mut r: Vec<GlCommand> = Vec::new();
        if !self.is_bound {
            bm.increase(BufferType::IndexBuffer);
            r.push(GlCommand::BindBuffer { target: BufferTarget::ElementArray, buffer: self.name });
            self.is_bound = true;
        }
        assert(old(self).is_bound ==> r@ =~= Seq::<GlCommand>::empty());
        assert(!old(self).is_bound ==> r@ =~= seq![
            GlCommand::BindBuffer { target: BufferTarget::ElementArray, buffer: old(self).name },
        ]);
        r
    }

    /// Unbinds the buffer. Does nothing when it is not bound.
    pub fn unbind(&mut self, bm: &mut BufferManager) -> (r: Vec<GlCommand>)
        requires
            old(self).is_bound ==> old(bm).counted(BufferType::IndexBuffer) > 0,
        ensures
            *final(self) == (IndexBuffer { is_bound: false, ..*old(self) }),
            !old(self).is_bound ==> r@ == Seq::<GlCommand>::empty() && *final(bm) == *old(bm),
            old(self).is_bound ==> {
                &&& r@ == seq![GlCommand::BindBuffer { target: BufferTarget::ElementArray, buffer: 0 }]
                &&& follows(*old(bm), *final(bm), (BufferType::IndexBuffer, false))
            },
    {
        let mut r: Vec<GlCommand> = Vec::new();
        if self.is_bound {
            bm.decrease(BufferType::IndexBuffer);
            r.push(GlCommand::BindBuffer { target: BufferTarget::ElementArray, buffer: 0 });
            self.is_bound = false;
        }
        assert(!old(self).is_bound ==> r@ =~= Seq::<GlCommand>::empty());
        assert(old(self).is_bound ==> r@ =~= seq![
            GlCommand::BindBuffer { target: BufferTarget::ElementArray, buffer: 0 },
        ]);
        r
    }

    /// Ends the buffer's life: the commands release it, and a bound buffer
    /// is no longer counted.
    pub fn release(self, bm: &mut BufferManager) -> (r: Vec<GlCommand>)
        requires
            self.is_bound ==> old(bm).counted(BufferType::IndexBuffer) > 0,
        ensures
            r@ == seq![GlCommand::DeleteBuffer { buffer: self.name }],
            self.is_bound ==> follows(*old(bm), *final(bm), (BufferType::IndexBuffer, false)),
            !self.is_bound ==> *final(bm) == *old(bm),
    {
        if self.is_bound {
            bm.decrease(BufferType::IndexBuffer);
        }
        let mut r: Vec<GlCommand> = Vec::new();
        r.push(GlCommand::DeleteBuffer { buffer: self.name });
        assert(r@ =~= seq![GlCommand::DeleteBuffer { buffer: self.name }]);
        r
    }
}

/// A buffer of either kind reports itself bound once created, so binding it
/// again asks nothing of the driver.
pub proof fn lemma_created_buffers_bind_silently(
    handle: u32,
    positions_len: usize,
    floats_per_vertex: usize,
    target: BufferTarget,
    name: u32,
)
    ensures
        VertexBuffer::created(handle, positions_len, floats_per_vertex).is_bound,
        VertexBuffer::created(handle, positions_len, floats_per_vertex).bind_calls(target)
            == Seq::<GlCommand>::empty(),
        IndexBuffer::created(name).is_bound,
        IndexBuffer::created(name).bind_calls() == Seq::<GlCommand>::empty(),
{
}

} // verus!

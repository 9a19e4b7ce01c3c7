//! Buffers and the operations on them.
use vstd::prelude::*;

verus! {

/// The direction of an operation.
#[derive(Debug, Clone, Copy, PartialEq, Eq, Structural)]
pub enum RdmaOpType {
    /// From the remote buffer into local memory.
    ReadIntoLocal,
    /// From local memory into the remote buffer.
    WriteFromLocal,
}

/// A range of local memory.
#[derive(Debug, Clone, Copy, PartialEq, Eq, Structural)]
pub struct LocalMemory {
    pub addr: usize,
    pub size: usize,
}

/// How HiXL reaches a buffer: the engine that registered it, and where.
#[derive(Debug, PartialEq, Eq)]
pub struct HixlBuffer {
    pub engine_id: String,
    pub addr: usize,
    pub size: usize,
}

/// What contracts say of a [`HixlBuffer`].
#[verifier::ext_equal]
pub struct HixlBufferView {
    pub engine_id: Seq<char>,
    pub addr: usize,
    pub size: usize,
}

impl View for HixlBuffer {
    type V = HixlBufferView;

    open spec fn view(&self) -> HixlBufferView {
        HixlBufferView { engine_id: self.engine_id@, addr: self.addr, size: self.size }
    }
}

impl Clone for HixlBuffer {
    fn clone(&self) -> (copy: Self)
        ensures
            copy@ == self@,
    {
        HixlBuffer { engine_id: self.engine_id.clone(), addr: self.addr, size: self.size }
    }
}

/// Local memory with what keeps it alive.
#[derive(Debug, Clone, Copy, PartialEq, Eq)]
pub struct KeepaliveLocalMemory<K> {
    pub memory: LocalMemory,
    pub keepalive: K,
}

/// How the backends reach a buffer. `C` is what the backends other than HiXL say of
/// it.
#[derive(Debug, PartialEq, Eq)]
pub struct RdmaRemoteBackends<C> {
    /// How HiXL does, if it serves the buffer.
    pub hixl: Option<HixlBuffer>,
    /// How the other backends do.
    pub contexts: C,
}

impl<C> RdmaRemoteBackends<C> {
    /// How HiXL reaches the buffer, if it does.
    pub open spec fn hixl_view(self) -> Option<HixlBufferView> {
        match self.hixl {
            Some(buffer) => Some(buffer@),
            None => None,
        }
    }
}

/// A handle to a registered buffer.
#[derive(Debug, PartialEq, Eq)]
pub struct RdmaRemoteBuffer<C> {
    /// The number under which the owner knows the buffer.
    pub id: usize,
    /// The size of the buffer in bytes.
    pub size: usize,
    /// The address of the manager that registered the buffer.
    pub owner: String,
    /// How the backends reach it.
    pub backends: RdmaRemoteBackends<C>,
}

/// What contracts say of a [`RdmaRemoteBuffer`].
#[verifier::ext_equal]
pub struct RemoteBufferView<C> {
    pub id: usize,
    pub size: usize,
    pub owner: Seq<char>,
    pub hixl: Option<HixlBufferView>,
    pub contexts: C,
}

impl<C> RemoteBufferView<C> {
    /// Whether `self` is the same handle as `other`, with the contexts of the other
    /// backends cloned.
    pub open spec fn is_clone_of(self, other: RemoteBufferView<C>) -> bool where C: Clone {
        &&& self == (RemoteBufferView { contexts: self.contexts, ..other })
        &&& cloned(other.contexts, self.contexts)
    }
}

impl<C> View for RdmaRemoteBuffer<C> {
    type V = RemoteBufferView<C>;

    open spec fn view(&self) -> RemoteBufferView<C> {
        RemoteBufferView {
            id: self.id,
            size: self.size,
            owner: self.owner@,
            hixl: self.backends.hixl_view(),
            contexts: self.backends.contexts,
        }
    }
}

impl<C: Clone> Clone for RdmaRemoteBuffer<C> {
    fn clone(&self) -> (copy: Self)
        ensures
            copy@.is_clone_of(self@),
    {
        let hixl: Option<HixlBuffer> = match &self.backends.hixl {
            Some(buffer) => Some(buffer.clone()),
            None => None,
        };
        RdmaRemoteBuffer {
            id: self.id,
            size: self.size,
            owner: self.owner.clone(),
            backends: RdmaRemoteBackends { hixl, contexts: self.backends.contexts.clone() },
        }
    }
}

/// An operation for a backend. It owns the local memory, which so lives until the
/// operation is done.
#[derive(Debug, PartialEq, Eq)]
pub struct RdmaOp<K, C> {
    pub op_type: RdmaOpType,
    pub local: KeepaliveLocalMemory<K>,
    pub remote: RdmaRemoteBuffer<C>,
}

/// What contracts say of an [`RdmaOp`].
#[verifier::ext_equal]
pub struct OpView<K, C> {
    pub op_type: RdmaOpType,
    pub local: KeepaliveLocalMemory<K>,
    pub remote: RemoteBufferView<C>,
}

impl<K, C> View for RdmaOp<K, C> {
    type V = OpView<K, C>;

    open spec fn view(&self) -> OpView<K, C> {
        OpView { op_type: self.op_type, local: self.local, remote: self.remote@ }
    }
}

/// Operations to submit, and how long each may take.
#[derive(Debug, PartialEq, Eq)]
pub struct RdmaAction<K, C> {
    pub ops: Vec<RdmaOp<K, C>>,
    pub timeout_millis: u128,
}

impl<K, C> RdmaAction<K, C> {
    /// Whether this is one operation between `local` and a handle like `remote`, with
    /// a timeout in seconds.
    pub open spec fn is_single(
        self,
        op_type: RdmaOpType,
        local: KeepaliveLocalMemory<K>,
        remote: RemoteBufferView<C>,
        timeout: u64,
    ) -> bool where C: Clone {
        &&& self.ops@.len() == 1
        &&& self.ops@[0]@.op_type == op_type
        &&& self.ops@[0]@.local == local
        &&& self.ops@[0]@.remote.is_clone_of(remote)
        &&& self.timeout_millis == timeout * 1_000
    }

    fn single(op: RdmaOp<K, C>, timeout: u64) -> (action: Self)
        ensures
            action.ops@ == seq![op],
            action.timeout_millis == timeout * 1_000,
    {
        let mut ops = Vec::new();
        ops.push(op);
        RdmaAction { ops, timeout_millis: timeout as u128 * 1_000 }
    }
}

/// The message that releases a buffer.
#[derive(Debug, Clone, Copy, PartialEq, Eq, Structural)]
pub struct ReleaseBuffer {
    pub id: usize,
}

impl<C> RdmaRemoteBuffer<C> {
    /// How HiXL reaches the buffer, if it does.
    pub fn resolve_hixl(&self) -> (buffer: Option<&HixlBuffer>)
        ensures
            match buffer {
                Some(b) => self@.hixl == Some(b@),
                None => self@.hixl is None,
            },
    {
        match &self.backends.hixl {
            Some(buffer) => Some(buffer),
            None => None,
        }
    }

    /// The message that releases this buffer at its owner.
    pub fn drop_buffer(&self) -> (message: ReleaseBuffer)
        ensures
            message.id == self.id,
    {
        ReleaseBuffer { id: self.id }
    }
}

impl<C: Clone> RdmaRemoteBuffer<C> {
    /// Pushes local memory into this buffer. The timeout is in seconds.
    pub fn write_from_local<K>(&self, local: KeepaliveLocalMemory<K>, timeout: u64) -> (action:
        RdmaAction<K, C>)
        ensures
            action.is_single(RdmaOpType::WriteFromLocal, local, self@, timeout),
    {
        RdmaAction::single(
            RdmaOp { op_type: RdmaOpType::WriteFromLocal, local, remote: self.clone() },
            timeout,
        )
    }

    /// Pulls this buffer into local memory. The timeout is in seconds.
    pub fn read_into_local<K>(&self, local: KeepaliveLocalMemory<K>, timeout: u64) -> (action:
        RdmaAction<K, C>)
        ensures
            action.is_single(RdmaOpType::ReadIntoLocal, local, self@, timeout),
    {
        RdmaAction::single(
            RdmaOp { op_type: RdmaOpType::ReadIntoLocal, local, remote: self.clone() },
            timeout,
        )
    }
}

/// A handle shows itself as it is: number, size and owner, and the engine, address and
/// size under which HiXL serves it.
pub proof fn law_handle_is_seen_as_it_is<C>(buffer: RdmaRemoteBuffer<C>)
    ensures
        buffer@.id == buffer.id,
        buffer@.size == buffer.size,
        buffer@.owner == buffer.owner@,
        buffer@.contexts == buffer.backends.contexts,
        buffer.backends.hixl is None <==> buffer@.hixl is None,
        buffer.backends.hixl matches Some(served) ==> {
            &&& buffer@.hixl matches Some(seen)
            &&& seen.engine_id == served.engine_id@
            &&& seen.addr == served.addr
            &&& seen.size == served.size
        },
{
}

/// A request for one operation carries that operation: the direction, the local memory
/// as it was handed in, the number, size, owner and place of the buffer, and the
/// timeout in milliseconds.
pub proof fn law_request_carries_the_operation<K, C: Clone>(
    action: RdmaAction<K, C>,
    op_type: RdmaOpType,
    local: KeepaliveLocalMemory<K>,
    remote: RdmaRemoteBuffer<C>,
    timeout: u64,
)
    requires
        action.is_single(op_type, local, remote@, timeout),
    ensures
        action.ops@.len() == 1,
        action.timeout_millis == timeout * 1_000,
        action.ops@[0].op_type == op_type,
        action.ops@[0].local == local,
        action.ops@[0].remote.id == remote.id,
        action.ops@[0].remote.size == remote.size,
        action.ops@[0].remote.owner@ == remote.owner@,
        remote.backends.hixl is None <==> action.ops@[0].remote.backends.hixl is None,
        remote.backends.hixl matches Some(served) ==> {
            &&& action.ops@[0].remote.backends.hixl matches Some(copy)
            &&& copy.engine_id@ == served.engine_id@
            &&& copy.addr == served.addr
            &&& copy.size == served.size
        },
        cloned(remote.backends.contexts, action.ops@[0].remote.backends.contexts),
{
    law_handle_is_seen_as_it_is(remote);
    law_handle_is_seen_as_it_is(action.ops@[0].remote);
}

} // verus!

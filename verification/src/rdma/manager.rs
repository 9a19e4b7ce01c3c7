//! The actor that owns the registered buffers of a process.
use std::collections::HashMap;
use vstd::prelude::*;
use vstd::string::StringExecFns;

use crate::rdma::buffer::{
    KeepaliveLocalMemory, RdmaRemoteBackends, RdmaRemoteBuffer, RemoteBufferView,
};

verus! {

broadcast use vstd::std_specs::hash::group_hash_axioms;

/// What a manager outside of builds with HiXL is told about ibverbs.
#[derive(Debug, Clone, PartialEq, Eq)]
pub struct IbvConfig<T> {
    /// The device to use, if one was chosen.
    pub target: Option<T>,
}

/// The backends that a manager runs. `A` is how the runtime addresses an actor.
#[derive(Debug, Clone, Copy, PartialEq, Eq)]
pub enum RdmaBackendHandle<A> {
    Ibverbs(A),
    Tcp(A),
    Hixl(A),
}

/// A backend that a request needs is not running.
#[derive(Debug, Clone, Copy, PartialEq, Eq, Structural)]
pub enum MissingBackend {
    Tcp,
    Hixl,
}

impl MissingBackend {
    /// Describes the failure.
    pub fn message(&self) -> (message: String)
        ensures
            message@ == (match *self {
                MissingBackend::Tcp => "TCP backend not available"@,
                MissingBackend::Hixl => "HiXL backend not available"@,
            }),
    {
        match self {
            MissingBackend::Tcp => String::from_str("TCP backend not available"),
            MissingBackend::Hixl => String::from_str("HiXL backend not available"),
        }
    }
}

/// Owns the registered buffers of a process. `P` is what the manager is told, `K`
/// keeps local memory alive, and `A` addresses an actor.
pub struct RdmaManagerActor<P, K, A> {
    /// The number of the next buffer.
    pub next_remote_buf_id: usize,
    /// The registered buffers by number.
    pub buffers: HashMap<usize, KeepaliveLocalMemory<K>>,
    pub params: Option<P>,
    /// The running backends in the order in which they are preferred, once the
    /// manager is initialised.
    pub backends: Option<Vec<RdmaBackendHandle<A>>>,
}

/// What contracts say of a [`RdmaManagerActor`].
#[verifier::ext_equal]
pub struct RdmaManagerView<P, K, A> {
    pub next_remote_buf_id: usize,
    pub buffers: Map<usize, KeepaliveLocalMemory<K>>,
    pub params: Option<P>,
    pub backends: Option<Seq<RdmaBackendHandle<A>>>,
}

impl<P, K, A> View for RdmaManagerActor<P, K, A> {
    type V = RdmaManagerView<P, K, A>;

    open spec fn view(&self) -> RdmaManagerView<P, K, A> {
        RdmaManagerView {
            next_remote_buf_id: self.next_remote_buf_id,
            buffers: self.buffers@,
            params: self.params,
            backends: match self.backends {
                Some(handles) => Some(handles@),
                None => None,
            },
        }
    }
}

impl<P, K, A> RdmaManagerView<P, K, A> {
    /// No buffer has a number that is still to be given out.
    pub open spec fn wf(self) -> bool {
        forall|id: usize| #[trigger] self.buffers.contains_key(id) ==> id < self.next_remote_buf_id
    }

    /// The manager after it gave out a number.
    pub open spec fn with_number_taken(self) -> Self {
        RdmaManagerView { next_remote_buf_id: (self.next_remote_buf_id + 1) as usize, ..self }
    }

    /// The manager after it recorded a buffer.
    pub open spec fn with_buffer(self, id: usize, local: KeepaliveLocalMemory<K>) -> Self {
        RdmaManagerView { buffers: self.buffers.insert(id, local), ..self }
    }

    /// The manager after it released a buffer.
    pub open spec fn without_buffer(self, id: usize) -> Self {
        RdmaManagerView { buffers: self.buffers.remove(id), ..self }
    }
}

/// Whether the first TCP backend stands at `at`.
pub open spec fn first_tcp<A>(handles: Seq<RdmaBackendHandle<A>>, at: int) -> bool {
    &&& 0 <= at < handles.len()
    &&& handles[at] is Tcp
    &&& forall|i: int| 0 <= i < at ==> !(#[trigger] handles[i] is Tcp)
}

/// Whether the first HiXL backend stands at `at`.
pub open spec fn first_hixl<A>(handles: Seq<RdmaBackendHandle<A>>, at: int) -> bool {
    &&& 0 <= at < handles.len()
    &&& handles[at] is Hixl
    &&& forall|i: int| 0 <= i < at ==> !(#[trigger] handles[i] is Hixl)
}

impl<P, K, A> RdmaManagerActor<P, K, A> {
    /// The invariant that every operation keeps.
    pub open spec fn wf(&self) -> bool {
        self@.wf()
    }

    /// A manager without buffers that is yet to be initialised.
    pub fn new(params: Option<P>) -> (manager: Self)
        ensures
            manager.wf(),
            manager@ == (RdmaManagerView {
                next_remote_buf_id: 0,
                buffers: Map::<usize, KeepaliveLocalMemory<K>>::empty(),
                params,
                backends: None::<Seq<RdmaBackendHandle<A>>>,
            }),
    {
        RdmaManagerActor { next_remote_buf_id: 0, buffers: HashMap::new(), params, backends: None }
    }

    /// Takes the backends that were started. Without them the manager does not come
    /// up.
    pub fn init<E>(&mut self, spawned: Result<Vec<RdmaBackendHandle<A>>, E>) -> (result: Result<
        (),
        E,
    >)
        requires
            spawned is Ok ==> old(self)@.backends is None,
        ensures
            match spawned {
                Ok(handles) => {
                    &&& result == Ok::<(), E>(())
                    &&& final(self)@ == (RdmaManagerView {
                        backends: Some(handles@),
                        ..old(self)@
                    })
                },
                Err(error) => {
                    &&& result == Err::<(), E>(error)
                    &&& *final(self) == *old(self)
                },
            },
    {
        match spawned {
            Ok(handles) => {
                self.backends = Some(handles);
                Ok(())
            },
            Err(error) => Err(error),
        }
    }

    /// Takes a number for a buffer that is to be registered. The number is spent
    /// even if the registration fails.
    pub fn request_buffer(&mut self) -> (remote_buf_id: usize)
        requires
            old(self).wf(),
            old(self)@.backends is Some,
            old(self)@.next_remote_buf_id < usize::MAX,
        ensures
            final(self).wf(),
            final(self)@ == old(self)@.with_number_taken(),
            remote_buf_id == old(self)@.next_remote_buf_id,
            !final(self)@.buffers.contains_key(remote_buf_id),
    {
        let remote_buf_id: usize = self.next_remote_buf_id;
        self.next_remote_buf_id = self.next_remote_buf_id + 1;
        remote_buf_id
    }

    /// Takes what the backends made of a buffer, and hands it on. `owner` is the
    /// address of this manager.
    pub fn request_buffer_done<C, E>(
        &mut self,
        remote_buf_id: usize,
        local: KeepaliveLocalMemory<K>,
        owner: String,
        registered: Result<RdmaRemoteBackends<C>, E>,
    ) -> (buffer: Result<RdmaRemoteBuffer<C>, E>)
        requires
            old(self).wf(),
            remote_buf_id < old(self)@.next_remote_buf_id,
        ensures
            final(self).wf(),
            match registered {
                Ok(backends) => {
                    &&& final(self)@ == old(self)@.with_buffer(remote_buf_id, local)
                    &&& buffer matches Ok(b)
                    &&& b@ == (RemoteBufferView {
                        id: remote_buf_id,
                        size: local.memory.size,
                        owner: owner@,
                        hixl: backends.hixl_view(),
                        contexts: backends.contexts,
                    })
                },
                Err(error) => {
                    &&& *final(self) == *old(self)
                    &&& buffer == Err::<RdmaRemoteBuffer<C>, E>(error)
                },
            },
    {
        match registered {
            Ok(backends) => {
                let size: usize = local.memory.size;
                self.buffers.insert(remote_buf_id, local);
                Ok(RdmaRemoteBuffer { id: remote_buf_id, size, owner, backends })
            },
            Err(error) => Err(error),
        }
    }

    /// The local memory of a buffer, if it is registered.
    pub fn request_local_memory(&self, remote_buf_id: usize) -> (local: Option<
        &KeepaliveLocalMemory<K>,
    >)
        ensures
            match local {
                Some(l) => self@.buffers.contains_key(remote_buf_id) && *l
                    == self@.buffers[remote_buf_id],
                None => !self@.buffers.contains_key(remote_buf_id),
            },
    {
        self.buffers.get(&remote_buf_id)
    }

    /// Forgets a buffer. The backends are to release it whether or not it was
    /// known.
    pub fn release_buffer(&mut self, id: usize) -> (backends: &Vec<RdmaBackendHandle<A>>)
        requires
            old(self).wf(),
            old(self)@.backends is Some,
        ensures
            final(self).wf(),
            final(self)@ == old(self)@.without_buffer(id),
            old(self)@.backends == Some(backends@),
    {
        self.buffers.remove(&id);
        assert(self@.buffers =~= old(self)@.buffers.remove(id));
        self.get_backend_handles()
    }

    /// The running backends in the order in which they are preferred.
    pub fn get_backend_handles(&self) -> (handles: &Vec<RdmaBackendHandle<A>>)
        requires
            self@.backends is Some,
        ensures
            self@.backends == Some(handles@),
    {
        match &self.backends {
            Some(handles) => handles,
            None => vstd::pervasive::unreached(),
        }
    }

    /// The first TCP backend.
    pub fn get_tcp_actor_ref(&self) -> (actor: Result<&A, MissingBackend>)
        requires
            self@.backends is Some,
        ensures
            match actor {
                Ok(a) => exists|at: int| #[trigger]
                    first_tcp(self@.backends.unwrap(), at) && self@.backends.unwrap()[at]
                        == RdmaBackendHandle::Tcp(*a),
                Err(error) => {
                    &&& error == MissingBackend::Tcp
                    &&& forall|i: int|
                        0 <= i < self@.backends.unwrap().len() ==> !(
                        #[trigger] self@.backends.unwrap()[i] is Tcp)
                },
            },
    {
        let handles: &Vec<RdmaBackendHandle<A>> = self.get_backend_handles();
        let mut at: usize = 0;
        while at < handles.len()
            invariant
                at <= handles@.len(),
                self@.backends == Some(handles@),
                forall|i: int| 0 <= i < at ==> !(#[trigger] handles@[i] is Tcp),
            decreases handles@.len() - at,
        {
            if let RdmaBackendHandle::Tcp(actor) = &handles[at] {
                assert(first_tcp(handles@, at as int));
                return Ok(actor);
            }
            at = at + 1;
        }
        Err(MissingBackend::Tcp)
    }

    /// The first HiXL backend, which connects to a peer that asked for it.
    pub fn ensure_peer_connected(&self) -> (actor: Result<&A, MissingBackend>)
        requires
            self@.backends is Some,
        ensures
            match actor {
                Ok(a) => exists|at: int| #[trigger]
                    first_hixl(self@.backends.unwrap(), at) && self@.backends.unwrap()[at]
                        == RdmaBackendHandle::Hixl(*a),
                Err(error) => {
                    &&& error == MissingBackend::Hixl
                    &&& forall|i: int|
                        0 <= i < self@.backends.unwrap().len() ==> !(
                        #[trigger] self@.backends.unwrap()[i] is Hixl)
                },
            },
    {
        let handles: &Vec<RdmaBackendHandle<A>> = self.get_backend_handles();
        let mut at: usize = 0;
        while at < handles.len()
            invariant
                at <= handles@.len(),
                self@.backends == Some(handles@),
                forall|i: int| 0 <= i < at ==> !(#[trigger] handles@[i] is Hixl),
            decreases handles@.len() - at,
        {
            if let RdmaBackendHandle::Hixl(actor) = &handles[at] {
                assert(first_hixl(handles@, at as int));
                return Ok(actor);
            }
            at = at + 1;
        }
        Err(MissingBackend::Hixl)
    }
}

impl<T, K, A> RdmaManagerActor<IbvConfig<T>, K, A> {
    /// Whether the process-wide choice of an ibverbs device has to be valid for the
    /// manager to start. The manager's own choice comes before it.
    pub fn checks_process_target(&self) -> (yes: bool)
        ensures
            yes == !(self@.params matches Some(config) && config.target is Some),
    {
        match &self.params {
            Some(config) => config.target.is_none(),
            None => true,
        }
    }
}

/// A number is not used twice: no registered buffer has the number that is given
/// out next, and it is below those given out later, also once the buffer is
/// released.
pub proof fn law_numbers_are_fresh<P, K, A>(
    before: RdmaManagerView<P, K, A>,
    local: KeepaliveLocalMemory<K>,
)
    requires
        before.wf(),
        before.next_remote_buf_id < usize::MAX,
    ensures
        ({
            let first = before.next_remote_buf_id;
            let after = before.with_number_taken().with_buffer(first, local);
            &&& !before.buffers.contains_key(first)
            &&& after.wf()
            &&& first < after.next_remote_buf_id
            &&& after.without_buffer(first).next_remote_buf_id == after.next_remote_buf_id
        }),
{
}

/// A registered buffer is found, with its memory, until it is released; other
/// buffers are not touched by either.
pub proof fn law_buffer_is_found_until_released<P, K, A>(
    manager: RdmaManagerView<P, K, A>,
    id: usize,
    local: KeepaliveLocalMemory<K>,
    other: usize,
)
    requires
        id != other,
    ensures
        manager.with_buffer(id, local).buffers.contains_key(id),
        manager.with_buffer(id, local).buffers[id] == local,
        !manager.without_buffer(id).buffers.contains_key(id),
        manager.with_buffer(id, local).buffers.contains_key(other)
            == manager.buffers.contains_key(other),
        manager.without_buffer(id).buffers.contains_key(other) == manager.buffers.contains_key(
            other,
        ),
        manager.buffers.contains_key(other) ==> manager.with_buffer(id, local).buffers[other]
            == manager.buffers[other] && manager.without_buffer(id).buffers[other]
            == manager.buffers[other],
{
}

/// A release undoes a request, but for the number.
pub proof fn law_release_undoes_request<P, K, A>(
    manager: RdmaManagerView<P, K, A>,
    local: KeepaliveLocalMemory<K>,
)
    requires
        manager.wf(),
        manager.next_remote_buf_id < usize::MAX,
    ensures
        ({
            let id = manager.next_remote_buf_id;
            manager.with_number_taken().with_buffer(id, local).without_buffer(id)
                == manager.with_number_taken()
        }),
{
    let id = manager.next_remote_buf_id;
    assert(manager.with_number_taken().with_buffer(id, local).without_buffer(id)
        =~= manager.with_number_taken());
}

/// Numbers are given out one after the other. A buffer is recorded under its number
/// with the very memory that was handed in, and nothing else changes.
pub proof fn law_numbers_follow_each_other<P, K, A>(
    manager: RdmaManagerView<P, K, A>,
    id: usize,
    local: KeepaliveLocalMemory<K>,
)
    requires
        manager.next_remote_buf_id < usize::MAX,
    ensures
        manager.with_number_taken().next_remote_buf_id == manager.next_remote_buf_id + 1,
        manager.with_number_taken().buffers == manager.buffers,
        manager.with_number_taken().params == manager.params,
        manager.with_number_taken().backends == manager.backends,
        manager.with_buffer(id, local).buffers.dom() == manager.buffers.dom().insert(id),
        manager.with_buffer(id, local).buffers[id] == local,
        manager.with_buffer(id, local).next_remote_buf_id == manager.next_remote_buf_id,
        manager.with_buffer(id, local).params == manager.params,
        manager.with_buffer(id, local).backends == manager.backends,
        manager.without_buffer(id).buffers.dom() == manager.buffers.dom().remove(id),
        manager.without_buffer(id).next_remote_buf_id == manager.next_remote_buf_id,
        manager.without_buffer(id).params == manager.params,
        manager.without_buffer(id).backends == manager.backends,
{
}

/// The backend that is found is one of the sort that was asked for, and the first such.
pub proof fn law_first_backend_is_found<A>(handles: Seq<RdmaBackendHandle<A>>, at: int, i: int)
    requires
        0 <= i < handles.len(),
    ensures
        first_tcp(handles, at) ==> 0 <= at < handles.len() && handles[at] is Tcp,
        first_tcp(handles, at) && handles[i] is Tcp ==> at <= i,
        first_hixl(handles, at) ==> 0 <= at < handles.len() && handles[at] is Hixl,
        first_hixl(handles, at) && handles[i] is Hixl ==> at <= i,
{
}

/// A manager shows itself as it is.
pub proof fn law_manager_is_seen_as_it_is<P, K, A>(manager: RdmaManagerActor<P, K, A>)
    ensures
        manager@.next_remote_buf_id == manager.next_remote_buf_id,
        manager@.buffers == manager.buffers@,
        manager@.params == manager.params,
        manager.backends matches Some(handles) ==> manager@.backends == Some(handles@),
        manager.backends is None ==> manager@.backends is None,
{
}

} // verus!

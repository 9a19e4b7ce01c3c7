//! The actor that registers buffers with HiXL.
use std::collections::HashMap;
use vstd::prelude::*;

use crate::hixl::config::{
    chosen_device_id, chosen_engine_id, resolve_device_id, resolve_engine_id, HixlConfig,
};
use crate::hixl::error::HixlError;
use crate::hixl::memory::{
    deregister_mem, register_mem_done, register_mem_if_needed, DeregisterStep, MemTable,
    RegisterStep,
};
use crate::hixl::memory_laws::{
    law_deregister_undoes_new_region, law_deregister_undoes_register,
};
use crate::hixl::state::{transport_level, EngineView, HixlEngineState};
use crate::rdma::buffer::{HixlBuffer, HixlBufferView};
use crate::rdma::transport::RdmaTransportLevel;
use crate::text::optional_text;

verus! {

broadcast use vstd::std_specs::hash::group_hash_axioms;

/// Registers buffers with the engine of the process.
pub struct HixlManagerActor {
    /// The name of the engine; a hint until the actor is initialised.
    pub engine_id: String,
    /// The device; a hint until the actor is initialised.
    pub device_id: i32,
    /// Whether the actor knows its owner.
    pub has_owner: bool,
    /// The address that was registered for each buffer.
    pub buf_addrs: HashMap<usize, usize>,
}

/// What contracts say of a [`HixlManagerActor`].
#[verifier::ext_equal]
pub struct ManagerView {
    pub engine_id: Seq<char>,
    pub device_id: i32,
    pub has_owner: bool,
    pub buf_addrs: Map<usize, usize>,
}

impl View for HixlManagerActor {
    type V = ManagerView;

    open spec fn view(&self) -> ManagerView {
        ManagerView {
            engine_id: self.engine_id@,
            device_id: self.device_id,
            has_owner: self.has_owner,
            buf_addrs: self.buf_addrs@,
        }
    }
}

/// What is left to do to initialise the actor.
#[derive(Debug, Clone, PartialEq, Eq)]
pub enum InitStep {
    /// Nothing: the process has an engine already.
    Reuse,
    /// Create the engine; `init_done` finishes.
    CreateEngine { device_id: i32, engine_id: String },
}

/// What is left to do for a buffer request.
#[derive(Debug, PartialEq, Eq)]
pub enum BufferStep {
    /// Nothing: the buffer is registered.
    Ready(HixlBuffer),
    /// Register the region with the engine; `request_buffer_done` takes what it
    /// returned.
    CallEngine { addr: usize, size: usize, misaligned_by: Option<usize> },
}

impl HixlManagerActor {
    /// An actor with hints for its engine and device.
    pub fn new(engine_id: String, device_id: i32) -> (actor: Self)
        ensures
            actor@ == (ManagerView {
                engine_id: engine_id@,
                device_id,
                has_owner: false,
                buf_addrs: Map::empty(),
            }),
    {
        HixlManagerActor { engine_id, device_id, has_owner: false, buf_addrs: HashMap::new() }
    }

    /// Starts to initialise the actor. `env_engine_id` and `env_device` are what
    /// `MONARCH_PYTHON_HIXL_ENGINE_ID` and `MONARCH_NPU_DEVICE` say; `generated` is
    /// the name to take where nothing else names the engine.
    ///
    /// An engine that the process has already keeps its name.
    pub fn init(
        &mut self,
        has_parent: bool,
        env_engine_id: Option<String>,
        env_device: Option<&str>,
        generated: String,
        engine: &Option<HixlEngineState>,
    ) -> (step: Result<InitStep, HixlError>)
        requires
            has_parent ==> !old(self)@.has_owner,
        ensures
            if !has_parent {
                &&& step == Err::<InitStep, HixlError>(HixlError::NoParent)
                &&& *final(self) == *old(self)
            } else {
                let chosen = ManagerView {
                    engine_id: chosen_engine_id(
                        old(self)@.engine_id,
                        optional_text(env_engine_id),
                        generated@,
                    ),
                    device_id: chosen_device_id(old(self)@.device_id, env_device),
                    has_owner: true,
                    ..old(self)@
                };
                match *engine {
                    Some(state) => {
                        &&& step == Ok::<InitStep, HixlError>(InitStep::Reuse)
                        &&& final(self)@ == (ManagerView {
                            engine_id: state@.engine_id,
                            ..chosen
                        })
                    },
                    None => {
                        &&& step matches Ok(InitStep::CreateEngine { device_id, engine_id })
                        &&& device_id == chosen.device_id
                        &&& engine_id@ == chosen.engine_id
                        &&& final(self)@ == chosen
                    },
                }
            },
    {
        if !has_parent {
            return Err(HixlError::NoParent);
        }
        self.has_owner = true;
        let engine_id = resolve_engine_id(self.engine_id.as_str(), env_engine_id, generated);
        let device_id: i32 = resolve_device_id(self.device_id, env_device);
        self.device_id = device_id;
        match engine {
            Some(state) => {
                self.engine_id = state.engine_id.clone();
                Ok(InitStep::Reuse)
            },
            None => {
                self.engine_id = engine_id.clone();
                Ok(InitStep::CreateEngine { device_id, engine_id })
            },
        }
    }

    /// Finishes the initialisation: the actor takes the name of the engine that the
    /// process has now.
    pub fn init_done(&mut self, engine: &Option<HixlEngineState>)
        ensures
            final(self)@ == (match *engine {
                Some(state) => ManagerView { engine_id: state@.engine_id, ..old(self)@ },
                None => old(self)@,
            }),
    {
        if let Some(state) = engine {
            self.engine_id = state.engine_id.clone();
        }
    }

    fn add_buffer(&mut self, remote_buf_id: usize, addr: usize, size: usize) -> (buffer: HixlBuffer)
        ensures
            old(self)@.adds_buffer(remote_buf_id, addr, size, final(self)@, buffer@),
    {
        self.buf_addrs.insert(remote_buf_id, addr);
        HixlBuffer { engine_id: self.engine_id.clone(), addr, size }
    }

    /// Registers the memory of a buffer.
    pub fn request_buffer(
        &mut self,
        engine: &mut Option<HixlEngineState>,
        remote_buf_id: usize,
        addr: usize,
        size: usize,
    ) -> (step: Result<BufferStep, HixlError>)
        requires
            *old(engine) matches Some(state) ==> state.wf() && state@.mem.has_room(
                state@.alias_enabled,
                addr,
                size,
            ),
        ensures
            match (*old(engine), *final(engine)) {
                (Some(pre), Some(post)) => {
                    &&& post.wf()
                    &&& post@ == (EngineView { mem: post@.mem, ..pre@ })
                    &&& step matches Ok(BufferStep::Ready(buffer)) ==> {
                        &&& pre@.mem.register(
                            pre@.alias_enabled,
                            pre@.force_roce,
                            addr,
                            size,
                            post@.mem,
                            RegisterStep::Registered,
                        )
                        &&& old(self)@.adds_buffer(
                            remote_buf_id,
                            addr,
                            size,
                            final(self)@,
                            buffer@,
                        )
                        &&& buffer.addr == addr
                        &&& buffer.size == size
                        &&& final(self)@.buf_addrs[remote_buf_id] == addr
                        &&& post@.mem.regions.contains_key(addr)
                            || post@.mem.aliases.contains_key(addr)
                    }
                    &&& step matches Ok(BufferStep::CallEngine { addr: a, size: s, misaligned_by: m })
                        ==> {
                        &&& pre@.mem.register(
                            pre@.alias_enabled,
                            pre@.force_roce,
                            addr,
                            size,
                            post@.mem,
                            RegisterStep::CallEngine { addr: a, size: s, misaligned_by: m },
                        )
                        &&& *final(self) == *old(self)
                        &&& a == addr
                        &&& s == size
                    }
                    &&& step is Ok
                },
                (None, None) => {
                    &&& step == Err::<BufferStep, HixlError>(HixlError::NotInitialised)
                    &&& *final(self) == *old(self)
                },
                _ => false,
            },
    {
        match register_mem_if_needed(engine, addr, size) {
            Ok(RegisterStep::Registered) => Ok(
                BufferStep::Ready(self.add_buffer(remote_buf_id, addr, size)),
            ),
            Ok(RegisterStep::CallEngine { addr, size, misaligned_by }) => Ok(
                BufferStep::CallEngine { addr, size, misaligned_by },
            ),
            Err(error) => Err(error),
        }
    }

    /// Takes what the engine returned for the memory of a buffer.
    pub fn request_buffer_done(
        &mut self,
        engine: &mut Option<HixlEngineState>,
        remote_buf_id: usize,
        addr: usize,
        size: usize,
        ret: Result<(), i32>,
    ) -> (buffer: Result<HixlBuffer, HixlError>)
        requires
            *old(engine) matches Some(state) && state.wf() && state@.mem.vacant(addr),
        ensures
            *final(engine) matches Some(post) && post.wf(),
            match ret {
                Ok(_) => {
                    &&& final(engine).unwrap()@ == (EngineView {
                        mem: old(engine).unwrap()@.mem.add_region(addr, size),
                        ..old(engine).unwrap()@
                    })
                    &&& final(engine).unwrap()@.mem.regions[addr] == (size, 1usize)
                    &&& final(self)@.buf_addrs[remote_buf_id] == addr
                    &&& buffer matches Ok(b)
                    &&& b.addr == addr
                    &&& b.size == size
                    &&& old(self)@.adds_buffer(remote_buf_id, addr, size, final(self)@, b@)
                },
                Err(code) => {
                    &&& final(engine).unwrap()@ == old(engine).unwrap()@
                    &&& buffer == Err::<HixlBuffer, HixlError>(
                        HixlError::RegisterMem { addr, size, ret: code },
                    )
                    &&& *final(self) == *old(self)
                },
            },
    {
        match register_mem_done(engine, addr, size, ret) {
            Ok(()) => Ok(self.add_buffer(remote_buf_id, addr, size)),
            Err(error) => Err(error),
        }
    }

    /// Releases the memory of a buffer. There is nothing to do for a buffer that
    /// the actor does not know.
    pub fn release_buffer(
        &mut self,
        engine: &mut Option<HixlEngineState>,
        remote_buf_id: usize,
    ) -> (step: Result<Option<DeregisterStep>, HixlError>)
        requires
            *old(engine) matches Some(state) ==> state.wf(),
        ensures
            final(self)@ == (ManagerView {
                buf_addrs: old(self)@.buf_addrs.remove(remote_buf_id),
                ..old(self)@
            }),
            if !old(self)@.buf_addrs.contains_key(remote_buf_id) {
                &&& step == Ok::<Option<DeregisterStep>, HixlError>(None)
                &&& *final(engine) == *old(engine)
            } else {
                let addr = old(self)@.buf_addrs[remote_buf_id];
                match (*old(engine), *final(engine)) {
                    (Some(pre), Some(post)) => {
                        &&& post.wf()
                        &&& post@ == (EngineView { mem: pre@.mem.deregister(addr), ..pre@ })
                        &&& step == Ok::<Option<DeregisterStep>, HixlError>(
                            Some(pre@.mem.deregister_step(addr)),
                        )
                    },
                    (None, None) => step == Err::<Option<DeregisterStep>, HixlError>(
                        HixlError::NotInitialised,
                    ),
                    _ => false,
                }
            },
    {
        match self.buf_addrs.remove(&remote_buf_id) {
            Some(addr) => match deregister_mem(engine, addr) {
                Ok(step) => Ok(Some(step)),
                Err(error) => Err(error),
            },
            None => {
                assert(old(self)@.buf_addrs.remove(remote_buf_id) =~= old(self)@.buf_addrs);
                Ok(None)
            },
        }
    }

    /// The name of the engine.
    pub fn get_engine_id(&self) -> (engine_id: String)
        ensures
            engine_id@ == self@.engine_id,
    {
        self.engine_id.clone()
    }
}

impl ManagerView {
    /// How a registered buffer is recorded and handed out.
    pub open spec fn adds_buffer(
        self,
        remote_buf_id: usize,
        addr: usize,
        size: usize,
        post: ManagerView,
        buffer: HixlBufferView,
    ) -> bool {
        &&& post == (ManagerView {
            buf_addrs: self.buf_addrs.insert(remote_buf_id, addr),
            ..self
        })
        &&& buffer == (HixlBufferView { engine_id: self.engine_id, addr, size })
    }
}

/// HiXL among the backends. Holds the handle of its manager.
pub struct HixlBackend<H>(pub H);

impl<H> HixlBackend<H> {
    /// HiXL is there in every build that has it.
    pub fn available() -> (yes: bool)
        ensures
            yes,
    {
        true
    }

    /// The manager to spawn for a configuration. What is not configured is left
    /// open: an empty name and a negative device.
    pub fn manager_for(config: Option<HixlConfig>) -> (actor: HixlManagerActor)
        ensures
            actor@ == (ManagerView {
                engine_id: match config {
                    Some(HixlConfig { engine_id: Some(id), .. }) => id@,
                    _ => Seq::empty(),
                },
                device_id: match config {
                    Some(HixlConfig { device_id: Some(d), .. }) => d,
                    _ => -1i32,
                },
                has_owner: false,
                buf_addrs: Map::empty(),
            }),
    {
        let config: HixlConfig = match config {
            Some(config) => config,
            None => HixlConfig::default(),
        };
        let engine_id: String = match config.engine_id {
            Some(engine_id) => engine_id,
            None => String::new(),
        };
        let device_id: i32 = match config.device_id {
            Some(device_id) => device_id,
            None => -1,
        };
        HixlManagerActor::new(engine_id, device_id)
    }

    /// Takes the reply of the manager to a buffer request.
    pub fn register_remote_buffer(remote_buf_id: usize, reply: Option<HixlBuffer>) -> (buffer:
        Result<HixlBuffer, HixlError>)
        ensures
            buffer == (match reply {
                Some(b) => Ok::<HixlBuffer, HixlError>(b),
                None => Err(HixlError::BufferNotRegistered { remote_buf_id }),
            }),
    {
        match reply {
            Some(buffer) => Ok(buffer),
            None => Err(HixlError::BufferNotRegistered { remote_buf_id }),
        }
    }

    /// The level on which HiXL communicates. Without an engine that is the NIC.
    pub fn transport_level(&self, engine: &Option<HixlEngineState>) -> (level: RdmaTransportLevel)
        ensures
            level == (if *engine matches Some(state) && !state@.force_roce {
                RdmaTransportLevel::Hccs
            } else {
                RdmaTransportLevel::Nic
            }),
    {
        transport_level(engine)
    }

    /// HiXL has nothing to say of its transport.
    pub fn transport_info(&self) -> (info: Option<()>)
        ensures
            info is None,
    {
        None
    }
}

/// The handle of a buffer names exactly the range that was asked for, at the engine of
/// the actor; the actor remembers that address under the number of the buffer, and
/// nothing else changes.
pub proof fn law_handle_names_the_registered_range(
    actor: ManagerView,
    remote_buf_id: usize,
    addr: usize,
    size: usize,
    after: ManagerView,
    buffer: HixlBuffer,
    other: usize,
)
    requires
        actor.adds_buffer(remote_buf_id, addr, size, after, buffer@),
        other != remote_buf_id,
    ensures
        buffer.addr == addr,
        buffer.size == size,
        buffer.engine_id@ == actor.engine_id,
        after.buf_addrs.contains_key(remote_buf_id),
        after.buf_addrs[remote_buf_id] == buffer.addr,
        after.buf_addrs.contains_key(other) == actor.buf_addrs.contains_key(other),
        actor.buf_addrs.contains_key(other) ==> after.buf_addrs[other] == actor.buf_addrs[other],
        after.engine_id == actor.engine_id,
        after.device_id == actor.device_id,
        after.has_owner == actor.has_owner,
{
}

/// The address in a handle is one that the engine serves: after the request it is in
/// the tables, as a region of the size asked for, as one that was there, or as an
/// alias inside one.
pub proof fn law_handle_is_served(
    actor: ManagerView,
    mem: MemTable,
    alias_enabled: bool,
    force_roce: bool,
    remote_buf_id: usize,
    addr: usize,
    size: usize,
    after: ManagerView,
    buffer: HixlBuffer,
    post: MemTable,
)
    requires
        actor.adds_buffer(remote_buf_id, addr, size, after, buffer@),
        mem.register(alias_enabled, force_roce, addr, size, post, RegisterStep::Registered) || (
        mem.vacant(addr) && post == mem.add_region(addr, size)),
    ensures
        post.regions.contains_key(buffer.addr) || post.aliases.contains_key(buffer.addr),
        !mem.regions.contains_key(buffer.addr) && post.regions.contains_key(buffer.addr)
            ==> post.regions[buffer.addr] == (buffer.size, 1usize),
        !mem.aliases.contains_key(buffer.addr) && post.aliases.contains_key(buffer.addr) ==> {
            let owner = post.aliases[buffer.addr].0;
            &&& post.regions.contains_key(owner)
            &&& owner <= buffer.addr
            &&& buffer.addr + buffer.size <= owner + post.regions[owner].0
        },
{
}

/// The release of a buffer undoes its request, where the request went to the
/// engine: the actor and the tables are as before, and the engine deregisters the
/// same address.
pub proof fn law_release_undoes_new_region(
    actor: ManagerView,
    mem: MemTable,
    remote_buf_id: usize,
    addr: usize,
    size: usize,
    after: ManagerView,
    buffer: HixlBufferView,
)
    requires
        mem.wf(),
        mem.vacant(addr),
        !actor.buf_addrs.contains_key(remote_buf_id),
        actor.adds_buffer(remote_buf_id, addr, size, after, buffer),
    ensures
        after.buf_addrs.contains_key(remote_buf_id),
        after.buf_addrs[remote_buf_id] == addr,
        (ManagerView { buf_addrs: after.buf_addrs.remove(remote_buf_id), ..after }) == actor,
        mem.add_region(addr, size).deregister(addr) == mem,
        mem.add_region(addr, size).deregister_step(addr) == (DeregisterStep::CallEngine { addr }),
{
    law_deregister_undoes_new_region(mem, addr, size);
    assert(after.buf_addrs.remove(remote_buf_id) =~= actor.buf_addrs);
}

/// The release of a buffer undoes its request, where the tables satisfied the
/// request: the actor and the tables are as before, and the engine is not called.
pub proof fn law_release_undoes_shared_region(
    actor: ManagerView,
    engine: EngineView,
    remote_buf_id: usize,
    addr: usize,
    size: usize,
    after: ManagerView,
    buffer: HixlBufferView,
    after_mem: MemTable,
)
    requires
        engine.mem.wf(),
        engine.mem.has_room(engine.alias_enabled, addr, size),
        !actor.buf_addrs.contains_key(remote_buf_id),
        actor.adds_buffer(remote_buf_id, addr, size, after, buffer),
        engine.mem.register(
            engine.alias_enabled,
            engine.force_roce,
            addr,
            size,
            after_mem,
            RegisterStep::Registered,
        ),
    ensures
        after.buf_addrs.contains_key(remote_buf_id),
        after.buf_addrs[remote_buf_id] == addr,
        (ManagerView { buf_addrs: after.buf_addrs.remove(remote_buf_id), ..after }) == actor,
        after_mem.deregister(addr) == engine.mem,
        after_mem.deregister_step(addr) == DeregisterStep::Released,
{
    law_deregister_undoes_register(
        engine.mem,
        engine.alias_enabled,
        engine.force_roce,
        addr,
        size,
        after_mem,
    );
    assert(after.buf_addrs.remove(remote_buf_id) =~= actor.buf_addrs);
}

/// An actor shows itself as it is.
pub proof fn law_actor_is_seen_as_it_is(actor: HixlManagerActor)
    ensures
        actor@.engine_id == actor.engine_id@,
        actor@.device_id == actor.device_id,
        actor@.has_owner == actor.has_owner,
        actor@.buf_addrs == actor.buf_addrs@,
{
}

} // verus!

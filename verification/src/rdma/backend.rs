//! Backends and what a remote buffer says of them.
use vstd::prelude::*;

use crate::rdma::buffer::HixlBuffer;

verus! {

/// How a backend reaches a remote buffer. `A` is how the runtime addresses an
/// actor, and `B` a buffer that ibverbs has resolved.
#[derive(Debug, PartialEq, Eq)]
pub enum RdmaRemoteBackendContext<A, B> {
    /// By ibverbs: its manager, and the buffer once that is known.
    Ibverbs(A, Option<B>),
    /// By TCP: its manager.
    Tcp(A),
    /// By HiXL.
    Hixl(HixlBuffer),
}

/// A [`RdmaRemoteBackendContext`] on the wire: one variant with one value.
#[derive(Debug, PartialEq, Eq)]
pub enum WireContext<A> {
    Ibverbs(A),
    Tcp(A),
    Hixl(HixlBuffer),
}

impl<A> WireContext<A> {
    /// Whether the variant belongs to builds with HiXL; those have no other.
    pub open spec fn needs_hixl(self) -> bool {
        self is Hixl
    }

    /// The number of the variant on the wire.
    pub open spec fn variant_index(self) -> u32 {
        match self {
            WireContext::Ibverbs(_) => 0,
            WireContext::Tcp(_) => 1,
            WireContext::Hixl(_) => 0,
        }
    }

    /// The number of the variant on the wire.
    pub fn index(&self) -> (index: u32)
        ensures
            index == self.variant_index(),
    {
        match self {
            WireContext::Ibverbs(_) => 0,
            WireContext::Tcp(_) => 1,
            WireContext::Hixl(_) => 0,
        }
    }

    /// The name of the variant on the wire.
    pub fn name(&self) -> (name: &'static str)
        ensures
            name@ == (match *self {
                WireContext::Ibverbs(_) => "Ibverbs"@,
                WireContext::Tcp(_) => "Tcp"@,
                WireContext::Hixl(_) => "Hixl"@,
            }),
    {
        match self {
            WireContext::Ibverbs(_) => "Ibverbs",
            WireContext::Tcp(_) => "Tcp",
            WireContext::Hixl(_) => "Hixl",
        }
    }
}

impl<A, B> RdmaRemoteBackendContext<A, B> {
    /// What goes over the wire: a resolved ibverbs buffer does not.
    pub open spec fn on_the_wire(self) -> WireContext<A> {
        match self {
            RdmaRemoteBackendContext::Ibverbs(actor, _) => WireContext::Ibverbs(actor),
            RdmaRemoteBackendContext::Tcp(actor) => WireContext::Tcp(actor),
            RdmaRemoteBackendContext::Hixl(buffer) => WireContext::Hixl(buffer),
        }
    }

    /// What comes off the wire: an ibverbs buffer is yet to be resolved.
    pub open spec fn off_the_wire(wire: WireContext<A>) -> Self {
        match wire {
            WireContext::Ibverbs(actor) => RdmaRemoteBackendContext::Ibverbs(actor, None),
            WireContext::Tcp(actor) => RdmaRemoteBackendContext::Tcp(actor),
            WireContext::Hixl(buffer) => RdmaRemoteBackendContext::Hixl(buffer),
        }
    }

    /// The same context with nothing resolved.
    pub open spec fn unresolved(self) -> Self {
        match self {
            RdmaRemoteBackendContext::Ibverbs(actor, _) => RdmaRemoteBackendContext::Ibverbs(
                actor,
                None,
            ),
            other => other,
        }
    }

    /// Makes the context ready for the wire.
    pub fn serialize(self) -> (wire: WireContext<A>)
        ensures
            wire == self.on_the_wire(),
    {
        match self {
            RdmaRemoteBackendContext::Ibverbs(actor, _) => WireContext::Ibverbs(actor),
            RdmaRemoteBackendContext::Tcp(actor) => WireContext::Tcp(actor),
            RdmaRemoteBackendContext::Hixl(buffer) => WireContext::Hixl(buffer),
        }
    }

    /// Makes a context of what came over the wire.
    pub fn deserialize(wire: WireContext<A>) -> (context: Self)
        ensures
            context == Self::off_the_wire(wire),
    {
        match wire {
            WireContext::Ibverbs(actor) => RdmaRemoteBackendContext::Ibverbs(actor, None),
            WireContext::Tcp(actor) => RdmaRemoteBackendContext::Tcp(actor),
            WireContext::Hixl(buffer) => RdmaRemoteBackendContext::Hixl(buffer),
        }
    }
}

/// A context survives the wire, but for an ibverbs buffer that was resolved.
pub proof fn law_context_survives_the_wire<A, B>(context: RdmaRemoteBackendContext<A, B>)
    ensures
        RdmaRemoteBackendContext::<A, B>::off_the_wire(context.on_the_wire())
            == context.unresolved(),
        context.unresolved().on_the_wire() == context.on_the_wire(),
{
}

/// In one build the number of a variant tells which variant it is.
pub proof fn law_index_tells_the_variant<A>(left: WireContext<A>, right: WireContext<A>)
    requires
        left.needs_hixl() == right.needs_hixl(),
        left.variant_index() == right.variant_index(),
    ensures
        left is Ibverbs == right is Ibverbs,
        left is Tcp == right is Tcp,
        left is Hixl == right is Hixl,
{
}

/// Whether any backend is there outside of builds with HiXL: ibverbs hardware, or
/// TCP where it is allowed to stand in.
pub fn rdma_supported(ibverbs_supported: bool, allow_tcp_fallback: bool) -> (yes: bool)
    ensures
        yes == (ibverbs_supported || allow_tcp_fallback),
{
    ibverbs_supported || allow_tcp_fallback
}

/// On the wire a context is what it was, with the same actor or buffer; and what comes
/// off the wire is what came over it.
pub proof fn law_wire_keeps_the_backend<A, B>(
    context: RdmaRemoteBackendContext<A, B>,
    wire: WireContext<A>,
)
    ensures
        context matches RdmaRemoteBackendContext::Ibverbs(actor, _) ==> context.on_the_wire()
            == WireContext::Ibverbs(actor),
        context matches RdmaRemoteBackendContext::Tcp(actor) ==> context.on_the_wire()
            == WireContext::Tcp(actor),
        context matches RdmaRemoteBackendContext::Hixl(buffer) ==> context.on_the_wire()
            == WireContext::<A>::Hixl(buffer),
        wire matches WireContext::Ibverbs(actor) ==> RdmaRemoteBackendContext::<
            A,
            B,
        >::off_the_wire(wire) == RdmaRemoteBackendContext::<A, B>::Ibverbs(actor, None),
        wire matches WireContext::Tcp(actor) ==> RdmaRemoteBackendContext::<A, B>::off_the_wire(
            wire,
        ) == RdmaRemoteBackendContext::<A, B>::Tcp(actor),
        wire matches WireContext::Hixl(buffer) ==> RdmaRemoteBackendContext::<A, B>::off_the_wire(
            wire,
        ) == RdmaRemoteBackendContext::<A, B>::Hixl(buffer),
        wire is Ibverbs || wire is Hixl ==> wire.variant_index() == 0,
        wire is Tcp ==> wire.variant_index() == 1,
{
}

} // verus!

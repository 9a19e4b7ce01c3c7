//! Failures of the HiXL backend.
use vstd::prelude::*;
use vstd::string::StringExecFns;

use crate::text::{
    address, begins_with, decimal, occurs_at, occurs_in, push_address, push_decimal, push_signed,
    signed_decimal,
};

verus! {

/// What an operation of the HiXL backend failed with.
#[derive(Debug, Clone, PartialEq, Eq)]
pub enum HixlError {
    /// The engine was not initialised in time.
    NotInitialised,
    /// The engine could not connect to a peer. `hccs_hint` is set where HCCS
    /// alignment is the likely reason.
    Connect { peer: String, ret: i32, hccs_hint: bool },
    /// The engine refused to register a memory region.
    RegisterMem { addr: usize, size: usize, ret: i32 },
    /// The peer's manager could not be brought to connect.
    PeerUnreachable { peer: String, reason: String },
    /// An operation on a buffer that HiXL does not serve.
    IncompatibleBackend,
    /// The engine failed to write to a peer.
    TransferWrite { local: usize, remote: usize, engine_id: String, len: usize, ret: i32 },
    /// The engine failed to read from a peer.
    TransferRead { local: usize, remote: usize, engine_id: String, len: usize, ret: i32 },
    /// A buffer was not registered.
    BufferNotRegistered { remote_buf_id: usize },
    /// The manager has no parent.
    NoParent,
    /// The thread that creates the engine did not start.
    InitSpawn(String),
    /// The thread that creates the engine ended without an answer.
    InitChannel(String),
    /// The engine could not be created.
    InitEngine(String),
}

/// The text for a failed transfer.
pub open spec fn transfer_text(
    operation: Seq<char>,
    local: usize,
    remote: usize,
    engine_id: Seq<char>,
    len: usize,
    ret: i32,
) -> Seq<char> {
    operation + " failed: local="@ + address(local) + " remote="@ + address(remote) + "@"@
        + engine_id + " len="@ + decimal(len as nat) + " ret="@ + signed_decimal(ret as int)
}

impl HixlError {
    /// The text of the failure.
    pub open spec fn text(self) -> Seq<char> {
        match self {
            HixlError::NotInitialised =>
                "HiXL engine not initialised after 10 s (HixlManagerActor not started?)"@,
            HixlError::Connect { peer, ret, hccs_hint } => {
                let failed = "hixl_connect("@ + peer@ + ") failed: ret="@ + signed_decimal(
                    ret as int,
                );
                if hccs_hint {
                    failed
                        + " — HCCS channel creation failed. Ensure all registered memory is 2MB-aligned (use alloc_aligned_tensor()). Or set MONARCH_HIXL_TRANSPORT=roce to use RoCE instead."@
                } else {
                    failed
                }
            },
            HixlError::RegisterMem { addr, size, ret } => "hixl_register_mem(addr="@ + address(addr)
                + ", size="@ + decimal(size as nat) + ") failed: ret="@ + signed_decimal(
                ret as int,
            ),
            HixlError::PeerUnreachable { peer, reason } => "EnsurePeerConnected to "@ + peer@
                + " failed: "@ + reason@,
            HixlError::IncompatibleBackend => "op routed to incompatible HiXL backend"@,
            HixlError::TransferWrite { local, remote, engine_id, len, ret } => transfer_text(
                "hixl_transfer_write"@,
                local,
                remote,
                engine_id@,
                len,
                ret,
            ),
            HixlError::TransferRead { local, remote, engine_id, len, ret } => transfer_text(
                "hixl_transfer_read"@,
                local,
                remote,
                engine_id@,
                len,
                ret,
            ),
            HixlError::BufferNotRegistered { remote_buf_id } => "HiXL failed to register buffer "@
                + decimal(remote_buf_id as nat),
            HixlError::NoParent => "RdmaManagerActor not found as parent"@,
            HixlError::InitSpawn(reason) => "failed to spawn hixl-init thread: "@ + reason@,
            HixlError::InitChannel(reason) => "hixl-init thread channel closed: "@ + reason@,
            HixlError::InitEngine(reason) => "hixl_init_engine failed on dedicated thread: "@
                + reason@,
        }
    }

    /// Describes the failure.
    pub fn message(&self) -> (message: String)
        ensures
            message@ == self.text(),
    {
        let mut out = String::new();
        match self {
            HixlError::NotInitialised => {
                out.append(
                    "HiXL engine not initialised after 10 s (HixlManagerActor not started?)",
                );
            },
            HixlError::Connect { peer, ret, hccs_hint } => {
                out.append("hixl_connect(");
                out.append(peer.as_str());
                out.append(") failed: ret=");
                push_signed(&mut out, *ret);
                if *hccs_hint {
                    out.append(
                        " — HCCS channel creation failed. Ensure all registered memory is 2MB-aligned (use alloc_aligned_tensor()). Or set MONARCH_HIXL_TRANSPORT=roce to use RoCE instead.",
                    );
                }
            },
            HixlError::RegisterMem { addr, size, ret } => {
                out.append("hixl_register_mem(addr=");
                push_address(&mut out, *addr);
                out.append(", size=");
                push_decimal(&mut out, *size as u64);
                out.append(") failed: ret=");
                push_signed(&mut out, *ret);
            },
            HixlError::PeerUnreachable { peer, reason } => {
                out.append("EnsurePeerConnected to ");
                out.append(peer.as_str());
                out.append(" failed: ");
                out.append(reason.as_str());
            },
            HixlError::IncompatibleBackend => {
                out.append("op routed to incompatible HiXL backend");
            },
            HixlError::TransferWrite { local, remote, engine_id, len, ret } => {
                push_transfer(
                    &mut out,
                    "hixl_transfer_write",
                    *local,
                    *remote,
                    engine_id.as_str(),
                    *len,
                    *ret,
                );
            },
            HixlError::TransferRead { local, remote, engine_id, len, ret } => {
                push_transfer(
                    &mut out,
                    "hixl_transfer_read",
                    *local,
                    *remote,
                    engine_id.as_str(),
                    *len,
                    *ret,
                );
            },
            HixlError::BufferNotRegistered { remote_buf_id } => {
                out.append("HiXL failed to register buffer ");
                push_decimal(&mut out, *remote_buf_id as u64);
            },
            HixlError::NoParent => {
                out.append("RdmaManagerActor not found as parent");
            },
            HixlError::InitSpawn(reason) => {
                out.append("failed to spawn hixl-init thread: ");
                out.append(reason.as_str());
            },
            HixlError::InitChannel(reason) => {
                out.append("hixl-init thread channel closed: ");
                out.append(reason.as_str());
            },
            HixlError::InitEngine(reason) => {
                out.append("hixl_init_engine failed on dedicated thread: ");
                out.append(reason.as_str());
            },
        }
        assert(out@ =~= self.text());
        out
    }
}

fn push_transfer(
    out: &mut String,
    operation: &str,
    local: usize,
    remote: usize,
    engine_id: &str,
    len: usize,
    ret: i32,
)
    ensures
        final(out)@ == old(out)@ + transfer_text(
            operation@,
            local,
            remote,
            engine_id@,
            len,
            ret,
        ),
{
    out.append(operation);
    out.append(" failed: local=");
    push_address(out, local);
    out.append(" remote=");
    push_address(out, remote);
    out.append("@");
    out.append(engine_id);
    out.append(" len=");
    push_decimal(out, len as u64);
    out.append(" ret=");
    push_signed(out, ret);
    assert(out@ =~= old(out)@ + transfer_text(operation@, local, remote, engine_id@, len, ret));
}

/// Whether a text ends with another.
pub open spec fn ends_with(whole: Seq<char>, part: Seq<char>) -> bool {
    part.len() <= whole.len() && whole.skip(whole.len() - part.len()) == part
}

proof fn lemma_occurs_in_longer(whole: Seq<char>, part: Seq<char>, rest: Seq<char>)
    requires
        occurs_in(whole, part),
    ensures
        occurs_in(whole + rest, part),
{
    let at = choose|at: int| occurs_at(whole, part, at);
    assert((whole + rest).subrange(at, at + part.len()) =~= whole.subrange(at, at + part.len()));
    assert(occurs_at(whole + rest, part, at));
}

proof fn lemma_occurs_at_the_end(whole: Seq<char>, part: Seq<char>)
    ensures
        occurs_in(whole + part, part),
        ends_with(whole + part, part),
{
    assert((whole + part).skip(whole.len() as int) =~= part);
    assert((whole + part).subrange(whole.len() as int, (whole + part).len() as int) =~= part);
    assert(occurs_at(whole + part, part, whole.len() as int));
}

proof fn lemma_regroup(start: Seq<char>, gap: Seq<char>, label: Seq<char>, value: Seq<char>)
    ensures
        start + (gap + label) + value == start + gap + (label + value),
{
    assert(start + (gap + label) + value =~= start + gap + (label + value));
}

/// The text of a failed transfer names both addresses, the engine and the length, and
/// ends with the code.
pub proof fn law_transfer_text_tells_the_transfer(
    operation: Seq<char>,
    local: usize,
    remote: usize,
    engine_id: Seq<char>,
    len: usize,
    ret: i32,
)
    ensures
        ({
            let text = transfer_text(operation, local, remote, engine_id, len, ret);
            &&& begins_with(text, operation)
            &&& occurs_in(text, "local="@ + address(local))
            &&& occurs_in(text, "remote="@ + address(remote))
            &&& occurs_in(text, "@"@ + engine_id)
            &&& occurs_in(text, "len="@ + decimal(len as nat))
            &&& ends_with(text, "ret="@ + signed_decimal(ret as int))
        }),
{
    reveal_strlit(" failed: local=");
    reveal_strlit("local=");
    reveal_strlit(" remote=");
    reveal_strlit("remote=");
    reveal_strlit(" len=");
    reveal_strlit("len=");
    reveal_strlit(" ret=");
    reveal_strlit("ret=");
    reveal_strlit(" failed: ");
    reveal_strlit(" ");
    let text = transfer_text(operation, local, remote, engine_id, len, ret);
    let l = "local="@ + address(local);
    let r = "remote="@ + address(remote);
    let e = "@"@ + engine_id;
    let n = "len="@ + decimal(len as nat);
    let c = "ret="@ + signed_decimal(ret as int);
    let to_l = operation + " failed: "@ + l;
    let to_r = to_l + " "@ + r;
    let to_e = to_r + e;
    let to_n = to_e + " "@ + n;
    assert(text =~= to_n + " "@ + c);
    lemma_occurs_at_the_end(operation + " failed: "@, l);
    lemma_occurs_at_the_end(to_l + " "@, r);
    lemma_occurs_at_the_end(to_r, e);
    lemma_occurs_at_the_end(to_e + " "@, n);
    lemma_occurs_at_the_end(to_n + " "@, c);
    lemma_occurs_in_longer(to_l, l, " "@ + r + e + " "@ + n + " "@ + c);
    lemma_occurs_in_longer(to_r, r, e + " "@ + n + " "@ + c);
    lemma_occurs_in_longer(to_e, e, " "@ + n + " "@ + c);
    lemma_occurs_in_longer(to_n, n, " "@ + c);
    assert(text =~= to_l + (" "@ + r + e + " "@ + n + " "@ + c));
    assert(text =~= to_r + (e + " "@ + n + " "@ + c));
    assert(text =~= to_e + (" "@ + n + " "@ + c));
    assert(text =~= to_n + (" "@ + c));
    assert(text.subrange(0, operation.len() as int) =~= operation);
}

/// The text of a failed connection names the peer and the code, which ends it unless
/// the hint follows.
pub proof fn law_connect_text_tells_the_peer(peer: String, ret: i32, hccs_hint: bool)
    ensures
        ({
            let text = (HixlError::Connect { peer, ret, hccs_hint }).text();
            &&& begins_with(text, "hixl_connect("@ + peer@)
            &&& occurs_in(text, "ret="@ + signed_decimal(ret as int))
            &&& !hccs_hint ==> ends_with(text, "ret="@ + signed_decimal(ret as int))
        }),
{
    reveal_strlit(") failed: ret=");
    reveal_strlit(") failed: ");
    reveal_strlit("ret=");
    let p = "hixl_connect("@ + peer@;
    let c = "ret="@ + signed_decimal(ret as int);
    let failed = "hixl_connect("@ + peer@ + ") failed: ret="@ + signed_decimal(ret as int);
    let text = (HixlError::Connect { peer, ret, hccs_hint }).text();
    assert(failed =~= p + ") failed: "@ + c);
    lemma_occurs_at_the_end(p + ") failed: "@, c);
    if hccs_hint {
        let hint =
            " — HCCS channel creation failed. Ensure all registered memory is 2MB-aligned (use alloc_aligned_tensor()). Or set MONARCH_HIXL_TRANSPORT=roce to use RoCE instead."@;
        assert(text == failed + hint);
        lemma_occurs_in_longer(failed, c, hint);
    }
    assert(text.subrange(0, p.len() as int) =~= p);
}

/// The text of a refused registration names the range and ends with the code.
pub proof fn law_register_text_tells_the_range(addr: usize, size: usize, ret: i32)
    ensures
        ({
            let text = (HixlError::RegisterMem { addr, size, ret }).text();
            &&& begins_with(text, "hixl_register_mem("@)
            &&& occurs_in(text, "addr="@ + address(addr))
            &&& occurs_in(text, "size="@ + decimal(size as nat))
            &&& ends_with(text, "ret="@ + signed_decimal(ret as int))
        }),
{
    assert("hixl_register_mem(addr="@ =~= "hixl_register_mem("@ + "addr="@) by {
        reveal_strlit("hixl_register_mem(addr=");
        reveal_strlit("hixl_register_mem(");
        reveal_strlit("addr=");
    }
    assert(", size="@ =~= ", "@ + "size="@) by {
        reveal_strlit(", size=");
        reveal_strlit(", ");
        reveal_strlit("size=");
    }
    assert(") failed: ret="@ =~= ") failed: "@ + "ret="@) by {
        reveal_strlit(") failed: ret=");
        reveal_strlit(") failed: ");
        reveal_strlit("ret=");
    }
    let text = (HixlError::RegisterMem { addr, size, ret }).text();
    let a = "addr="@ + address(addr);
    let s = "size="@ + decimal(size as nat);
    let c = "ret="@ + signed_decimal(ret as int);
    let to_a = "hixl_register_mem("@ + a;
    let to_s = to_a + ", "@ + s;
    lemma_regroup(Seq::empty(), "hixl_register_mem("@, "addr="@, address(addr));
    lemma_regroup(to_a, ", "@, "size="@, decimal(size as nat));
    lemma_regroup(to_s, ") failed: "@, "ret="@, signed_decimal(ret as int));
    assert(Seq::empty() + "hixl_register_mem("@ =~= "hixl_register_mem("@);
    assert(Seq::empty() + ("hixl_register_mem("@ + "addr="@) =~= "hixl_register_mem("@ + "addr="@);
    assert(text == to_s + ") failed: "@ + c);
    lemma_occurs_at_the_end("hixl_register_mem("@, a);
    lemma_occurs_in_longer(to_a, a, ", "@);
    lemma_occurs_in_longer(to_a + ", "@, a, s);
    lemma_occurs_in_longer(to_s, a, ") failed: "@);
    lemma_occurs_in_longer(to_s + ") failed: "@, a, c);
    lemma_occurs_at_the_end(to_a + ", "@, s);
    lemma_occurs_in_longer(to_s, s, ") failed: "@);
    lemma_occurs_in_longer(to_s + ") failed: "@, s, c);
    lemma_occurs_at_the_end(to_s + ") failed: "@, c);
    assert(text.subrange(0, "hixl_register_mem("@.len() as int) =~= "hixl_register_mem("@);
}

/// The text of a peer that could not be reached names it and ends with the reason.
pub proof fn law_peer_text_tells_the_reason(peer: String, reason: String)
    ensures
        ({
            let text = (HixlError::PeerUnreachable { peer, reason }).text();
            &&& begins_with(text, "EnsurePeerConnected to "@ + peer@)
            &&& ends_with(text, reason@)
        }),
{
    let text = (HixlError::PeerUnreachable { peer, reason }).text();
    let p = "EnsurePeerConnected to "@ + peer@;
    lemma_occurs_at_the_end(p + " failed: "@, reason@);
    assert(text.subrange(0, p.len() as int) =~= p);
}

/// The texts of the other failures end with the reason or the number of the buffer, and
/// a failed write is told from a failed read.
pub proof fn law_text_ends_with_the_reason(error: HixlError)
    ensures
        error matches HixlError::BufferNotRegistered { remote_buf_id } ==> ends_with(
            error.text(),
            decimal(remote_buf_id as nat),
        ),
        error matches HixlError::InitSpawn(reason) ==> ends_with(error.text(), reason@),
        error matches HixlError::InitChannel(reason) ==> ends_with(error.text(), reason@),
        error matches HixlError::InitEngine(reason) ==> ends_with(error.text(), reason@),
        error matches HixlError::TransferWrite { local, remote, engine_id, len, ret }
            ==> error.text() == transfer_text(
            "hixl_transfer_write"@,
            local,
            remote,
            engine_id@,
            len,
            ret,
        ),
        error matches HixlError::TransferRead { local, remote, engine_id, len, ret }
            ==> error.text() == transfer_text(
            "hixl_transfer_read"@,
            local,
            remote,
            engine_id@,
            len,
            ret,
        ),
{
    match error {
        HixlError::BufferNotRegistered { remote_buf_id } => {
            lemma_occurs_at_the_end(
                "HiXL failed to register buffer "@,
                decimal(remote_buf_id as nat),
            );
        },
        HixlError::InitSpawn(reason) => {
            lemma_occurs_at_the_end("failed to spawn hixl-init thread: "@, reason@);
        },
        HixlError::InitChannel(reason) => {
            lemma_occurs_at_the_end("hixl-init thread channel closed: "@, reason@);
        },
        HixlError::InitEngine(reason) => {
            lemma_occurs_at_the_end("hixl_init_engine failed on dedicated thread: "@, reason@);
        },
        _ => {},
    }
}

} // verus!

//! What ibverbs needs of CUDA.
use vstd::prelude::*;
use vstd::string::StringExecFns;

use crate::text::{contains, occurs_in};

verus! {

/// Why the host cannot run ibverbs on CUDA memory. `E` is the failure to read a
/// file.
#[derive(Debug, Clone, PartialEq, Eq)]
pub enum ContextError<E> {
    /// A file could not be read.
    Unreadable(E),
    /// The kernel module is not loaded.
    NoPeermem,
    /// The driver does not map peers.
    NoPeerMapping,
}

impl<E> ContextError<E> {
    /// Describes the failure, unless it is one to read a file.
    pub fn message(&self) -> (message: Option<String>)
        ensures
            match *self {
                ContextError::Unreadable(_) => message is None,
                ContextError::NoPeermem => message matches Some(text) && text@
                    == "nvidia_peermem module not found in /proc/modules"@,
                ContextError::NoPeerMapping => message matches Some(text) && text@
                    == "PeerMappingOverride=1 not found in /proc/driver/nvidia/params"@,
            },
    {
        match self {
            ContextError::Unreadable(_) => None,
            ContextError::NoPeermem => Some(
                String::from_str("nvidia_peermem module not found in /proc/modules"),
            ),
            ContextError::NoPeerMapping => Some(
                String::from_str("PeerMappingOverride=1 not found in /proc/driver/nvidia/params"),
            ),
        }
    }
}

/// Tests what `/proc/modules` and `/proc/driver/nvidia/params` hold. The first
/// thing that is wrong is reported.
pub fn validate_execution_context<E>(modules: Result<String, E>, params: Result<String, E>) -> (valid:
    Result<(), ContextError<E>>)
    ensures
        match modules {
            Err(error) => valid == Err::<(), ContextError<E>>(ContextError::Unreadable(error)),
            Ok(m) => if !occurs_in(m@, "nvidia_peermem"@) {
                valid == Err::<(), ContextError<E>>(ContextError::NoPeermem)
            } else {
                match params {
                    Err(error) => valid == Err::<(), ContextError<E>>(
                        ContextError::Unreadable(error),
                    ),
                    Ok(p) => if !occurs_in(p@, "PeerMappingOverride=1"@) {
                        valid == Err::<(), ContextError<E>>(ContextError::NoPeerMapping)
                    } else {
                        valid == Ok::<(), ContextError<E>>(())
                    },
                }
            },
        },
{
    match modules {
        Ok(contents) => {
            if !contains(contents.as_str(), "nvidia_peermem") {
                return Err(ContextError::NoPeermem);
            }
        },
        Err(error) => {
            return Err(ContextError::Unreadable(error));
        },
    }
    match params {
        Ok(contents) => {
            if !contains(contents.as_str(), "PeerMappingOverride=1") {
                return Err(ContextError::NoPeerMapping);
            }
        },
        Err(error) => {
            return Err(ContextError::Unreadable(error));
        },
    }
    Ok(())
}

/// How many slots to offer for the registered segments: as many as there are said
/// to be, which is none for a count that is not positive.
pub fn segment_slots(segment_count: i32) -> (slots: usize)
    ensures
        slots == (if segment_count <= 0 {
            0int
        } else {
            segment_count as int
        }),
{
    if segment_count <= 0 {
        0
    } else {
        segment_count as usize
    }
}

/// The registered segments among the slots, of which the first `actual_count` were
/// filled.
pub fn get_registered_cuda_segments<S>(slots: Vec<S>, actual_count: i32) -> (segments: Vec<S>)
    ensures
        segments@ == (if actual_count <= 0 {
            Seq::<S>::empty()
        } else if actual_count <= slots@.len() {
            slots@.take(actual_count as int)
        } else {
            slots@
        }),
{
    if actual_count > 0 {
        let mut segments = slots;
        if (actual_count as usize) < segments.len() {
            segments.truncate(actual_count as usize);
        }
        segments
    } else {
        Vec::new()
    }
}

} // verus!

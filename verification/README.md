# monarch_ascend

The decisions that Monarch takes on Ascend NPUs, written and proved in Verus:
collective communication over HCCL, and single-sided communication over HiXL.

- `src/unique_id.rs`: identifiers that bootstrap a communicator of NCCL or HCCL.
- `src/hccl/`: element types and codes, the checks on tensors, the calls that carry
  out a collective operation, and sub-communicators.
- `src/hixl/`: the engine of a process with its connections and registered memory,
  the actor that registers buffers, and the submission of operations.
- `src/rdma/`: remote buffers, transports, and the actor that owns the buffers of a
  process.
- `src/text.rs`: numbers and words in text.

The library does no input or output. A function that needs the engine, HCCL or a peer
says what to do next, and another takes what came of it. `app/` carries this out: it
holds the engine of the process, the calls into HCCL, the actors, and the types as they
travel between processes.

What holds over several calls is stated by the public proof functions whose names begin
with `law_`.

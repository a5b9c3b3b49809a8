# verifier_program

Verified core of a Solana verifier program for shielded transactions.

- `src/state.rs`: the verifier state kept between instructions.
- `src/instructions.rs`: building the state from instruction data, storing the proof, and the data that starts a Merkle tree update.
- `src/compute.rs`: the scheduler of `compute` instructions (prepared inputs, Miller loop, Merkle tree update, final exponentiation).
- `src/schedule.rs`: properties of runs of `compute` instructions.
- `src/pda.rs`: the seeds of the verifier state's program address and the bump seed search.
- `src/shielded.rs`: configuration and step order of the shielded transfer.
- `src/errors.rs`: the program's error codes.
- `app/`: the Anchor entry points, which carry out the proof arithmetic and the calls into other programs.

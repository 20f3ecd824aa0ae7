//! Fetch–decode–execute core of a 64-bit RISC-V hart: RV64IMAFD with the
//! compressed encoding, plus the CSR and system instructions that the ISA
//! conformance suite needs.
//!
//! * `instruction` — instruction fields and the handler descriptors;
//! * `compressed` — expansion of 16-bit instructions;
//! * `decode` — the decoding table;
//! * `expansion_laws` — what compressed forms expand to, field by field;
//! * `alu` — integer arithmetic;
//! * `memory` — typed little-endian access to a byte store;
//! * `semantics` — what each instruction does, as specifications;
//! * `cpu` — the hart and its `tick`;
//! * `laws` — properties that hold of every step.
//!
//! Operations that need IEEE arithmetic, and ECALLs, are handed back to the
//! host as `Event`s.

pub mod alu;
pub mod compressed;
pub mod cpu;
pub mod decode;
pub mod expansion_laws;
pub mod instruction;
pub mod laws;
pub mod memory;
pub mod semantics;
pub mod trap;

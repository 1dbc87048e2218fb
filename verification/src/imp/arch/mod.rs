//! One module for each architecture.
pub mod aarch64;
pub mod arm;
pub mod m68k;
pub mod mips;
pub mod mips64;
pub mod powerpc;
pub mod powerpc64;
pub mod riscv32;
pub mod riscv64;
pub mod s390x;
pub mod x86;
pub mod x86_64;

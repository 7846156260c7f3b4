//! Device drivers' decision cores: register-level protocols and layout
//! computations. The volatile MMIO accesses themselves happen in the
//! unverified glue, which feeds the read register values in and writes
//! out what these functions decide.

pub mod display;
pub mod sound;
pub mod touchscreen;

pub mod inc;
pub mod range;
pub mod seq;
pub mod tbseq;
pub mod error;
pub mod tube;
pub mod backoff;
pub mod retry;

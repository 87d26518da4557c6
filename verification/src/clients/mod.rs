//! The clients of the two feeds: what each asks, and what each is answered.

pub mod mpk_wroc;
pub mod sims;

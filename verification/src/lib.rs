//! Builds and dispatches cross-program-invocation (CPI) swap instructions for
//! decentralized-exchange programs on the Solana runtime.
//!
//! A raw account list is matched against the known program identifiers, split
//! into a named, protocol-specific account structure, and turned into the
//! binary instruction (discriminator plus little-endian amounts) that the
//! target program expects, which is then handed to the runtime's signed-invoke
//! primitive.

pub mod host;
pub mod raydium_cpmm;
pub mod swap;

pub use raydium_cpmm::RaydiumCPMM;
pub use raydium_cpmm::RaydiumCPMMSwapAccounts;
pub use swap::Mode;
pub use swap::Swap;
pub use swap::SwapContext;
pub use swap::swap;
pub use swap::swap_signed;
pub use swap::try_from_swap_context;

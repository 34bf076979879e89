//! A confidential, trigger-based conditional order engine for a
//! perpetual-futures venue.
//!
//! A user commits to a future trade without revealing its parameters, a
//! monitor holds an oracle price against the trigger, and on trigger the
//! order is settled through one call to the venue, bundled with the custody
//! hand-off between execution domains.
//!
//! Every operation here is a function from the records it may change, its
//! arguments and what the host observed (time, ledger counter, feed
//! contents, account identities) to either a refusal that changes nothing
//! or the new state together with the call the host is to make last. The
//! host reads accounts and clocks, stores records and makes the calls; it
//! decides nothing.
//!
//! * [`encoding`]: 32-byte identities and little-endian encodings.
//! * [`digest`]: the two digests used for commitments, computed outside.
//! * [`address`]: derived addresses, computed outside.
//! * [`oracle`]: the price feed reader.
//! * [`actions`]: the calls and custody changes an operation can plan.
//! * [`scheduling`]: the wire form of a monitoring request, encoded outside.
//! * [`ghost_bridge`]: hash-committed and ciphertext orders, the authority
//!   registry and the settlement call builder.
//! * [`ghost_crank`]: commitment-reveal orders.
//! * [`vault`]: the risk-limiting vault kept beside the engine.

pub mod actions;
pub mod address;
pub mod digest;
pub mod encoding;
pub mod ghost_bridge;
pub mod ghost_crank;
pub mod oracle;
pub mod scheduling;
pub mod vault;

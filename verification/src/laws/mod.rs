//! What the library promises, stated of its functions.
//!
//! Each law speaks of what calls return: it takes arguments and results, with the fact that the
//! results came from those calls, and says what must hold between them.

pub mod basics;
pub mod calls;
pub mod events;
pub mod framing;
pub mod links;
pub mod peers;
pub mod replies;
pub mod runs;
pub mod streams;
pub mod stun;
pub mod text;

//! Synchronises a reading list from a reference manager into an e-reader
//! host: resolves which attachments to fetch, plans the fetches, speaks the
//! host's line protocol and decides when the poll loop ends.

pub mod archive;
pub mod clock;
pub mod events;
pub mod fetch;
pub mod index;
pub mod lifecycle;
pub mod model;
pub mod text;

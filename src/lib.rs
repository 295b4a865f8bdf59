//! Sequencer core for a KZG powers-of-tau trusted-setup ceremony over
//! BLS12-381: canonical participant identities, the `expand_message_xmd`
//! expander, group elements and the pointwise powers-of-tau update, the
//! contribution object and its BLS signature, the transcript with its witness
//! chain, and the lobby state machine that admits one contributor at a time.

pub mod text;
pub mod identity;
pub mod xmd;
pub mod group;
pub mod signature;
pub mod contribution;
pub mod transcript;
pub mod lobby;
pub mod oauth;
pub mod ecdsa;
pub mod json;

//! Settings and mail-preparation logic of a desktop email composer: the
//! stored sender identities, API key and profile, and the checks that turn a
//! compose request into a message ready for the delivery provider.

pub mod email;
pub mod error;
pub mod identity;
pub mod settings;

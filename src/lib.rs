//! A small creature-breeding simulator: creatures that level up with
//! experience, a pairwise breeding rule, and a roster of creatures with
//! queries, training and breeding. Beside it sit a few smaller tools: a
//! password builder, a line-oriented inventory, an e-mail record and some
//! classification exercises.
pub mod creature;
pub mod breeding;
pub mod codec;
pub mod password;
pub mod inventory;
pub mod exercises;
pub mod email;

//! Decision logic of the Cove cloud backup feature: the backup model, the
//! onboarding and backup-detail screens, passkey authentication policies,
//! local-key proofs, deep verification and restore, each stated as a
//! function from observations to decisions and proved against its contract.

pub mod cloud_only;
pub mod cloud_restore;
pub mod cloud_storage;
pub mod credentials;
pub mod deep_verify;
pub mod detail;
pub mod enable;
pub mod entropy;
pub mod hex_codec;
pub mod inventory;
pub mod maintenance;
pub mod manager;
pub mod master_key;
pub mod model;
pub mod onboarding;
pub mod passkey;
pub mod repair;
pub mod restore;
pub mod sanitize;
pub mod text;
pub mod uploads;
pub mod wallet_checks;
pub mod wallet_entry;

//! A small typed persistence layer: a value type declares a storage category
//! (cache, data or config); the library routes the category to a root
//! directory, keeps one file per identifier under that root, bootstraps a
//! default-valued file when none exists yet, and offers a managing wrapper
//! with commit/uncommitted mutation on top of the bare handle.

mod codec;
mod disk;
mod laws;
mod manager;
mod storage;
mod values;

pub use codec::decimal_digits;
pub use codec::digit_char;
pub use codec::ron_u32;
pub use disk::Disk;
pub use disk::OpenOutcome;
pub use disk::find_entry;
pub use disk::lemma_find_entry_push;
pub use disk::lemma_find_entry_put;
pub use disk::put_entry;
pub use laws::lemma_category_isolation;
pub use laws::lemma_commit_observed;
pub use laws::lemma_default_bootstrap_idempotent;
pub use laws::lemma_uncommitted_isolation;
pub use manager::StoreManager;
pub use storage::Storage;
pub use storage::StoreError;
pub use storage::StoreHandle;
pub use storage::Storing;
pub use storage::StoringType;
pub use storage::spec_read_files;
pub use storage::spec_read_result;
pub use storage::spec_read_value;
pub use storage::spec_write_files;
pub use storage::spec_write_result;
pub use values::Counter;
pub use values::Settings;

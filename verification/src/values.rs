//! Two small store-value types backed by the ron codec: a counter under the
//! data category and a settings record under the config category. They are
//! the value types the library's own tests persist; any type implementing
//! `Storing` works the same way.

use vstd::prelude::*;

use crate::codec::decimal_digits;
use crate::codec::ron_decode_u32;
use crate::codec::ron_encode_u32;
use crate::codec::ron_u32;
use crate::storage::Storing;
use crate::storage::StoringType;

verus! {

/// A counter, persisted under the data category; the default has count zero.
#[derive(Clone, Copy, Debug, PartialEq, Eq, Structural)]
pub struct Counter {
    pub count: u32,
}

impl Storing for Counter {
    open spec fn store_type_spec() -> StoringType {
        StoringType::Data
    }

    open spec fn default_spec() -> Self {
        Counter { count: 0 }
    }

    open spec fn encode_spec(self) -> Seq<char> {
        decimal_digits(self.count as nat)
    }

    open spec fn decode_spec(text: Seq<char>) -> Option<Self> {
        match ron_u32(text) {
            Some(count) => Some(Counter { count }),
            None => None,
        }
    }

    fn store_type() -> StoringType {
        StoringType::Data
    }

    fn default_value() -> Self {
        Counter { count: 0 }
    }

    fn encode(&self) -> String {
        ron_encode_u32(self.count)
    }

    fn decode(text: &str) -> Option<Self> {
        match ron_decode_u32(text) {
            Some(count) => Some(Counter { count }),
            None => None,
        }
    }
}

/// A settings record, persisted under the config category; the default has
/// limit zero.
#[derive(Clone, Copy, Debug, PartialEq, Eq, Structural)]
pub struct Settings {
    pub limit: u32,
}

impl Storing for Settings {
    open spec fn store_type_spec() -> StoringType {
        StoringType::Config
    }

    open spec fn default_spec() -> Self {
        Settings { limit: 0 }
    }

    open spec fn encode_spec(self) -> Seq<char> {
        decimal_digits(self.limit as nat)
    }

    open spec fn decode_spec(text: Seq<char>) -> Option<Self> {
        match ron_u32(text) {
            Some(limit) => Some(Settings { limit }),
            None => None,
        }
    }

    fn store_type() -> StoringType {
        StoringType::Config
    }

    fn default_value() -> Self {
        Settings { limit: 0 }
    }

    fn encode(&self) -> String {
        ron_encode_u32(self.limit)
    }

    fn decode(text: &str) -> Option<Self> {
        match ron_decode_u32(text) {
            Some(limit) => Some(Settings { limit }),
            None => None,
        }
    }
}

} // verus!

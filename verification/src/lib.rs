//! Read-only access to the keys and values of a Windows registry hive.
//!
//! A [`Hive`] takes the bytes of a hive file. Its keys ([`KeyNode`]), their values
//! ([`KeyValue`]) and the names of both ([`NtHiveNameString`]) are views into these bytes:
//! nothing is copied until a caller asks for a `String` or a `Vec`.
//! Every access checks bounds and signatures, so that truncated or corrupt hives are
//! reported as an [`NtHiveError`] with the position of what is at fault.
//!
//! * [`hive`] resolves data offsets to cells, [`bytes`] reads the integers of the format.
//! * [`key_node`] and [`key_value`] read keys and values; [`big_data`] and [`multi_sz`]
//!   read data that is split into segments and lists of strings; [`text`] says where
//!   a string in value data ends.
//! * [`leaf`] and [`index_root`] read the lists of subkeys; [`lookup`] and [`root_lookup`]
//!   find a subkey or a value by its name.
//! * [`laws`] states what holds of every hive.
//! * [`string`] holds names, [`name_order`] their case-insensitive order and its laws,
//!   [`case_table`] the uppercase table behind it, and [`units`] the UTF-16 code units
//!   that the order is defined on.
pub mod big_data;
pub mod bytes;
pub mod case_table;
pub mod error;
pub mod hive;
pub mod index_root;
pub mod key_node;
pub mod key_value;
pub mod laws;
pub mod leaf;
pub mod lookup;
pub mod multi_sz;
pub mod name_order;
pub mod root_lookup;
pub mod string;
pub mod text;
pub mod units;

pub use crate::big_data::BigDataSlices;
pub use crate::error::NtHiveError;
pub use crate::hive::Hive;
pub use crate::index_root::{IndexRootIter, InnerIterators};
pub use crate::key_node::{KeyNode, KeyValues, SubKeyNodes};
pub use crate::key_value::{KeyValue, KeyValueData, KeyValueDataType};
pub use crate::leaf::{FastLeafIter, HashLeafIter, IndexLeafIter, ListItems};
pub use crate::multi_sz::RegMultiSZStrings;
pub use crate::string::NtHiveNameString;

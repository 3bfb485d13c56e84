//! The configuration tree model: what collectd's parser hands a plugin.
//!
//! A tree is an ordered slice of nodes; each node carries a key, an ordered
//! list of scalar values, and an ordered list of child nodes. The tree is
//! built once by the host layer and read, never mutated, by the decoder.

use vstd::prelude::*;

verus! {

/// One scalar attached to a configuration node.
///
/// A number is carried as the bit pattern of the 64-bit IEEE-754 value the
/// host parsed; the decoder only tags and forwards it, so the bits are the
/// most it ever needs to know. The host layer converts to and from `f64`.
#[derive(Debug, Clone, PartialEq)]
pub enum ConfigValue {
    String(String),
    Number(u64),
    Boolean(bool),
}

/// One entry of the configuration tree: a key, the scalars on the same line,
/// and the nested block, in the order the host produced them.
#[derive(Debug, PartialEq)]
pub struct ConfigItem {
    pub key: String,
    pub values: Vec<ConfigValue>,
    pub children: Vec<ConfigItem>,
}

} // verus!

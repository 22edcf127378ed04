use vstd::prelude::*;

use crate::ledger::DEFAULT_TRANSFER_FEE;

verus! {

/// The token's name, for display only.
pub const NAME: &'static str = "DHT Token";

/// The token's ticker symbol.
pub const SYMBOL: &'static str = "DHT";

/// Display precision: minor units per whole token is ten to this power.
pub const DECIMALS: u8 = 8;

/// The protocol version string exposed through the metadata table.
pub const VERSION: &'static str = "1.3.0";

/// A typed metadata value: text, a small integer, or an unbounded-range
/// natural in minor units.
#[derive(Debug, PartialEq, Eq)]
pub enum MetadataValue {
    Text(String),
    Nat8(u8),
    Nat(u128),
}

/// The fixed metadata table, in its fixed order: protocol version, token
/// name, symbol, decimal precision, and transfer fee.
pub open spec fn spec_metadata(s: Seq<(String, MetadataValue)>) -> bool {
    &&& s.len() == 5
    &&& s[0].0@ == "icrc1:version"@ && (s[0].1 matches MetadataValue::Text(v) && v@ == "1.3.0"@)
    &&& s[1].0@ == "icrc1:name"@ && (s[1].1 matches MetadataValue::Text(v) && v@ == "DHT Token"@)
    &&& s[2].0@ == "icrc1:symbol"@ && (s[2].1 matches MetadataValue::Text(v) && v@ == "DHT"@)
    &&& s[3].0@ == "icrc1:decimals"@ && (s[3].1 matches MetadataValue::Nat8(d) && d == DECIMALS)
    &&& s[4].0@ == "icrc1:fee"@ && (s[4].1 matches MetadataValue::Nat(f) && f
        == DEFAULT_TRANSFER_FEE)
}

/// A small, lazily populated, read-only table of ledger constants, exposed
/// for client introspection and never touching account state.
pub struct MetadataRegistry {
    pub cache: Vec<(String, MetadataValue)>,
}

/// The five metadata entries, freshly built.
fn build_metadata() -> (r: Vec<(String, MetadataValue)>)
    ensures
        spec_metadata(r@),
{
    let mut data: Vec<(String, MetadataValue)> = Vec::new();
    data.push(("icrc1:version".to_owned(), MetadataValue::Text("1.3.0".to_owned())));
    data.push(("icrc1:name".to_owned(), MetadataValue::Text("DHT Token".to_owned())));
    data.push(("icrc1:symbol".to_owned(), MetadataValue::Text("DHT".to_owned())));
    data.push(("icrc1:decimals".to_owned(), MetadataValue::Nat8(DECIMALS)));
    data.push(("icrc1:fee".to_owned(), MetadataValue::Nat(DEFAULT_TRANSFER_FEE)));
    data
}

impl MetadataRegistry {
    /// Whether the cache is either still empty or already holds the table.
    pub open spec fn wf(&self) -> bool {
        self.cache@.len() == 0 || spec_metadata(self.cache@)
    }

    /// A registry with nothing computed yet.
    pub fn new() -> (r: MetadataRegistry)
        ensures
            r.wf(),
    {
        MetadataRegistry { cache: Vec::new() }
    }

    /// The metadata table: computed on first read, cached for every read
    /// after, and the same fixed sequence either way.
    pub fn metadata(&mut self) -> (r: Vec<(String, MetadataValue)>)
        requires
            old(self).wf(),
        ensures
            final(self).wf(),
            spec_metadata(r@),
            spec_metadata(final(self).cache@),
    {
        if self.cache.is_empty() {
            self.cache = build_metadata();
        }
        build_metadata()
    }
}

} // verus!

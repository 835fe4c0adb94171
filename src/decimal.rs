use vstd::prelude::*;

verus! {

/// The key under which a provider serves a record: a category, a name
/// within it, and a version.
pub struct DataKey {
    pub category: String,
    pub sub_category: String,
    pub version: u32,
}

impl DataKey {
    /// Whether two keys name the same record.
    pub fn matches(&self, other: &DataKey) -> (r: bool)
        ensures
            r == (self.category@ == other.category@ && self.sub_category@
                == other.sub_category@ && self.version == other.version),
    {
        self.category == other.category && self.sub_category == other.sub_category
            && self.version == other.version
    }
}

/// The key of the decimal symbols record, version 1.
pub fn symbols_v1_key() -> (r: DataKey)
    ensures
        r.category@ == "decimal"@,
        r.sub_category@ == "symbols"@,
        r.version == 1,
{
    DataKey { category: "decimal".to_owned(), sub_category: "symbols".to_owned(), version: 1 }
}

/// The symbols a locale writes decimal numbers with.
#[derive(Debug)]
pub struct SymbolsV1 {
    pub zero_digit: char,
    pub decimal_separator: String,
    pub grouping_separator: String,
}

/// Whether `s` holds the locale-invariant decimal symbols: digit zero `0`,
/// decimal separator `.`, grouping separator `,`.
pub open spec fn is_invariant_symbols(s: SymbolsV1) -> bool {
    &&& s.zero_digit == '0'
    &&& s.decimal_separator@ == "."@
    &&& s.grouping_separator@ == ","@
}

impl Default for SymbolsV1 {
    fn default() -> (r: SymbolsV1)
        ensures
            is_invariant_symbols(r),
    {
        SymbolsV1 {
            zero_digit: '0',
            decimal_separator: ".".to_owned(),
            grouping_separator: ",".to_owned(),
        }
    }
}

/// The locale-invariant default record of this category for `data_key`:
/// the invariant decimal symbols for the symbols key, none for any other.
pub fn get_invariant(data_key: &DataKey) -> (r: Option<SymbolsV1>)
    ensures
        (data_key.category@ == "decimal"@ && data_key.sub_category@ == "symbols"@
            && data_key.version == 1) <==> r is Some,
        r is Some ==> is_invariant_symbols(r->Some_0),
{
    if data_key.matches(&symbols_v1_key()) {
        Some(SymbolsV1::default())
    } else {
        None
    }
}

} // verus!

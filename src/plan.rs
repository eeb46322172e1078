use vstd::prelude::*;
use crate::error::ScanError;
use vstd::utf8::encode_utf8;
use crate::schema::{Field, schema_view, tick_schema, tick_schema_spec};

verus! {

/// The kind of table a provider declares itself to be.
#[derive(Clone, Copy, Debug, PartialEq, Eq, Structural)]
pub enum TableKind {
    Base,
    View,
}

/// The scan operator: a leaf of the query plan that scans one symbol's ticks
/// through a single, unordered partition.
#[derive(Clone, Debug)]
pub struct TachyonExec {
    pub symbol: String,
}

/// The catalog entry for one symbol's tick series.
#[derive(Clone, Debug)]
pub struct TachyonTableProvider {
    pub symbol: String,
}

/// Whether a text can cross the native boundary as a NUL-terminated string.
pub open spec fn is_native_symbol(bytes: Seq<u8>) -> bool {
    !bytes.contains(0u8)
}

/// The text an operator describes itself with.
pub open spec fn exec_label(symbol: Seq<char>) -> Seq<char> {
    "TachyonExec: symbol="@ + symbol
}

impl TachyonExec {
    /// An operator over the given symbol.
    pub fn new(symbol: String) -> (r: TachyonExec)
        ensures
            r.symbol@ == symbol@,
    {
        TachyonExec { symbol }
    }

    /// The fixed tick schema.
    pub fn schema(&self) -> (r: Vec<Field>)
        ensures
            schema_view(r@) =~= tick_schema_spec(),
    {
        tick_schema()
    }

    /// The operator produces one partition, with no order promised.
    pub fn output_partition_count(&self) -> (r: usize)
        ensures
            r == 1,
    {
        1
    }

    /// The operator is a leaf of the plan.
    pub fn children_count(&self) -> (r: usize)
        ensures
            r == 0,
    {
        0
    }

    /// Re-parenting: a leaf accepts an empty list of children and stays as it is;
    /// any other list is refused.
    pub fn with_new_children(self, children: usize) -> (r: Result<TachyonExec, ScanError>)
        ensures
            children == 0 <==> r is Ok,
            children == 0 ==> r->Ok_0.symbol@ == self.symbol@,
            children != 0 ==> r == Err::<TachyonExec, ScanError>(
                ScanError::UnexpectedChildren { count: children },
            ),
    {
        if children == 0 {
            Ok(self)
        } else {
            Err(ScanError::UnexpectedChildren { count: children })
        }
    }

    /// The bytes handed to the native open call: the symbol's UTF-8 bytes, refused
    /// where they hold a NUL byte.
    pub fn execute(&self) -> (r: Result<Vec<u8>, ScanError>)
        ensures
            is_native_symbol(encode_utf8(self.symbol@)) <==> r is Ok,
            r is Ok ==> r->Ok_0@ == encode_utf8(self.symbol@),
            r is Err ==> r == Err::<Vec<u8>, ScanError>(ScanError::InvalidSymbol),
    {
        native_symbol(self.symbol.as_str())
    }

    /// A one-line description for plan displays.
    pub fn display(&self) -> (r: String)
        ensures
            r@ == exec_label(self.symbol@),
    {
        let mut r = String::from_str("TachyonExec: symbol=");
        proof {
            reveal_strlit("TachyonExec: symbol=");
        }
        r.append(self.symbol.as_str());
        r
    }
}

/// Copies a symbol's bytes for the native open call, refusing one with a NUL byte.
pub fn native_symbol(symbol: &str) -> (r: Result<Vec<u8>, ScanError>)
    ensures
        is_native_symbol(encode_utf8(symbol@)) <==> r is Ok,
        r is Ok ==> r->Ok_0@ == encode_utf8(symbol@),
        r is Err ==> r == Err::<Vec<u8>, ScanError>(ScanError::InvalidSymbol),
{
    let bytes = symbol.as_bytes();
    let mut out: Vec<u8> = Vec::with_capacity(bytes.len());
    let mut i: usize = 0;
    while i < bytes.len()
        invariant
            bytes@ == encode_utf8(symbol@),
            i <= bytes@.len(),
            out@ == bytes@.subrange(0, i as int),
            !out@.contains(0u8),
        decreases bytes@.len() - i,
    {
        if bytes[i] == 0 {
            assert(bytes@[i as int] == 0u8);
            return Err(ScanError::InvalidSymbol);
        }
        out.push(bytes[i]);
        i = i + 1;
        assert(out@ =~= bytes@.subrange(0, i as int));
    }
    assert(out@ =~= bytes@);
    Ok(out)
}

impl TachyonTableProvider {
    /// A provider for the given symbol.
    pub fn new(symbol: &str) -> (r: TachyonTableProvider)
        ensures
            r.symbol@ == symbol@,
    {
        TachyonTableProvider { symbol: String::from_str(symbol) }
    }

    /// The fixed tick schema.
    pub fn schema(&self) -> (r: Vec<Field>)
        ensures
            schema_view(r@) =~= tick_schema_spec(),
    {
        tick_schema()
    }

    /// The provider is a base table, not a view.
    pub fn table_type(&self) -> (r: TableKind)
        ensures
            r == TableKind::Base,
    {
        TableKind::Base
    }

    /// Builds the scan operator for this provider's symbol.
    ///
    /// The projection and the row limit are accepted as hints and not acted on:
    /// the operator always produces every column and every row, which the engine
    /// then projects and limits itself.
    pub fn scan(&self, projection: Option<&Vec<usize>>, limit: Option<usize>) -> (r: TachyonExec)
        ensures
            r.symbol@ == self.symbol@,
    {
        TachyonExec { symbol: self.symbol.clone() }
    }
}

} // verus!

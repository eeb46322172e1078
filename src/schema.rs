use vstd::prelude::*;

verus! {

/// The value type of one column of a tick batch.
#[derive(Clone, Copy, Debug, PartialEq, Eq, Structural)]
pub enum ColumnType {
    /// Nanoseconds since the epoch, no time zone.
    TimestampNanos,
    /// A 64-bit IEEE-754 float, carried as its bit pattern.
    Float64,
}

/// One column of the tick schema.
#[derive(Clone, Debug)]
pub struct Field {
    pub name: String,
    pub data_type: ColumnType,
    pub nullable: bool,
}

/// The name, type and nullability of a field, as plain values.
pub open spec fn field_view(f: Field) -> (Seq<char>, ColumnType, bool) {
    (f.name@, f.data_type, f.nullable)
}

/// The fixed three-column schema every batch of a tick scan has, in column order.
pub open spec fn tick_schema_spec() -> Seq<(Seq<char>, ColumnType, bool)> {
    seq![
        ("ts"@, ColumnType::TimestampNanos, false),
        ("bid"@, ColumnType::Float64, false),
        ("ask"@, ColumnType::Float64, false),
    ]
}

/// A schema as a sequence of plain field descriptions.
pub open spec fn schema_view(s: Seq<Field>) -> Seq<(Seq<char>, ColumnType, bool)> {
    s.map_values(|f: Field| field_view(f))
}

/// Builds the tick schema: `ts` (timestamp), `bid` and `ask` (floats), none nullable.
pub fn tick_schema() -> (r: Vec<Field>)
    ensures
        schema_view(r@) =~= tick_schema_spec(),
{
    let ts = Field { name: String::from_str("ts"), data_type: ColumnType::TimestampNanos, nullable: false };
    let bid = Field { name: String::from_str("bid"), data_type: ColumnType::Float64, nullable: false };
    let ask = Field { name: String::from_str("ask"), data_type: ColumnType::Float64, nullable: false };
    let mut r: Vec<Field> = Vec::new();
    r.push(ts);
    r.push(bid);
    r.push(ask);
    assert(schema_view(r@) =~= tick_schema_spec()) by {
        assert(field_view(r@[0]) == tick_schema_spec()[0]);
        assert(field_view(r@[1]) == tick_schema_spec()[1]);
        assert(field_view(r@[2]) == tick_schema_spec()[2]);
    }
    r
}

} // verus!

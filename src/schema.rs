use vstd::prelude::*;

verus! {

/// The create-if-absent statement for the target table: a store-assigned
/// identity key, then the fifteen record columns in order.
pub open spec fn table_ddl() -> Seq<char> {
    "CREATE TABLE IF NOT EXISTS firenibble (f0 BIGINT PRIMARY KEY GENERATED ALWAYS AS IDENTITY, f1 BIGINT, f2 BIGINT, f3 INTEGER, f4 DOUBLE PRECISION, f5 DOUBLE PRECISION, f6 DOUBLE PRECISION, f7 DOUBLE PRECISION, f8 VARCHAR, f9 VARCHAR, f10 DATE, f11 DATE, f12 DATE, f13 VARCHAR, f14 VARCHAR, f15 VARCHAR)"@
}

/// The statement that opens the bulk-load channel for the fifteen record
/// columns in binary form.
pub open spec fn copy_statement() -> Seq<char> {
    "COPY firenibble(f1,f2,f3,f4,f5,f6,f7,f8,f9,f10,f11,f12,f13,f14,f15) FROM STDIN BINARY"@
}

/// The statement that provisions the target table; it leaves an existing
/// table as it is, so issuing it once before any load is idempotent.
pub fn setup_table() -> (r: String)
    ensures
        r@ == table_ddl(),
{
    "CREATE TABLE IF NOT EXISTS firenibble (f0 BIGINT PRIMARY KEY GENERATED ALWAYS AS IDENTITY, f1 BIGINT, f2 BIGINT, f3 INTEGER, f4 DOUBLE PRECISION, f5 DOUBLE PRECISION, f6 DOUBLE PRECISION, f7 DOUBLE PRECISION, f8 VARCHAR, f9 VARCHAR, f10 DATE, f11 DATE, f12 DATE, f13 VARCHAR, f14 VARCHAR, f15 VARCHAR)".to_owned()
}

/// The statement that opens one batch's bulk load.
pub fn copy_in_statement() -> (r: String)
    ensures
        r@ == copy_statement(),
{
    "COPY firenibble(f1,f2,f3,f4,f5,f6,f7,f8,f9,f10,f11,f12,f13,f14,f15) FROM STDIN BINARY".to_owned()
}

} // verus!

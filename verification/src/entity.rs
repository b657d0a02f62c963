use crate::builder::{QueryBuilder, QueryKind, Select};
use crate::column::Column;
use vstd::prelude::*;

verus! {

/// A builder seeded for an entity: a fresh SELECT on the entity's table,
/// projecting the entity's column list.
pub open spec fn is_seeded_select<C: Column>(
    r: QueryBuilder<Select, C>,
    table: Seq<char>,
    columns: Seq<C>,
) -> bool {
    &&& r.table@ == table
    &&& r.kind == QueryKind::Select
    &&& r.columns matches Some(cols) && cols@ == columns
    &&& r.values is None
    &&& r.set is None
    &&& r.on_conflict is None
    &&& r.returning is None
    &&& r.filter is None
    &&& r.limit is None
    &&& r.offset is None
    &&& r.order_by@.len() == 0
}

/// One persisted entity: a table name, a closed column enumeration, and a
/// designated primary-key column.
pub trait Entity {
    type C: Column;

    /// The table's name.
    spec fn table_name_spec() -> Seq<char>;

    /// The persisted columns, in declaration order.
    spec fn columns_spec() -> Seq<Self::C>;

    /// The designated primary-key column.
    spec fn primary_key_spec() -> Self::C;

    /// Returns the table name.
    fn table_name() -> (r: &'static str)
        ensures
            r@ == Self::table_name_spec(),
    ;

    /// Returns the persisted columns, in declaration order.
    fn columns() -> (r: Vec<Self::C>)
        ensures
            r@ == Self::columns_spec(),
    ;

    /// Returns the primary-key column.
    fn primary_key() -> (r: Self::C)
        ensures
            r == Self::primary_key_spec(),
    ;

    /// A SELECT builder pre-seeded with this entity's table and columns.
    fn query() -> (r: QueryBuilder<Select, Self::C>)
        ensures
            is_seeded_select(r, Self::table_name_spec(), Self::columns_spec()),
    {
        QueryBuilder::select_from(Self::table_name()).columns(Self::columns())
    }
}

} // verus!

use crate::builder::{QueryBuilder, Select};
use crate::entity::{is_seeded_select, Entity};
use crate::expr::Expr;
use vstd::prelude::*;

verus! {

/// A resolved one-row relation: the filter that selects exactly the related
/// row of the target entity. It caches nothing; turning it into a query
/// re-issues the filter each time, and the execution boundary loads the row.
pub struct Reference<RE: Entity> {
    pub filter: Expr<RE::C>,
}

impl<RE: Entity> Reference<RE> {
    /// Wraps a resolved relation filter.
    pub fn new(filter: Expr<RE::C>) -> (r: Self)
        ensures
            r.filter == filter,
    {
        Reference { filter }
    }

    /// The target entity's seeded SELECT, filtered to the related row.
    pub fn query(self) -> (r: QueryBuilder<Select, RE::C>)
        ensures
            r.filter matches Some(f) && f == self.filter,
            is_seeded_select(
                QueryBuilder { filter: None, ..r },
                RE::table_name_spec(),
                RE::columns_spec(),
            ),
    {
        RE::query().filter(self.filter)
    }
}

} // verus!

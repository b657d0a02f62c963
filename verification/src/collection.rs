use crate::builder::{QueryBuilder, Select};
use crate::entity::{is_seeded_select, Entity};
use crate::expr::Expr;
use vstd::prelude::*;

verus! {

/// A resolved zero-or-more-row relation: the filter that selects the rows of
/// the target entity whose foreign key points back at the owner. It caches
/// nothing; turning it into a query re-issues the filter each time, and the
/// resulting builder takes further filters before the execution boundary
/// loads the rows.
pub struct Collection<RE: Entity> {
    pub filter: Expr<RE::C>,
}

impl<RE: Entity> Collection<RE> {
    /// Wraps a resolved relation filter.
    pub fn new(filter: Expr<RE::C>) -> (r: Self)
        ensures
            r.filter == filter,
    {
        Collection { filter }
    }

    /// The target entity's seeded SELECT, filtered to the related rows.
    pub fn query(self) -> (r: QueryBuilder<Select, RE::C>)
        ensures
            r.filter matches Some(f) && f == self.filter,
            is_seeded_select(
                QueryBuilder { filter: None, ..r },
                RE::table_name_spec(),
                RE::columns_spec(),
            ),
    {
        RE::query().filter(self.filter)
    }
}

} // verus!

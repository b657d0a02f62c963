use crate::column::{Column, ColumnExpr};
use crate::entity::Entity;
use crate::expr::Expr;
use crate::reference::Reference;
use crate::value::Value;
use vstd::prelude::*;

verus! {

/// The owning side of a relation holds the foreign key. Its accessor builds
/// "the referenced entity's key column equals my foreign-key value": a
/// reference that selects exactly the row the foreign key points at.
pub fn owning_reference<RE: Entity>(references: RE::C, foreign_key_value: Value) -> (r: Reference<
    RE,
>)
    ensures
        r.filter matches Expr::Equal(c, v) && c == references && v == foreign_key_value,
{
    Reference::new(references.eq(foreign_key_value))
}

/// The filter the owning side builds on the inverse side's behalf: "my
/// foreign-key column equals the referenced entity's key value". The inverse
/// side passes itself in and never needs to know the owning side's field
/// layout; each owning entity exposes one such helper per declared relation.
pub fn inversed_filter<C: Column>(foreign_key: C, key_value: Value) -> (r: Expr<C>)
    ensures
        r matches Expr::Equal(c, v) && c == foreign_key && v == key_value,
{
    foreign_key.eq(key_value)
}

/// What an equality predicate asks of a row, a row modelled as the map from
/// each column to the value its field holds: equality against `Null` holds
/// of rows whose field is NULL, and equality against any other value holds
/// of rows whose field equals it.
pub open spec fn eq_matches<C: Column>(col: C, v: Value, row: Map<C, Value>) -> bool {
    if v is Null {
        row[col] is Null
    } else {
        row[col] == v
    }
}

/// The two sides of a relation are exact logical inverses. Take an owner row
/// holding `owner_fk` in its foreign-key field and a target row holding
/// `target_key` in its key field. The owning side's reference filters on
/// "key column = owner's foreign key"; the inverse side's collection filters
/// on "foreign-key column = target's key". The first matches the target row
/// exactly when the second matches the owner row: both say that the foreign
/// key and the key agree.
pub proof fn lemma_relation_round_trip<CO: Column, CT: Column>(
    fk_col: CO,
    owner_row: Map<CO, Value>,
    owner_fk: Value,
    key_col: CT,
    target_row: Map<CT, Value>,
    target_key: Value,
)
    requires
        owner_row.dom().contains(fk_col),
        owner_row[fk_col] == owner_fk,
        !(owner_fk is Null),
        target_row.dom().contains(key_col),
        target_row[key_col] == target_key,
        !(target_key is Null),
    ensures
        eq_matches(key_col, owner_fk, target_row) <==> eq_matches(fk_col, target_key, owner_row),
{
}

} // verus!

use crate::expr::Expr;
use crate::ordering::ColumnOrdering;
use crate::text::quoted;
use crate::value::Value;
use vstd::prelude::*;

verus! {

/// A typed identifier for one persisted field of an entity.
///
/// Implementations are finite, copyable enumerations; each variant maps to
/// exactly one field name, which `to_col_name` returns and `write` appends
/// wrapped in double quotes.
pub trait Column: Sized + Copy {
    /// The field name this column stands for.
    spec fn name_spec(&self) -> Seq<char>;

    /// Returns the field name used as the SQL identifier.
    fn to_col_name(&self) -> (r: &str)
        ensures
            r@ == self.name_spec(),
    ;

    /// Appends the name quoted as an identifier.
    fn write(&self, f: &mut String)
        ensures
            final(f)@ == old(f)@ + quoted(self.name_spec()),
    {
        crate::text::push_quoted(f, self.to_col_name());
    }
}

/// Expression and ordering constructors available on every column value.
pub trait ColumnExpr: Column {
    /// An equality predicate; equality against `Null` later renders `IS NULL`.
    fn eq(self, value: Value) -> (r: Expr<Self>)
        ensures
            r matches Expr::Equal(c, v) && c == self && v == value,
    {
        Expr::Equal(self, value)
    }

    /// A strict greater-than predicate.
    fn gt(self, value: Value) -> (r: Expr<Self>)
        ensures
            r matches Expr::Gt(c, v) && c == self && v == value,
    {
        Expr::Gt(self, value)
    }

    /// A strict less-than predicate.
    fn lt(self, value: Value) -> (r: Expr<Self>)
        ensures
            r matches Expr::Lt(c, v) && c == self && v == value,
    {
        Expr::Lt(self, value)
    }

    /// A pattern-match predicate.
    fn like(self, value: Value) -> (r: Expr<Self>)
        ensures
            r matches Expr::Like(c, v) && c == self && v == value,
    {
        Expr::Like(self, value)
    }

    /// A membership predicate over an ordered list of values.
    fn in_list(self, values: Vec<Value>) -> (r: Expr<Self>)
        ensures
            r matches Expr::In(c, vs) && c == self && vs@ == values@,
    {
        Expr::In(self, values)
    }

    /// Shorthand for an equality test against `Null`.
    fn is_null(self) -> (r: Expr<Self>)
        ensures
            r matches Expr::Equal(c, v) && c == self && v is Null,
    {
        Expr::Equal(self, Value::Null)
    }

    /// Ascending ordering directive.
    fn asc(self) -> (r: ColumnOrdering<Self>)
        ensures
            r == ColumnOrdering::Asc(self),
    {
        ColumnOrdering::Asc(self)
    }

    /// Descending ordering directive.
    fn desc(self) -> (r: ColumnOrdering<Self>)
        ensures
            r == ColumnOrdering::Desc(self),
    {
        ColumnOrdering::Desc(self)
    }

    /// Ascending, with nulls sorted first.
    fn asc_nulls_first(self) -> (r: ColumnOrdering<Self>)
        ensures
            r == ColumnOrdering::AscNullsFirst(self),
    {
        ColumnOrdering::AscNullsFirst(self)
    }

    /// Ascending, with nulls sorted last.
    fn asc_nulls_last(self) -> (r: ColumnOrdering<Self>)
        ensures
            r == ColumnOrdering::AscNullsLast(self),
    {
        ColumnOrdering::AscNullsLast(self)
    }

    /// Descending, with nulls sorted first.
    fn desc_nulls_first(self) -> (r: ColumnOrdering<Self>)
        ensures
            r == ColumnOrdering::DescNullsFirst(self),
    {
        ColumnOrdering::DescNullsFirst(self)
    }

    /// Descending, with nulls sorted last.
    fn desc_nulls_last(self) -> (r: ColumnOrdering<Self>)
        ensures
            r == ColumnOrdering::DescNullsLast(self),
    {
        ColumnOrdering::DescNullsLast(self)
    }
}

impl<C: Column> ColumnExpr for C {

}

} // verus!

use crate::column::Column;
use crate::text::quoted;
use vstd::prelude::*;
use vstd::string::StringExecFns;

verus! {

/// A bare sort direction with its nulls placement, rendered without a
/// column: the keyword part of one ORDER BY entry.
#[derive(Debug, Clone, Copy)]
pub enum Ordering {
    Asc,
    Desc,
    AscNullsFirst,
    AscNullsLast,
    DescNullsFirst,
    DescNullsLast,
}

impl Ordering {
    /// How this direction appears in rendered SQL.
    pub open spec fn sql(self) -> Seq<char> {
        match self {
            Ordering::Asc => "ASC"@,
            Ordering::Desc => "DESC"@,
            Ordering::AscNullsFirst => "ASC NULLS FIRST"@,
            Ordering::AscNullsLast => "ASC NULLS LAST"@,
            Ordering::DescNullsFirst => "DESC NULLS FIRST"@,
            Ordering::DescNullsLast => "DESC NULLS LAST"@,
        }
    }

    /// Appends the rendered direction keywords.
    pub fn write(&self, f: &mut String)
        ensures
            final(f)@ == old(f)@ + self.sql(),
    {
        match self {
            Ordering::Asc => f.append("ASC"),
            Ordering::Desc => f.append("DESC"),
            Ordering::AscNullsFirst => f.append("ASC NULLS FIRST"),
            Ordering::AscNullsLast => f.append("ASC NULLS LAST"),
            Ordering::DescNullsFirst => f.append("DESC NULLS FIRST"),
            Ordering::DescNullsLast => f.append("DESC NULLS LAST"),
        }
    }
}

/// One ORDER BY directive: a column together with a sort direction and,
/// optionally, where nulls are placed.
#[derive(Debug, Clone, Copy)]
pub enum ColumnOrdering<C: Column> {
    Asc(C),
    Desc(C),
    AscNullsFirst(C),
    AscNullsLast(C),
    DescNullsFirst(C),
    DescNullsLast(C),
}

impl<C: Column> ColumnOrdering<C> {
    /// How this directive appears in rendered SQL.
    pub open spec fn sql(self) -> Seq<char> {
        match self {
            ColumnOrdering::Asc(c) => quoted(c.name_spec()) + " ASC"@,
            ColumnOrdering::Desc(c) => quoted(c.name_spec()) + " DESC"@,
            ColumnOrdering::AscNullsFirst(c) => quoted(c.name_spec()) + " ASC NULLS FIRST"@,
            ColumnOrdering::AscNullsLast(c) => quoted(c.name_spec()) + " ASC NULLS LAST"@,
            ColumnOrdering::DescNullsFirst(c) => quoted(c.name_spec()) + " DESC NULLS FIRST"@,
            ColumnOrdering::DescNullsLast(c) => quoted(c.name_spec()) + " DESC NULLS LAST"@,
        }
    }

    /// The column this directive orders by.
    pub open spec fn column(self) -> C {
        match self {
            ColumnOrdering::Asc(c) => c,
            ColumnOrdering::Desc(c) => c,
            ColumnOrdering::AscNullsFirst(c) => c,
            ColumnOrdering::AscNullsLast(c) => c,
            ColumnOrdering::DescNullsFirst(c) => c,
            ColumnOrdering::DescNullsLast(c) => c,
        }
    }

    /// Appends the rendered directive.
    pub fn write(&self, f: &mut String)
        ensures
            final(f)@ == old(f)@ + self.sql(),
    {
        match self {
            ColumnOrdering::Asc(c) => {
                c.write(f);
                f.append(" ASC");
            },
            ColumnOrdering::Desc(c) => {
                c.write(f);
                f.append(" DESC");
            },
            ColumnOrdering::AscNullsFirst(c) => {
                c.write(f);
                f.append(" ASC NULLS FIRST");
            },
            ColumnOrdering::AscNullsLast(c) => {
                c.write(f);
                f.append(" ASC NULLS LAST");
            },
            ColumnOrdering::DescNullsFirst(c) => {
                c.write(f);
                f.append(" DESC NULLS FIRST");
            },
            ColumnOrdering::DescNullsLast(c) => {
                c.write(f);
                f.append(" DESC NULLS LAST");
            },
        }
    }
}

} // verus!

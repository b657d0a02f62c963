use crate::column::Column;
use crate::expr::{lemma_count_lit_one_placeholder, lemma_placeholder_value_correspondence,
    lemma_placeholders_count, placeholders, Expr};
use crate::ordering::ColumnOrdering;
use crate::text::{count_char, dec_i64, lemma_count_char_absent, lemma_count_char_concat,
    lemma_count_quoted, lemma_dec_i64_placeholder_free, placeholder_free, push_dec_i64, quoted};
use crate::value::Value;
use core::marker::PhantomData;
use vstd::prelude::*;
use vstd::string::StringExecFns;

verus! {

/// Marker for a SELECT statement builder.
pub struct Select;

/// Marker for an INSERT statement builder.
pub struct Insert;

/// Marker for an UPDATE statement builder.
pub struct Update;

/// Marker for a DELETE statement builder.
pub struct Delete;

/// Marker for an INSERT builder that has taken an ON CONFLICT clause; only
/// `set` and `returning` remain before rendering.
pub struct OnConflicted;

/// The statement kind a builder renders, carried at the value level.
#[derive(Debug, Clone, Copy, PartialEq, Eq, Structural)]
pub enum QueryKind {
    Select,
    Insert,
    Update,
    Delete,
}

/// Resolution policy for an INSERT's ON CONFLICT clause.
#[derive(Debug, Clone, Copy, PartialEq, Eq, Structural)]
pub enum OnConflict {
    Ignore,
    Update,
}

/// One or several values of one type, normalized to a vector; lets
/// `on_conflict` take a single column or a small tuple of columns.
pub trait Veccable<T>: Sized {
    /// The values, in the order they were given.
    spec fn vec_spec(self) -> Seq<T>;

    /// Collects the values into a vector.
    fn to_vec(self) -> (r: Vec<T>)
        ensures
            r@ == self.vec_spec(),
    ;
}

impl<T> Veccable<T> for T {
    open spec fn vec_spec(self) -> Seq<T> {
        seq![self]
    }

    fn to_vec(self) -> (r: Vec<T>) {
        let mut r = Vec::new();
        r.push(self);
        r
    }
}

impl<T: Copy> Veccable<T> for (T, T) {
    open spec fn vec_spec(self) -> Seq<T> {
        seq![self.0, self.1]
    }

    fn to_vec(self) -> (r: Vec<T>) {
        let mut r = Vec::new();
        r.push(self.0);
        r.push(self.1);
        r
    }
}

impl<T: Copy> Veccable<T> for (T, T, T) {
    open spec fn vec_spec(self) -> Seq<T> {
        seq![self.0, self.1, self.2]
    }

    fn to_vec(self) -> (r: Vec<T>) {
        let mut r = Vec::new();
        r.push(self.0);
        r.push(self.1);
        r.push(self.2);
        r
    }
}

/// Comma-joined quoted column names.
pub open spec fn join_columns<C: Column>(cols: Seq<C>) -> Seq<char>
    decreases cols.len(),
{
    if cols.len() == 0 {
        Seq::<char>::empty()
    } else if cols.len() == 1 {
        quoted(cols[0].name_spec())
    } else {
        join_columns(cols.drop_last()) + ", "@ + quoted(cols.last().name_spec())
    }
}

/// Comma-joined quoted column names of assignment pairs.
pub open spec fn join_pair_columns<C: Column>(vs: Seq<(C, Value)>) -> Seq<char>
    decreases vs.len(),
{
    if vs.len() == 0 {
        Seq::<char>::empty()
    } else if vs.len() == 1 {
        quoted(vs[0].0.name_spec())
    } else {
        join_pair_columns(vs.drop_last()) + ", "@ + quoted(vs.last().0.name_spec())
    }
}

/// Comma-joined `"name" = ?` assignments.
pub open spec fn join_assignments<C: Column>(vs: Seq<(C, Value)>) -> Seq<char>
    decreases vs.len(),
{
    if vs.len() == 0 {
        Seq::<char>::empty()
    } else if vs.len() == 1 {
        quoted(vs[0].0.name_spec()) + " = ?"@
    } else {
        join_assignments(vs.drop_last()) + ", "@ + quoted(vs.last().0.name_spec()) + " = ?"@
    }
}

/// The values of assignment pairs, in order.
pub open spec fn pair_values<C: Column>(vs: Seq<(C, Value)>) -> Seq<Value>
    decreases vs.len(),
{
    if vs.len() == 0 {
        Seq::<Value>::empty()
    } else {
        pair_values(vs.drop_last()) + seq![vs.last().1]
    }
}

/// Comma-joined ordering directives.
pub open spec fn join_orderings<C: Column>(os: Seq<ColumnOrdering<C>>) -> Seq<char>
    decreases os.len(),
{
    if os.len() == 0 {
        Seq::<char>::empty()
    } else if os.len() == 1 {
        os[0].sql()
    } else {
        join_orderings(os.drop_last()) + ", "@ + os.last().sql()
    }
}

/// A single-use, incrementally configured accumulator of statement clauses.
///
/// The phantom parameter `S` tags the statement kind at the type level, so
/// that only the methods meaningful for that kind exist on the builder; the
/// `kind` field carries the same information at the value level, and the
/// well-formedness predicate `wf` ties each populated clause to the kinds
/// that may render it.
pub struct QueryBuilder<S, C: Column> {
    pub table: String,
    pub kind: QueryKind,
    pub columns: Option<Vec<C>>,
    pub values: Option<Vec<(C, Value)>>,
    pub set: Option<Vec<(C, Value)>>,
    pub on_conflict: Option<(Vec<C>, OnConflict)>,
    pub returning: Option<Vec<C>>,
    pub filter: Option<Expr<C>>,
    pub limit: Option<i64>,
    pub offset: Option<i64>,
    pub order_by: Vec<ColumnOrdering<C>>,
    pub _type: PhantomData<S>,
}

impl<S, C: Column> QueryBuilder<S, C> {
    /// Clause/kind compatibility: each facet may only be populated when the
    /// statement kind renders it.
    pub open spec fn wf(self) -> bool {
        &&& self.columns is Some ==> self.kind == QueryKind::Select
        &&& self.values is Some ==> self.kind == QueryKind::Insert
        &&& self.on_conflict is Some ==> self.kind == QueryKind::Insert
        &&& self.set is Some ==> (self.kind == QueryKind::Update || (self.kind
            == QueryKind::Insert && self.on_conflict is Some))
        &&& self.filter is Some ==> self.kind != QueryKind::Insert
        &&& self.order_by.len() > 0 ==> self.kind == QueryKind::Select
        &&& self.limit is Some ==> self.kind == QueryKind::Select
        &&& self.offset is Some ==> self.kind == QueryKind::Select
        &&& self.returning is Some ==> self.kind != QueryKind::Select
    }

    /// A builder may be rendered when it is well formed and, if its conflict
    /// policy is DO UPDATE, a SET list has been accumulated.
    pub open spec fn renderable(self) -> bool {
        &&& self.wf()
        &&& match self.on_conflict {
            Some(oc) => oc.1 == OnConflict::Update ==> self.set is Some,
            None => true,
        }
    }

    /// A just-constructed builder: the table and kind set, nothing else.
    pub open spec fn is_fresh(self, table: Seq<char>, kind: QueryKind) -> bool {
        &&& self.table@ == table
        &&& self.kind == kind
        &&& self.columns is None
        &&& self.values is None
        &&& self.set is None
        &&& self.on_conflict is None
        &&& self.returning is None
        &&& self.filter is None
        &&& self.limit is None
        &&& self.offset is None
        &&& self.order_by@ == Seq::<ColumnOrdering<C>>::empty()
    }

    /// The statement's leading keyword.
    pub open spec fn keyword(self) -> Seq<char> {
        match self.kind {
            QueryKind::Select => "SELECT "@,
            QueryKind::Insert => "INSERT INTO "@,
            QueryKind::Update => "UPDATE "@,
            QueryKind::Delete => "DELETE "@,
        }
    }

    /// The projection: explicit columns, or `*` for a bare SELECT.
    pub open spec fn projection_part(self) -> Seq<char> {
        match self.columns {
            Some(cols) => join_columns(cols@),
            None => if self.kind == QueryKind::Select {
                "*"@
            } else {
                Seq::<char>::empty()
            },
        }
    }

    /// The target table, prefixed with FROM for SELECT and DELETE.
    pub open spec fn target_part(self) -> Seq<char> {
        if self.kind == QueryKind::Select || self.kind == QueryKind::Delete {
            " FROM "@ + self.table@
        } else {
            self.table@
        }
    }

    /// The INSERT column/value list.
    pub open spec fn values_part(self) -> Seq<char> {
        match self.values {
            Some(vs) => " ("@ + join_pair_columns(vs@) + ") VALUES ("@ + placeholders(
                vs@.len() as int,
            ) + ")"@,
            None => Seq::<char>::empty(),
        }
    }

    /// The UPDATE SET clause; an INSERT's SET list renders only inside its
    /// ON CONFLICT clause.
    pub open spec fn set_part(self) -> Seq<char> {
        if self.kind == QueryKind::Update {
            match self.set {
                Some(s) => " SET "@ + join_assignments(s@),
                None => Seq::<char>::empty(),
            }
        } else {
            Seq::<char>::empty()
        }
    }

    /// The ON CONFLICT clause of an INSERT.
    pub open spec fn conflict_part(self) -> Seq<char> {
        if self.kind == QueryKind::Insert {
            match self.on_conflict {
                Some(oc) => " ON CONFLICT ("@ + join_columns(oc.0@) + ") "@ + (match oc.1 {
                    OnConflict::Ignore => "DO NOTHING"@,
                    OnConflict::Update => "DO UPDATE SET "@ + (match self.set {
                        Some(s) => join_assignments(s@),
                        None => Seq::<char>::empty(),
                    }),
                }),
                None => Seq::<char>::empty(),
            }
        } else {
            Seq::<char>::empty()
        }
    }

    /// The WHERE clause.
    pub open spec fn where_part(self) -> Seq<char> {
        match self.filter {
            Some(f) => " WHERE "@ + f.sql(),
            None => Seq::<char>::empty(),
        }
    }

    /// The ORDER BY clause, directives in the order they were added.
    pub open spec fn order_part(self) -> Seq<char> {
        if self.order_by.len() > 0 {
            " ORDER BY "@ + join_orderings(self.order_by@)
        } else {
            Seq::<char>::empty()
        }
    }

    /// The LIMIT clause, a literal integer.
    pub open spec fn limit_part(self) -> Seq<char> {
        match self.limit {
            Some(l) => " LIMIT "@ + dec_i64(l as int),
            None => Seq::<char>::empty(),
        }
    }

    /// The OFFSET clause, a literal integer.
    pub open spec fn offset_part(self) -> Seq<char> {
        match self.offset {
            Some(o) => " OFFSET "@ + dec_i64(o as int),
            None => Seq::<char>::empty(),
        }
    }

    /// The RETURNING clause.
    pub open spec fn returning_part(self) -> Seq<char> {
        match self.returning {
            Some(cols) => " RETURNING "@ + join_columns(cols@),
            None => Seq::<char>::empty(),
        }
    }

    /// The full rendered statement, clauses in fixed order.
    pub open spec fn sql(self) -> Seq<char> {
        self.keyword() + self.projection_part() + self.target_part() + self.values_part()
            + self.set_part() + self.conflict_part() + self.where_part() + self.order_part()
            + self.limit_part() + self.offset_part() + self.returning_part()
    }

    /// The bound values, in the order their placeholders appear: the INSERT
    /// value list, then the SET list (directly for UPDATE, inside the
    /// conflict clause for INSERT), then the filter's values.
    pub open spec fn vals(self) -> Seq<Value> {
        (match self.values {
            Some(vs) => pair_values(vs@),
            None => Seq::<Value>::empty(),
        }) + (if self.kind == QueryKind::Update {
            match self.set {
                Some(s) => pair_values(s@),
                None => Seq::<Value>::empty(),
            }
        } else {
            Seq::<Value>::empty()
        }) + (if self.kind == QueryKind::Insert && (match self.on_conflict {
            Some(oc) => oc.1 == OnConflict::Update,
            None => false,
        }) {
            match self.set {
                Some(s) => pair_values(s@),
                None => Seq::<Value>::empty(),
            }
        } else {
            Seq::<Value>::empty()
        }) + (match self.filter {
            Some(f) => f.vals(),
            None => Seq::<Value>::empty(),
        })
    }

    /// Every identifier and free-form fragment the builder renders is free
    /// of `?` characters of its own.
    pub open spec fn names_wf(self) -> bool {
        &&& placeholder_free(self.table@)
        &&& match self.columns {
            Some(cols) => cols_wf(cols@),
            None => true,
        }
        &&& match self.values {
            Some(vs) => pairs_wf(vs@),
            None => true,
        }
        &&& match self.set {
            Some(s) => pairs_wf(s@),
            None => true,
        }
        &&& match self.on_conflict {
            Some(oc) => cols_wf(oc.0@),
            None => true,
        }
        &&& match self.returning {
            Some(cols) => cols_wf(cols@),
            None => true,
        }
        &&& orderings_wf(self.order_by@)
        &&& match self.filter {
            Some(f) => f.wf(),
            None => true,
        }
    }
}

/// All column names in the list are placeholder-free.
pub open spec fn cols_wf<C: Column>(cols: Seq<C>) -> bool {
    forall|i: int| 0 <= i < cols.len() ==> placeholder_free(#[trigger] cols[i].name_spec())
}

/// All column names in the assignment list are placeholder-free.
pub open spec fn pairs_wf<C: Column>(vs: Seq<(C, Value)>) -> bool {
    forall|i: int| 0 <= i < vs.len() ==> placeholder_free(#[trigger] vs[i].0.name_spec())
}

/// All column names under the ordering directives are placeholder-free.
pub open spec fn orderings_wf<C: Column>(os: Seq<ColumnOrdering<C>>) -> bool {
    forall|i: int| 0 <= i < os.len() ==> placeholder_free(#[trigger] os[i].column().name_spec())
}

impl<C: Column> QueryBuilder<Select, C> {
    /// A fresh SELECT builder for `table`.
    pub fn select_from(table: &str) -> (r: Self)
        ensures
            r.is_fresh(table@, QueryKind::Select),
    {
        QueryBuilder {
            table: table.to_owned(),
            kind: QueryKind::Select,
            columns: None,
            values: None,
            set: None,
            on_conflict: None,
            returning: None,
            filter: None,
            limit: None,
            offset: None,
            order_by: Vec::new(),
            _type: PhantomData,
        }
    }

    /// Sets the projection to an explicit column list.
    pub fn columns(self, columns: Vec<C>) -> (r: Self)
        ensures
            r == (QueryBuilder { columns: Some(columns), ..self }),
    {
        QueryBuilder { columns: Some(columns), ..self }
    }

    /// Appends one ORDER BY directive.
    pub fn order_by(self, ordering: ColumnOrdering<C>) -> (r: Self)
        ensures
            r.order_by@ == self.order_by@.push(ordering),
            (QueryBuilder { order_by: self.order_by, ..r }) == self,
    {
        let mut s = self;
        s.order_by.push(ordering);
        s
    }

    /// Sets the LIMIT clause.
    pub fn limit(self, limit: i64) -> (r: Self)
        ensures
            r == (QueryBuilder { limit: Some(limit), ..self }),
    {
        QueryBuilder { limit: Some(limit), ..self }
    }

    /// Sets the OFFSET clause.
    pub fn offset(self, offset: i64) -> (r: Self)
        ensures
            r == (QueryBuilder { offset: Some(offset), ..self }),
    {
        QueryBuilder { offset: Some(offset), ..self }
    }
}

impl<C: Column> QueryBuilder<Insert, C> {
    /// A fresh INSERT builder for `table`.
    pub fn insert_into(table: &str) -> (r: Self)
        ensures
            r.is_fresh(table@, QueryKind::Insert),
    {
        QueryBuilder {
            table: table.to_owned(),
            kind: QueryKind::Insert,
            columns: None,
            values: None,
            set: None,
            on_conflict: None,
            returning: None,
            filter: None,
            limit: None,
            offset: None,
            order_by: Vec::new(),
            _type: PhantomData,
        }
    }

    /// Appends one column/value pair to the INSERT value list.
    pub fn value(self, col: C, value: Value) -> (r: Self)
        ensures
            r.values matches Some(vs) && vs@ == (match self.values {
                Some(prior) => prior@,
                None => Seq::<(C, Value)>::empty(),
            }).push((col, value)),
            (QueryBuilder { values: self.values, ..r }) == self,
    {
        let mut s = self;
        match s.values {
            Some(ref mut vs) => {
                vs.push((col, value));
            },
            None => {
                let mut vs = Vec::new();
                vs.push((col, value));
                s.values = Some(vs);
            },
        }
        proof {
            assert(s.values matches Some(vs) && vs@ =~= (match self.values {
                Some(prior) => prior@,
                None => Seq::<(C, Value)>::empty(),
            }).push((col, value)));
        }
        s
    }

    /// Declares the conflict target columns and policy, moving the builder
    /// into its ON CONFLICT state.
    pub fn on_conflict<CV: Veccable<C>>(self, columns: CV, on_conflict: OnConflict) -> (r:
        QueryBuilder<OnConflicted, C>)
        ensures
            r.on_conflict matches Some(oc) && oc.0@ == columns.vec_spec() && oc.1 == on_conflict,
            r.table == self.table,
            r.kind == self.kind,
            r.columns == self.columns,
            r.values == self.values,
            r.set == self.set,
            r.returning == self.returning,
            r.filter == self.filter,
            r.limit == self.limit,
            r.offset == self.offset,
            r.order_by == self.order_by,
    {
        QueryBuilder {
            table: self.table,
            kind: self.kind,
            columns: self.columns,
            values: self.values,
            set: self.set,
            on_conflict: Some((columns.to_vec(), on_conflict)),
            returning: self.returning,
            filter: self.filter,
            limit: self.limit,
            offset: self.offset,
            order_by: self.order_by,
            _type: PhantomData,
        }
    }

    /// Sets the RETURNING column list.
    pub fn returning(self, columns: Vec<C>) -> (r: Self)
        ensures
            r == (QueryBuilder { returning: Some(columns), ..self }),
    {
        QueryBuilder { returning: Some(columns), ..self }
    }
}

impl<C: Column> QueryBuilder<OnConflicted, C> {
    /// Appends one assignment to the SET list rendered inside DO UPDATE.
    /// Only meaningful after `on_conflict`, which is the one way to reach
    /// this state.
    pub fn set(self, column: C, value: Value) -> (r: Self)
        requires
            self.on_conflict is Some,
        ensures
            r.set matches Some(s) && s@ == (match self.set {
                Some(prior) => prior@,
                None => Seq::<(C, Value)>::empty(),
            }).push((column, value)),
            (QueryBuilder { set: self.set, ..r }) == self,
    {
        let mut s = self;
        match s.set {
            Some(ref mut sets) => {
                sets.push((column, value));
            },
            None => {
                let mut sets = Vec::new();
                sets.push((column, value));
                s.set = Some(sets);
            },
        }
        proof {
            assert(s.set matches Some(sv) && sv@ =~= (match self.set {
                Some(prior) => prior@,
                None => Seq::<(C, Value)>::empty(),
            }).push((column, value)));
        }
        s
    }

    /// Sets the RETURNING column list.
    pub fn returning(self, columns: Vec<C>) -> (r: Self)
        ensures
            r == (QueryBuilder { returning: Some(columns), ..self }),
    {
        QueryBuilder { returning: Some(columns), ..self }
    }
}

impl<C: Column> QueryBuilder<Update, C> {
    /// A fresh UPDATE builder for `table`.
    pub fn update(table: &str) -> (r: Self)
        ensures
            r.is_fresh(table@, QueryKind::Update),
    {
        QueryBuilder {
            table: table.to_owned(),
            kind: QueryKind::Update,
            columns: None,
            values: None,
            set: None,
            on_conflict: None,
            returning: None,
            filter: None,
            limit: None,
            offset: None,
            order_by: Vec::new(),
            _type: PhantomData,
        }
    }

    /// Appends one assignment to the SET clause.
    pub fn set(self, column: C, value: Value) -> (r: Self)
        ensures
            r.set matches Some(s) && s@ == (match self.set {
                Some(prior) => prior@,
                None => Seq::<(C, Value)>::empty(),
            }).push((column, value)),
            (QueryBuilder { set: self.set, ..r }) == self,
    {
        let mut s = self;
        match s.set {
            Some(ref mut sets) => {
                sets.push((column, value));
            },
            None => {
                let mut sets = Vec::new();
                sets.push((column, value));
                s.set = Some(sets);
            },
        }
        proof {
            assert(s.set matches Some(sv) && sv@ =~= (match self.set {
                Some(prior) => prior@,
                None => Seq::<(C, Value)>::empty(),
            }).push((column, value)));
        }
        s
    }

    /// Sets the RETURNING column list.
    pub fn returning(self, columns: Vec<C>) -> (r: Self)
        ensures
            r == (QueryBuilder { returning: Some(columns), ..self }),
    {
        QueryBuilder { returning: Some(columns), ..self }
    }
}

impl<C: Column> QueryBuilder<Delete, C> {
    /// A fresh DELETE builder for `table`.
    pub fn delete_from(table: &str) -> (r: Self)
        ensures
            r.is_fresh(table@, QueryKind::Delete),
    {
        QueryBuilder {
            table: table.to_owned(),
            kind: QueryKind::Delete,
            columns: None,
            values: None,
            set: None,
            on_conflict: None,
            returning: None,
            filter: None,
            limit: None,
            offset: None,
            order_by: Vec::new(),
            _type: PhantomData,
        }
    }

    /// Sets the RETURNING column list.
    pub fn returning(self, columns: Vec<C>) -> (r: Self)
        ensures
            r == (QueryBuilder { returning: Some(columns), ..self }),
    {
        QueryBuilder { returning: Some(columns), ..self }
    }
}

impl<S, C: Column> QueryBuilder<S, C> {
    /// Adds a filter predicate; a second filter is conjoined to the first.
    /// INSERT statements take no WHERE clause.
    pub fn filter(self, expr: Expr<C>) -> (r: Self)
        requires
            self.kind != QueryKind::Insert,
        ensures
            self.filter is None ==> r == (QueryBuilder { filter: Some(expr), ..self }),
            self.filter matches Some(prior) ==> r.filter matches Some(f) && f matches Expr::And(
                l,
                rr,
            ) && l == prior && rr == expr && (QueryBuilder { filter: self.filter, ..r }) == self,
    {
        let mut s = self;
        match s.filter {
            Some(_) => {
                let prior = s.filter.take().unwrap();
                s.filter = Some(prior.and(expr));
            },
            None => {
                s.filter = Some(expr);
            },
        }
        s
    }

    /// Defaults a SELECT's LIMIT to 1 when the caller never set one; the
    /// single-row fetch operations apply this before rendering. Any other
    /// builder is returned unchanged.
    pub fn default_limit_one(self) -> (r: Self)
        ensures
            self.limit is None && self.kind == QueryKind::Select ==> r == (QueryBuilder {
                limit: Some(1i64),
                ..self
            }),
            !(self.limit is None && self.kind == QueryKind::Select) ==> r == self,
    {
        let mut s = self;
        if s.limit.is_none() && s.kind == QueryKind::Select {
            s.limit = Some(1);
        }
        s
    }

    /// Renders the statement: one SQL string together with the bound values
    /// in the order of its `?` placeholders.
    #[verifier::rlimit(100)]
    #[verifier::spinoff_prover]
    pub fn to_sql(self) -> (r: (String, Vec<Value>))
        requires
            self.renderable(),
        ensures
            r.0@ == self.sql(),
            r.1@ == self.vals(),
    {
        let ghost b = self;
        let QueryBuilder {
            table,
            kind,
            columns,
            values,
            set,
            on_conflict,
            returning,
            filter,
            limit,
            offset,
            order_by,
            _type,
        } = self;
        let mut query = String::new();
        let mut out_values: Vec<Value> = Vec::new();

        match kind {
            QueryKind::Select => query.append("SELECT "),
            QueryKind::Insert => query.append("INSERT INTO "),
            QueryKind::Update => query.append("UPDATE "),
            QueryKind::Delete => query.append("DELETE "),
        }
        let ghost p1 = b.keyword();
        proof {
            assert(query@ =~= p1);
        }

        match columns {
            Some(ref cols) => {
                push_join_columns(&mut query, cols);
            },
            None => {
                if kind == QueryKind::Select {
                    query.append("*");
                }
            },
        }
        let ghost p2 = p1 + b.projection_part();
        proof {
            assert(query@ =~= p2);
        }

        match kind {
            QueryKind::Select | QueryKind::Delete => {
                query.append(" FROM ");
                query.append(table.as_str());
            },
            QueryKind::Insert | QueryKind::Update => {
                query.append(table.as_str());
            },
        }
        let ghost p3 = p2 + b.target_part();
        proof {
            assert(query@ =~= p3);
        }

        if let Some(vs) = values {
            query.append(" (");
            push_join_pair_columns(&mut query, &vs);
            query.append(") VALUES (");
            push_placeholder_values(&mut query, &mut out_values, vs);
            query.append(")");
        }
        let ghost p4 = p3 + b.values_part();
        let ghost v1 = match b.values {
            Some(vs) => pair_values(vs@),
            None => Seq::<Value>::empty(),
        };
        proof {
            assert(query@ =~= p4);
            assert(out_values@ =~= v1);
        }

        match kind {
            QueryKind::Update => {
                if let Some(s) = set {
                    query.append(" SET ");
                    push_assignments(&mut query, &mut out_values, s);
                }
            },
            QueryKind::Insert => {
                if let Some(oc) = on_conflict {
                    let (ccols, policy) = oc;
                    query.append(" ON CONFLICT (");
                    push_join_columns(&mut query, &ccols);
                    query.append(") ");
                    match policy {
                        OnConflict::Ignore => {
                            query.append("DO NOTHING");
                        },
                        OnConflict::Update => {
                            query.append("DO UPDATE SET ");
                            let s = match set {
                                Some(s) => s,
                                None => unreached(),
                            };
                            push_assignments(&mut query, &mut out_values, s);
                        },
                    }
                }
            },
            _ => {},
        }
        let ghost p6 = p4 + b.set_part() + b.conflict_part();
        let ghost v3 = v1 + (if b.kind == QueryKind::Update {
            match b.set {
                Some(s) => pair_values(s@),
                None => Seq::<Value>::empty(),
            }
        } else {
            Seq::<Value>::empty()
        }) + (if b.kind == QueryKind::Insert && (match b.on_conflict {
            Some(oc) => oc.1 == OnConflict::Update,
            None => false,
        }) {
            match b.set {
                Some(s) => pair_values(s@),
                None => Seq::<Value>::empty(),
            }
        } else {
            Seq::<Value>::empty()
        });
        proof {
            assert(query@ =~= p6);
            assert(out_values@ =~= v3);
        }

        if let Some(w) = filter {
            query.append(" WHERE ");
            w.write(&mut query, &mut out_values);
        }
        let ghost p7 = p6 + b.where_part();
        proof {
            assert(query@ =~= p7);
            assert(out_values@ =~= b.vals());
        }

        if order_by.len() > 0 {
            query.append(" ORDER BY ");
            push_orderings(&mut query, &order_by);
        }
        let ghost p8 = p7 + b.order_part();
        proof {
            assert(query@ =~= p8);
        }

        if let Some(l) = limit {
            query.append(" LIMIT ");
            push_dec_i64(&mut query, l);
        }
        let ghost p9 = p8 + b.limit_part();
        proof {
            assert(query@ =~= p9);
        }

        if let Some(o) = offset {
            query.append(" OFFSET ");
            push_dec_i64(&mut query, o);
        }
        let ghost p10 = p9 + b.offset_part();
        proof {
            assert(query@ =~= p10);
        }

        if let Some(ref cols) = returning {
            query.append(" RETURNING ");
            push_join_columns(&mut query, cols);
        }
        proof {
            assert(query@ =~= p10 + b.returning_part());
            assert(query@ =~= b.sql());
        }

        (query, out_values)
    }

    /// Whether `to_sql` accepts this builder, decided at run time; chains of
    /// the methods above always leave the builder in such a state.
    pub fn is_renderable(&self) -> (r: bool)
        ensures
            r == self.renderable(),
    {
        let compatible = match self.kind {
            QueryKind::Select => self.values.is_none() && self.set.is_none()
                && self.on_conflict.is_none() && self.returning.is_none(),
            QueryKind::Insert => self.columns.is_none() && self.filter.is_none()
                && self.order_by.len() == 0 && self.limit.is_none() && self.offset.is_none() && (
            match self.set {
                Some(_) => self.on_conflict.is_some(),
                None => true,
            }) && (match self.on_conflict {
                Some((_, OnConflict::Update)) => self.set.is_some(),
                _ => true,
            }),
            QueryKind::Update => self.columns.is_none() && self.values.is_none()
                && self.on_conflict.is_none() && self.order_by.len() == 0 && self.limit.is_none()
                && self.offset.is_none(),
            QueryKind::Delete => self.columns.is_none() && self.values.is_none()
                && self.set.is_none() && self.on_conflict.is_none() && self.order_by.len() == 0
                && self.limit.is_none() && self.offset.is_none(),
        };
        compatible
    }
}

/// Appends the comma-joined quoted column names.
fn push_join_columns<C: Column>(f: &mut String, cols: &Vec<C>)
    ensures
        final(f)@ == old(f)@ + join_columns(cols@),
{
    let ghost pre = f@;
    proof {
        assert(cols@.take(0) =~= Seq::<C>::empty());
        assert(f@ =~= pre + join_columns(cols@.take(0)));
    }
    let mut i: usize = 0;
    while i < cols.len()
        invariant
            i <= cols.len(),
            f@ == pre + join_columns(cols@.take(i as int)),
        decreases cols.len() - i,
    {
        if i > 0 {
            f.append(", ");
        }
        let c = cols[i];
        c.write(f);
        proof {
            assert(cols@.take(i + 1int).drop_last() =~= cols@.take(i as int));
            assert(cols@.take(i + 1int).last() == cols@[i as int]);
            assert(f@ =~= pre + join_columns(cols@.take(i + 1int)));
        }
        i = i + 1;
    }
    proof {
        assert(cols@.take(cols@.len() as int) =~= cols@);
    }
}

/// Appends the comma-joined quoted column names of assignment pairs.
fn push_join_pair_columns<C: Column>(f: &mut String, vs: &Vec<(C, Value)>)
    ensures
        final(f)@ == old(f)@ + join_pair_columns(vs@),
{
    let ghost pre = f@;
    proof {
        assert(vs@.take(0) =~= Seq::<(C, Value)>::empty());
        assert(f@ =~= pre + join_pair_columns(vs@.take(0)));
    }
    let mut i: usize = 0;
    while i < vs.len()
        invariant
            i <= vs.len(),
            f@ == pre + join_pair_columns(vs@.take(i as int)),
        decreases vs.len() - i,
    {
        if i > 0 {
            f.append(", ");
        }
        let c = vs[i].0;
        c.write(f);
        proof {
            assert(vs@.take(i + 1int).drop_last() =~= vs@.take(i as int));
            assert(vs@.take(i + 1int).last() == vs@[i as int]);
            assert(f@ =~= pre + join_pair_columns(vs@.take(i + 1int)));
        }
        i = i + 1;
    }
    proof {
        assert(vs@.take(vs@.len() as int) =~= vs@);
    }
}

/// Appends one `?` per pair, comma-joined, and moves the pairs' values out.
fn push_placeholder_values<C: Column>(f: &mut String, out: &mut Vec<Value>, vs: Vec<(C, Value)>)
    ensures
        final(f)@ == old(f)@ + placeholders(vs@.len() as int),
        final(out)@ == old(out)@ + pair_values(vs@),
{
    let ghost pre_f = f@;
    let ghost pre_o = out@;
    let ghost all = vs@;
    let total = vs.len();
    let mut vs = vs;
    proof {
        assert(all.len() == total as int);
        assert(all.skip(0) =~= all);
        assert(all.take(0) =~= Seq::<(C, Value)>::empty());
        assert(f@ =~= pre_f + placeholders(0));
        assert(out@ =~= pre_o + pair_values(all.take(0)));
    }
    let mut i: usize = 0;
    while vs.len() > 0
        invariant
            f@ == pre_f + placeholders(i as int),
            out@ == pre_o + pair_values(all.take(i as int)),
            vs@ == all.skip(i as int),
            i + vs@.len() == all.len(),
            all.len() <= usize::MAX,
        decreases vs@.len(),
    {
        let (_, v) = vs.remove(0);
        if i == 0 {
            f.append("?");
        } else {
            f.append(", ?");
        }
        out.push(v);
        proof {
            assert(all.skip(i as int)[0] == all[i as int]);
            assert(vs@ =~= all.skip(i + 1int));
            assert(all.take(i + 1int).drop_last() =~= all.take(i as int));
            assert(all.take(i + 1int).last() == all[i as int]);
            assert(out@ =~= pre_o + pair_values(all.take(i + 1int)));
        }
        i = i + 1;
    }
    proof {
        assert(all.take(all.len() as int) =~= all);
    }
}

/// Appends the comma-joined `"name" = ?` assignments and moves the pairs'
/// values out.
fn push_assignments<C: Column>(f: &mut String, out: &mut Vec<Value>, vs: Vec<(C, Value)>)
    ensures
        final(f)@ == old(f)@ + join_assignments(vs@),
        final(out)@ == old(out)@ + pair_values(vs@),
{
    let ghost pre_f = f@;
    let ghost pre_o = out@;
    let ghost all = vs@;
    let total = vs.len();
    let mut vs = vs;
    proof {
        assert(all.len() == total as int);
        assert(all.skip(0) =~= all);
        assert(all.take(0) =~= Seq::<(C, Value)>::empty());
        assert(f@ =~= pre_f + join_assignments(all.take(0)));
        assert(out@ =~= pre_o + pair_values(all.take(0)));
    }
    let mut i: usize = 0;
    while vs.len() > 0
        invariant
            f@ == pre_f + join_assignments(all.take(i as int)),
            out@ == pre_o + pair_values(all.take(i as int)),
            vs@ == all.skip(i as int),
            i + vs@.len() == all.len(),
            all.len() <= usize::MAX,
        decreases vs@.len(),
    {
        let (c, v) = vs.remove(0);
        if i > 0 {
            f.append(", ");
        }
        c.write(f);
        f.append(" = ?");
        out.push(v);
        proof {
            assert(all.skip(i as int)[0] == all[i as int]);
            assert(vs@ =~= all.skip(i + 1int));
            assert(all.take(i + 1int).drop_last() =~= all.take(i as int));
            assert(all.take(i + 1int).last() == all[i as int]);
            assert(f@ =~= pre_f + join_assignments(all.take(i + 1int)));
            assert(out@ =~= pre_o + pair_values(all.take(i + 1int)));
        }
        i = i + 1;
    }
    proof {
        assert(all.take(all.len() as int) =~= all);
    }
}

/// Appends the comma-joined ordering directives.
fn push_orderings<C: Column>(f: &mut String, os: &Vec<ColumnOrdering<C>>)
    ensures
        final(f)@ == old(f)@ + join_orderings(os@),
{
    let ghost pre = f@;
    proof {
        assert(os@.take(0) =~= Seq::<ColumnOrdering<C>>::empty());
        assert(f@ =~= pre + join_orderings(os@.take(0)));
    }
    let mut i: usize = 0;
    while i < os.len()
        invariant
            i <= os.len(),
            f@ == pre + join_orderings(os@.take(i as int)),
        decreases os.len() - i,
    {
        if i > 0 {
            f.append(", ");
        }
        let o = os[i];
        o.write(f);
        proof {
            assert(os@.take(i + 1int).drop_last() =~= os@.take(i as int));
            assert(os@.take(i + 1int).last() == os@[i as int]);
            assert(f@ =~= pre + join_orderings(os@.take(i + 1int)));
        }
        i = i + 1;
    }
    proof {
        assert(os@.take(os@.len() as int) =~= os@);
    }
}

/// Only SELECT statements carry ordering, limit and offset clauses. The
/// methods that set them exist only on the SELECT builder, so no other
/// builder can accumulate them; this records that a well-formed non-SELECT
/// builder renders none of those clauses.
pub proof fn lemma_select_only_clauses<S, C: Column>(b: QueryBuilder<S, C>)
    requires
        b.wf(),
        b.kind != QueryKind::Select,
    ensures
        b.order_by@.len() == 0,
        b.limit is None,
        b.offset is None,
        b.order_part() == Seq::<char>::empty(),
        b.limit_part() == Seq::<char>::empty(),
        b.offset_part() == Seq::<char>::empty(),
{
}

/// The value list of an assignment list has one entry per pair.
pub proof fn lemma_pair_values_len<C: Column>(vs: Seq<(C, Value)>)
    ensures
        pair_values(vs).len() == vs.len(),
    decreases vs.len(),
{
    if vs.len() > 0 {
        lemma_pair_values_len(vs.drop_last());
    }
}

proof fn lemma_join_columns_count<C: Column>(cols: Seq<C>)
    requires
        cols_wf(cols),
    ensures
        count_char(join_columns(cols), '?') == 0,
    decreases cols.len(),
{
    reveal_strlit(", ");
    if cols.len() == 1 {
        lemma_count_quoted(cols[0].name_spec());
    } else if cols.len() > 1 {
        assert(cols_wf(cols.drop_last())) by {
            assert(forall|i: int|
                0 <= i < cols.len() - 1 ==> #[trigger] cols.drop_last()[i] == cols[i]);
        };
        lemma_join_columns_count(cols.drop_last());
        lemma_count_quoted(cols.last().name_spec());
        assert(", "@ =~= seq![',', ' ']);
        lemma_count_char_absent(seq![',', ' '], '?');
        lemma_count_char_concat(join_columns(cols.drop_last()), ", "@, '?');
        lemma_count_char_concat(
            join_columns(cols.drop_last()) + ", "@,
            quoted(cols.last().name_spec()),
            '?',
        );
    }
}

proof fn lemma_join_pair_columns_count<C: Column>(vs: Seq<(C, Value)>)
    requires
        pairs_wf(vs),
    ensures
        count_char(join_pair_columns(vs), '?') == 0,
    decreases vs.len(),
{
    reveal_strlit(", ");
    if vs.len() == 1 {
        lemma_count_quoted(vs[0].0.name_spec());
    } else if vs.len() > 1 {
        assert(pairs_wf(vs.drop_last())) by {
            assert(forall|i: int| 0 <= i < vs.len() - 1 ==> #[trigger] vs.drop_last()[i] == vs[i]);
        };
        lemma_join_pair_columns_count(vs.drop_last());
        lemma_count_quoted(vs.last().0.name_spec());
        assert(", "@ =~= seq![',', ' ']);
        lemma_count_char_absent(seq![',', ' '], '?');
        lemma_count_char_concat(join_pair_columns(vs.drop_last()), ", "@, '?');
        lemma_count_char_concat(
            join_pair_columns(vs.drop_last()) + ", "@,
            quoted(vs.last().0.name_spec()),
            '?',
        );
    }
}

proof fn lemma_join_assignments_count<C: Column>(vs: Seq<(C, Value)>)
    requires
        pairs_wf(vs),
    ensures
        count_char(join_assignments(vs), '?') == vs.len(),
    decreases vs.len(),
{
    reveal_strlit(", ");
    reveal_strlit(" = ?");
    if vs.len() == 1 {
        lemma_count_quoted(vs[0].0.name_spec());
        lemma_count_lit_one_placeholder(" = ?");
        lemma_count_char_concat(quoted(vs[0].0.name_spec()), " = ?"@, '?');
    } else if vs.len() > 1 {
        assert(pairs_wf(vs.drop_last())) by {
            assert(forall|i: int| 0 <= i < vs.len() - 1 ==> #[trigger] vs.drop_last()[i] == vs[i]);
        };
        lemma_join_assignments_count(vs.drop_last());
        lemma_count_quoted(vs.last().0.name_spec());
        lemma_count_lit_one_placeholder(" = ?");
        assert(", "@ =~= seq![',', ' ']);
        lemma_count_char_absent(seq![',', ' '], '?');
        lemma_count_char_concat(join_assignments(vs.drop_last()), ", "@, '?');
        lemma_count_char_concat(
            join_assignments(vs.drop_last()) + ", "@,
            quoted(vs.last().0.name_spec()),
            '?',
        );
        lemma_count_char_concat(
            join_assignments(vs.drop_last()) + ", "@ + quoted(vs.last().0.name_spec()),
            " = ?"@,
            '?',
        );
    }
}

proof fn lemma_ordering_count<C: Column>(o: ColumnOrdering<C>)
    requires
        placeholder_free(o.column().name_spec()),
    ensures
        count_char(o.sql(), '?') == 0,
{
    lemma_count_quoted(o.column().name_spec());
    match o {
        ColumnOrdering::Asc(c) => {
            reveal_strlit(" ASC");
            assert(" ASC"@ =~= seq![' ', 'A', 'S', 'C']);
            lemma_count_char_absent(" ASC"@, '?');
            lemma_count_char_concat(quoted(c.name_spec()), " ASC"@, '?');
        },
        ColumnOrdering::Desc(c) => {
            reveal_strlit(" DESC");
            assert(" DESC"@ =~= seq![' ', 'D', 'E', 'S', 'C']);
            lemma_count_char_absent(" DESC"@, '?');
            lemma_count_char_concat(quoted(c.name_spec()), " DESC"@, '?');
        },
        ColumnOrdering::AscNullsFirst(c) => {
            reveal_strlit(" ASC NULLS FIRST");
            assert(" ASC NULLS FIRST"@ =~= seq![
                ' ',
                'A',
                'S',
                'C',
                ' ',
                'N',
                'U',
                'L',
                'L',
                'S',
                ' ',
                'F',
                'I',
                'R',
                'S',
                'T',
            ]);
            lemma_count_char_absent(" ASC NULLS FIRST"@, '?');
            lemma_count_char_concat(quoted(c.name_spec()), " ASC NULLS FIRST"@, '?');
        },
        ColumnOrdering::AscNullsLast(c) => {
            reveal_strlit(" ASC NULLS LAST");
            assert(" ASC NULLS LAST"@ =~= seq![
                ' ',
                'A',
                'S',
                'C',
                ' ',
                'N',
                'U',
                'L',
                'L',
                'S',
                ' ',
                'L',
                'A',
                'S',
                'T',
            ]);
            lemma_count_char_absent(" ASC NULLS LAST"@, '?');
            lemma_count_char_concat(quoted(c.name_spec()), " ASC NULLS LAST"@, '?');
        },
        ColumnOrdering::DescNullsFirst(c) => {
            reveal_strlit(" DESC NULLS FIRST");
            assert(" DESC NULLS FIRST"@ =~= seq![
                ' ',
                'D',
                'E',
                'S',
                'C',
                ' ',
                'N',
                'U',
                'L',
                'L',
                'S',
                ' ',
                'F',
                'I',
                'R',
                'S',
                'T',
            ]);
            lemma_count_char_absent(" DESC NULLS FIRST"@, '?');
            lemma_count_char_concat(quoted(c.name_spec()), " DESC NULLS FIRST"@, '?');
        },
        ColumnOrdering::DescNullsLast(c) => {
            reveal_strlit(" DESC NULLS LAST");
            assert(" DESC NULLS LAST"@ =~= seq![
                ' ',
                'D',
                'E',
                'S',
                'C',
                ' ',
                'N',
                'U',
                'L',
                'L',
                'S',
                ' ',
                'L',
                'A',
                'S',
                'T',
            ]);
            lemma_count_char_absent(" DESC NULLS LAST"@, '?');
            lemma_count_char_concat(quoted(c.name_spec()), " DESC NULLS LAST"@, '?');
        },
    }
}

proof fn lemma_join_orderings_count<C: Column>(os: Seq<ColumnOrdering<C>>)
    requires
        orderings_wf(os),
    ensures
        count_char(join_orderings(os), '?') == 0,
    decreases os.len(),
{
    reveal_strlit(", ");
    if os.len() == 1 {
        lemma_ordering_count(os[0]);
    } else if os.len() > 1 {
        assert(orderings_wf(os.drop_last())) by {
            assert(forall|i: int| 0 <= i < os.len() - 1 ==> #[trigger] os.drop_last()[i] == os[i]);
        };
        lemma_join_orderings_count(os.drop_last());
        lemma_ordering_count(os.last());
        assert(", "@ =~= seq![',', ' ']);
        lemma_count_char_absent(seq![',', ' '], '?');
        lemma_count_char_concat(join_orderings(os.drop_last()), ", "@, '?');
        lemma_count_char_concat(join_orderings(os.drop_last()) + ", "@, os.last().sql(), '?');
    }
}

proof fn lemma_keyword_count<S, C: Column>(b: QueryBuilder<S, C>)
    ensures
        count_char(b.keyword(), '?') == 0,
{
    reveal_strlit("SELECT ");
    reveal_strlit("INSERT INTO ");
    reveal_strlit("UPDATE ");
    reveal_strlit("DELETE ");
    match b.kind {
        QueryKind::Select => {
            assert("SELECT "@ =~= seq!['S', 'E', 'L', 'E', 'C', 'T', ' ']);
            lemma_count_char_absent("SELECT "@, '?');
        },
        QueryKind::Insert => {
            assert("INSERT INTO "@ =~= seq![
                'I',
                'N',
                'S',
                'E',
                'R',
                'T',
                ' ',
                'I',
                'N',
                'T',
                'O',
                ' ',
            ]);
            lemma_count_char_absent("INSERT INTO "@, '?');
        },
        QueryKind::Update => {
            assert("UPDATE "@ =~= seq!['U', 'P', 'D', 'A', 'T', 'E', ' ']);
            lemma_count_char_absent("UPDATE "@, '?');
        },
        QueryKind::Delete => {
            assert("DELETE "@ =~= seq!['D', 'E', 'L', 'E', 'T', 'E', ' ']);
            lemma_count_char_absent("DELETE "@, '?');
        },
    }
}

proof fn lemma_projection_count<S, C: Column>(b: QueryBuilder<S, C>)
    requires
        b.names_wf(),
    ensures
        count_char(b.projection_part(), '?') == 0,
{
    match b.columns {
        Some(cols) => {
            lemma_join_columns_count(cols@);
        },
        None => {
            reveal_strlit("*");
            assert("*"@ =~= seq!['*']);
            lemma_count_char_absent("*"@, '?');
            lemma_count_char_absent(Seq::<char>::empty(), '?');
        },
    }
}

proof fn lemma_target_count<S, C: Column>(b: QueryBuilder<S, C>)
    requires
        placeholder_free(b.table@),
    ensures
        count_char(b.target_part(), '?') == 0,
{
    reveal_strlit(" FROM ");
    assert(" FROM "@ =~= seq![' ', 'F', 'R', 'O', 'M', ' ']);
    lemma_count_char_absent(" FROM "@, '?');
    lemma_count_char_concat(" FROM "@, b.table@, '?');
}

proof fn lemma_values_part_count<S, C: Column>(b: QueryBuilder<S, C>)
    requires
        b.names_wf(),
    ensures
        count_char(b.values_part(), '?') == match b.values {
            Some(vs) => vs@.len() as int,
            None => 0,
        },
{
    match b.values {
        Some(vs) => {
            reveal_strlit(" (");
            reveal_strlit(") VALUES (");
            reveal_strlit(")");
            assert(" ("@ =~= seq![' ', '(']);
            assert(") VALUES ("@ =~= seq![')', ' ', 'V', 'A', 'L', 'U', 'E', 'S', ' ', '(']);
            assert(")"@ =~= seq![')']);
            lemma_count_char_absent(" ("@, '?');
            lemma_count_char_absent(") VALUES ("@, '?');
            lemma_count_char_absent(")"@, '?');
            lemma_join_pair_columns_count(vs@);
            lemma_placeholders_count(vs@.len() as int);
            lemma_count_char_concat(" ("@, join_pair_columns(vs@), '?');
            lemma_count_char_concat(" ("@ + join_pair_columns(vs@), ") VALUES ("@, '?');
            lemma_count_char_concat(
                " ("@ + join_pair_columns(vs@) + ") VALUES ("@,
                placeholders(vs@.len() as int),
                '?',
            );
            lemma_count_char_concat(
                " ("@ + join_pair_columns(vs@) + ") VALUES ("@ + placeholders(vs@.len() as int),
                ")"@,
                '?',
            );
        },
        None => {
            lemma_count_char_absent(Seq::<char>::empty(), '?');
        },
    }
}

proof fn lemma_set_part_count<S, C: Column>(b: QueryBuilder<S, C>)
    requires
        b.names_wf(),
    ensures
        count_char(b.set_part(), '?') == if b.kind == QueryKind::Update {
            match b.set {
                Some(s) => s@.len() as int,
                None => 0,
            }
        } else {
            0
        },
{
    lemma_count_char_absent(Seq::<char>::empty(), '?');
    if b.kind == QueryKind::Update {
        match b.set {
            Some(s) => {
                reveal_strlit(" SET ");
                assert(" SET "@ =~= seq![' ', 'S', 'E', 'T', ' ']);
                lemma_count_char_absent(" SET "@, '?');
                lemma_join_assignments_count(s@);
                lemma_count_char_concat(" SET "@, join_assignments(s@), '?');
            },
            None => {},
        }
    }
}

proof fn lemma_conflict_part_count<S, C: Column>(b: QueryBuilder<S, C>)
    requires
        b.names_wf(),
        b.renderable(),
    ensures
        count_char(b.conflict_part(), '?') == if b.kind == QueryKind::Insert && (
        match b.on_conflict {
            Some(oc) => oc.1 == OnConflict::Update,
            None => false,
        }) {
            b.set->Some_0@.len() as int
        } else {
            0
        },
{
    lemma_count_char_absent(Seq::<char>::empty(), '?');
    if b.kind == QueryKind::Insert {
        match b.on_conflict {
            Some(oc) => {
                reveal_strlit(" ON CONFLICT (");
                reveal_strlit(") ");
                assert(" ON CONFLICT ("@ =~= seq![
                    ' ',
                    'O',
                    'N',
                    ' ',
                    'C',
                    'O',
                    'N',
                    'F',
                    'L',
                    'I',
                    'C',
                    'T',
                    ' ',
                    '(',
                ]);
                assert(") "@ =~= seq![')', ' ']);
                lemma_count_char_absent(" ON CONFLICT ("@, '?');
                lemma_count_char_absent(") "@, '?');
                lemma_join_columns_count(oc.0@);
                lemma_count_char_concat(" ON CONFLICT ("@, join_columns(oc.0@), '?');
                lemma_count_char_concat(" ON CONFLICT ("@ + join_columns(oc.0@), ") "@, '?');
                match oc.1 {
                    OnConflict::Ignore => {
                        reveal_strlit("DO NOTHING");
                        assert("DO NOTHING"@ =~= seq![
                            'D',
                            'O',
                            ' ',
                            'N',
                            'O',
                            'T',
                            'H',
                            'I',
                            'N',
                            'G',
                        ]);
                        lemma_count_char_absent("DO NOTHING"@, '?');
                        lemma_count_char_concat(
                            " ON CONFLICT ("@ + join_columns(oc.0@) + ") "@,
                            "DO NOTHING"@,
                            '?',
                        );
                    },
                    OnConflict::Update => {
                        reveal_strlit("DO UPDATE SET ");
                        assert("DO UPDATE SET "@ =~= seq![
                            'D',
                            'O',
                            ' ',
                            'U',
                            'P',
                            'D',
                            'A',
                            'T',
                            'E',
                            ' ',
                            'S',
                            'E',
                            'T',
                            ' ',
                        ]);
                        lemma_count_char_absent("DO UPDATE SET "@, '?');
                        let s = b.set->Some_0;
                        lemma_join_assignments_count(s@);
                        lemma_count_char_concat("DO UPDATE SET "@, join_assignments(s@), '?');
                        lemma_count_char_concat(
                            " ON CONFLICT ("@ + join_columns(oc.0@) + ") "@,
                            "DO UPDATE SET "@ + join_assignments(s@),
                            '?',
                        );
                    },
                }
            },
            None => {},
        }
    }
}

proof fn lemma_where_part_count<S, C: Column>(b: QueryBuilder<S, C>)
    requires
        b.names_wf(),
    ensures
        count_char(b.where_part(), '?') == match b.filter {
            Some(f) => f.vals().len() as int,
            None => 0,
        },
{
    lemma_count_char_absent(Seq::<char>::empty(), '?');
    match b.filter {
        Some(f) => {
            reveal_strlit(" WHERE ");
            assert(" WHERE "@ =~= seq![' ', 'W', 'H', 'E', 'R', 'E', ' ']);
            lemma_count_char_absent(" WHERE "@, '?');
            lemma_placeholder_value_correspondence(f);
            lemma_count_char_concat(" WHERE "@, f.sql(), '?');
        },
        None => {},
    }
}

proof fn lemma_order_part_count<S, C: Column>(b: QueryBuilder<S, C>)
    requires
        b.names_wf(),
    ensures
        count_char(b.order_part(), '?') == 0,
{
    lemma_count_char_absent(Seq::<char>::empty(), '?');
    if b.order_by.len() > 0 {
        reveal_strlit(" ORDER BY ");
        assert(" ORDER BY "@ =~= seq![' ', 'O', 'R', 'D', 'E', 'R', ' ', 'B', 'Y', ' ']);
        lemma_count_char_absent(" ORDER BY "@, '?');
        lemma_join_orderings_count(b.order_by@);
        lemma_count_char_concat(" ORDER BY "@, join_orderings(b.order_by@), '?');
    }
}

proof fn lemma_limit_offset_count<S, C: Column>(b: QueryBuilder<S, C>)
    ensures
        count_char(b.limit_part(), '?') == 0,
        count_char(b.offset_part(), '?') == 0,
{
    lemma_count_char_absent(Seq::<char>::empty(), '?');
    reveal_strlit(" LIMIT ");
    reveal_strlit(" OFFSET ");
    assert(" LIMIT "@ =~= seq![' ', 'L', 'I', 'M', 'I', 'T', ' ']);
    assert(" OFFSET "@ =~= seq![' ', 'O', 'F', 'F', 'S', 'E', 'T', ' ']);
    lemma_count_char_absent(" LIMIT "@, '?');
    lemma_count_char_absent(" OFFSET "@, '?');
    match b.limit {
        Some(l) => {
            lemma_dec_i64_placeholder_free(l as int);
            lemma_count_char_concat(" LIMIT "@, dec_i64(l as int), '?');
        },
        None => {},
    }
    match b.offset {
        Some(o) => {
            lemma_dec_i64_placeholder_free(o as int);
            lemma_count_char_concat(" OFFSET "@, dec_i64(o as int), '?');
        },
        None => {},
    }
}

proof fn lemma_returning_part_count<S, C: Column>(b: QueryBuilder<S, C>)
    requires
        b.names_wf(),
    ensures
        count_char(b.returning_part(), '?') == 0,
{
    lemma_count_char_absent(Seq::<char>::empty(), '?');
    match b.returning {
        Some(cols) => {
            reveal_strlit(" RETURNING ");
            assert(" RETURNING "@ =~= seq![
                ' ',
                'R',
                'E',
                'T',
                'U',
                'R',
                'N',
                'I',
                'N',
                'G',
                ' ',
            ]);
            lemma_count_char_absent(" RETURNING "@, '?');
            lemma_join_columns_count(cols@);
            lemma_count_char_concat(" RETURNING "@, join_columns(cols@), '?');
        },
        None => {},
    }
}

/// For every renderable statement whose identifiers and raw fragments hold
/// no `?` of their own, the number of `?` placeholders in the rendered SQL
/// equals the length of the bound-value list; `to_sql` renders clauses and
/// appends values in the same left-to-right order, so the i-th placeholder
/// is bound to the i-th value.
#[verifier::rlimit(100)]
#[verifier::spinoff_prover]
pub proof fn lemma_query_placeholder_correspondence<S, C: Column>(b: QueryBuilder<S, C>)
    requires
        b.renderable(),
        b.names_wf(),
    ensures
        count_char(b.sql(), '?') == b.vals().len(),
{
    lemma_keyword_count(b);
    lemma_projection_count(b);
    lemma_target_count(b);
    lemma_values_part_count(b);
    lemma_set_part_count(b);
    lemma_conflict_part_count(b);
    lemma_where_part_count(b);
    lemma_order_part_count(b);
    lemma_limit_offset_count(b);
    lemma_returning_part_count(b);
    let s1 = b.keyword();
    let s2 = s1 + b.projection_part();
    let s3 = s2 + b.target_part();
    let s4 = s3 + b.values_part();
    let s5 = s4 + b.set_part();
    let s6 = s5 + b.conflict_part();
    let s7 = s6 + b.where_part();
    let s8 = s7 + b.order_part();
    let s9 = s8 + b.limit_part();
    let s10 = s9 + b.offset_part();
    lemma_count_char_concat(s1, b.projection_part(), '?');
    lemma_count_char_concat(s2, b.target_part(), '?');
    lemma_count_char_concat(s3, b.values_part(), '?');
    lemma_count_char_concat(s4, b.set_part(), '?');
    lemma_count_char_concat(s5, b.conflict_part(), '?');
    lemma_count_char_concat(s6, b.where_part(), '?');
    lemma_count_char_concat(s7, b.order_part(), '?');
    lemma_count_char_concat(s8, b.limit_part(), '?');
    lemma_count_char_concat(s9, b.offset_part(), '?');
    lemma_count_char_concat(s10, b.returning_part(), '?');
    match b.values {
        Some(vs) => lemma_pair_values_len(vs@),
        None => {},
    }
    match b.set {
        Some(s) => lemma_pair_values_len(s@),
        None => {},
    }
}

} // verus!

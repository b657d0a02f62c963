use crate::column::Column;
use crate::text::{count_char, lemma_count_char_absent, lemma_count_char_concat,
    lemma_count_char_singleton, lemma_count_quoted, placeholder_free, quoted};
use crate::value::Value;
use vstd::prelude::*;
use vstd::string::StringExecFns;

verus! {

/// An immutable filter predicate over one column type: comparison leaves
/// pairing a column with a bound value, `And`/`Or` interior nodes, and a
/// `Raw` leaf carrying an opaque fragment with no bound values.
#[derive(Debug)]
pub enum Expr<C: Column> {
    Equal(C, Value),
    Gt(C, Value),
    Lt(C, Value),
    Like(C, Value),
    In(C, Vec<Value>),
    Raw(String),
    And(Box<Expr<C>>, Box<Expr<C>>),
    Or(Box<Expr<C>>, Box<Expr<C>>),
}

/// `n` comma-separated placeholders, as they appear inside `IN (...)`.
pub open spec fn placeholders(n: int) -> Seq<char>
    decreases n,
{
    if n <= 0 {
        Seq::<char>::empty()
    } else if n == 1 {
        "?"@
    } else {
        placeholders(n - 1) + ", ?"@
    }
}

impl<C: Column> Expr<C> {
    /// The SQL fragment this predicate renders to.
    pub open spec fn sql(self) -> Seq<char>
        decreases self,
    {
        match self {
            Expr::Equal(c, v) => if v is Null {
                quoted(c.name_spec()) + " IS NULL"@
            } else {
                quoted(c.name_spec()) + " = ?"@
            },
            Expr::Gt(c, _) => quoted(c.name_spec()) + " > ?"@,
            Expr::Lt(c, _) => quoted(c.name_spec()) + " < ?"@,
            Expr::Like(c, _) => quoted(c.name_spec()) + " LIKE ?"@,
            Expr::In(c, vs) => quoted(c.name_spec()) + " IN ("@ + placeholders(vs@.len() as int)
                + ")"@,
            Expr::Raw(s) => s@,
            Expr::And(l, r) => "("@ + l.sql() + ") AND ("@ + r.sql() + ")"@,
            Expr::Or(l, r) => "("@ + l.sql() + ") OR ("@ + r.sql() + ")"@,
        }
    }

    /// The values this predicate binds, in the order its placeholders appear.
    pub open spec fn vals(self) -> Seq<Value>
        decreases self,
    {
        match self {
            Expr::Equal(_, v) => if v is Null {
                Seq::<Value>::empty()
            } else {
                seq![v]
            },
            Expr::Gt(_, v) => seq![v],
            Expr::Lt(_, v) => seq![v],
            Expr::Like(_, v) => seq![v],
            Expr::In(_, vs) => vs@,
            Expr::Raw(_) => Seq::<Value>::empty(),
            Expr::And(l, r) => l.vals() + r.vals(),
            Expr::Or(l, r) => l.vals() + r.vals(),
        }
    }

    /// Column names are the only identifiers a predicate renders, and `Raw`
    /// fragments the only free-form text; a predicate is well formed when
    /// none of them contains a `?` of its own.
    pub open spec fn wf(self) -> bool
        decreases self,
    {
        match self {
            Expr::Equal(c, _) => placeholder_free(c.name_spec()),
            Expr::Gt(c, _) => placeholder_free(c.name_spec()),
            Expr::Lt(c, _) => placeholder_free(c.name_spec()),
            Expr::Like(c, _) => placeholder_free(c.name_spec()),
            Expr::In(c, _) => placeholder_free(c.name_spec()),
            Expr::Raw(s) => placeholder_free(s@),
            Expr::And(l, r) => l.wf() && r.wf(),
            Expr::Or(l, r) => l.wf() && r.wf(),
        }
    }

    /// Conjunction; both operands are parenthesized when rendered.
    pub fn and(self, other: Expr<C>) -> (r: Expr<C>)
        ensures
            r matches Expr::And(l, rr) && l == self && rr == other,
    {
        Expr::And(Box::new(self), Box::new(other))
    }

    /// Disjunction; both operands are parenthesized when rendered.
    pub fn or(self, other: Expr<C>) -> (r: Expr<C>)
        ensures
            r matches Expr::Or(l, rr) && l == self && rr == other,
    {
        Expr::Or(Box::new(self), Box::new(other))
    }

    /// Conjunction written as a free constructor.
    pub fn both(left: Expr<C>, right: Expr<C>) -> (r: Expr<C>)
        ensures
            r matches Expr::And(l, rr) && l == left && rr == right,
    {
        Expr::And(Box::new(left), Box::new(right))
    }

    /// Disjunction written as a free constructor.
    pub fn either(left: Expr<C>, right: Expr<C>) -> (r: Expr<C>)
        ensures
            r matches Expr::Or(l, rr) && l == left && rr == right,
    {
        Expr::Or(Box::new(left), Box::new(right))
    }

    /// Appends this predicate's SQL to `f` and its bound values to `values`,
    /// in left-to-right traversal order.
    pub fn write(self, f: &mut String, values: &mut Vec<Value>)
        ensures
            final(f)@ == old(f)@ + self.sql(),
            final(values)@ == old(values)@ + self.vals(),
        decreases self,
    {
        let ghost pre_f = f@;
        let ghost pre_v = values@;
        let ghost e = self;
        match self {
            Expr::Equal(column, value) => {
                column.write(f);
                match value {
                    Value::Null => {
                        f.append(" IS NULL");
                    },
                    _ => {
                        f.append(" = ?");
                        values.push(value);
                    },
                }
            },
            Expr::Gt(column, value) => {
                column.write(f);
                f.append(" > ?");
                values.push(value);
            },
            Expr::Lt(column, value) => {
                column.write(f);
                f.append(" < ?");
                values.push(value);
            },
            Expr::Like(column, value) => {
                column.write(f);
                f.append(" LIKE ?");
                values.push(value);
            },
            Expr::In(column, mut vs) => {
                column.write(f);
                f.append(" IN (");
                let ghost all = vs@;
                let ghost mid_f = f@;
                let total = vs.len();
                proof {
                    assert(all.len() == total as int);
                    assert(all.skip(0) =~= all);
                    assert(all.take(0) =~= Seq::<Value>::empty());
                    assert(values@ =~= pre_v + all.take(0));
                }
                let mut i: usize = 0;
                while vs.len() > 0
                    invariant
                        f@ == mid_f + placeholders(i as int),
                        values@ == pre_v + all.take(i as int),
                        vs@ == all.skip(i as int),
                        i + vs@.len() == all.len(),
                        all.len() <= usize::MAX,
                    decreases vs@.len(),
                {
                    let v = vs.remove(0);
                    if i == 0 {
                        f.append("?");
                    } else {
                        f.append(", ?");
                    }
                    values.push(v);
                    proof {
                        assert(v == all[i as int]);
                        assert(vs@ =~= all.skip(i + 1int));
                        assert(all.take(i + 1int) =~= all.take(i as int) + seq![v]);
                        assert(values@ == pre_v + all.take(i + 1int));
                    }
                    i = i + 1;
                }
                f.append(")");
                proof {
                    assert(all.take(all.len() as int) =~= all);
                    assert(f@ =~= pre_f + e.sql());
                }
            },
            Expr::Raw(s) => {
                f.append(s.as_str());
            },
            Expr::And(l, r) => {
                f.append("(");
                l.write(f, values);
                f.append(") AND (");
                r.write(f, values);
                f.append(")");
            },
            Expr::Or(l, r) => {
                f.append("(");
                l.write(f, values);
                f.append(") OR (");
                r.write(f, values);
                f.append(")");
            },
        }
        proof {
            assert(f@ =~= pre_f + e.sql());
            assert(values@ =~= pre_v + e.vals());
        }
    }
}

/// The comma-separated placeholder list for `n` values holds exactly `n`
/// placeholders.
pub proof fn lemma_placeholders_count(n: int)
    requires
        n >= 0,
    ensures
        count_char(placeholders(n), '?') == n,
    decreases n,
{
    reveal_strlit("?");
    reveal_strlit(", ?");
    if n == 1 {
        lemma_count_char_singleton('?', '?');
        assert("?"@ =~= seq!['?']);
    } else if n > 1 {
        lemma_placeholders_count(n - 1);
        lemma_count_char_concat(placeholders(n - 1), ", ?"@, '?');
        assert(", ?"@ =~= seq![',', ' ', '?']);
        assert(seq![',', ' ', '?'].drop_last() =~= seq![',', ' ']);
        lemma_count_char_absent(seq![',', ' '], '?');
        assert(count_char(seq![',', ' ', '?'], '?') == 1);
    }
}

/// In every rendered predicate, the number of `?` placeholders equals the
/// number of bound values; together with the left-to-right traversal order
/// of `write`, the i-th placeholder is bound to the i-th value.
pub proof fn lemma_placeholder_value_correspondence<C: Column>(e: Expr<C>)
    requires
        e.wf(),
    ensures
        count_char(e.sql(), '?') == e.vals().len(),
    decreases e,
{
    reveal_strlit(" IS NULL");
    reveal_strlit(" = ?");
    reveal_strlit(" > ?");
    reveal_strlit(" < ?");
    reveal_strlit(" LIKE ?");
    reveal_strlit(" IN (");
    reveal_strlit(")");
    reveal_strlit("(");
    reveal_strlit(") AND (");
    reveal_strlit(") OR (");
    match e {
        Expr::Equal(c, v) => {
            lemma_count_quoted(c.name_spec());
            if v is Null {
                lemma_count_char_concat(quoted(c.name_spec()), " IS NULL"@, '?');
                lemma_count_lit_is_null();
            } else {
                lemma_count_char_concat(quoted(c.name_spec()), " = ?"@, '?');
                lemma_count_lit_one_placeholder(" = ?");
            }
        },
        Expr::Gt(c, _) => {
            lemma_count_quoted(c.name_spec());
            lemma_count_char_concat(quoted(c.name_spec()), " > ?"@, '?');
            lemma_count_lit_one_placeholder(" > ?");
        },
        Expr::Lt(c, _) => {
            lemma_count_quoted(c.name_spec());
            lemma_count_char_concat(quoted(c.name_spec()), " < ?"@, '?');
            lemma_count_lit_one_placeholder(" < ?");
        },
        Expr::Like(c, _) => {
            lemma_count_quoted(c.name_spec());
            lemma_count_char_concat(quoted(c.name_spec()), " LIKE ?"@, '?');
            lemma_count_lit_one_placeholder(" LIKE ?");
        },
        Expr::In(c, vs) => {
            lemma_count_quoted(c.name_spec());
            lemma_placeholders_count(vs@.len() as int);
            lemma_count_char_concat(quoted(c.name_spec()), " IN ("@, '?');
            lemma_count_char_concat(
                quoted(c.name_spec()) + " IN ("@,
                placeholders(vs@.len() as int),
                '?',
            );
            lemma_count_char_concat(
                quoted(c.name_spec()) + " IN ("@ + placeholders(vs@.len() as int),
                ")"@,
                '?',
            );
            assert(count_char(" IN ("@, '?') == 0) by {
                assert(" IN ("@ =~= seq![' ', 'I', 'N', ' ', '(']);
                lemma_count_char_absent(seq![' ', 'I', 'N', ' ', '('], '?');
            };
            assert(count_char(")"@, '?') == 0) by {
                assert(")"@ =~= seq![')']);
                lemma_count_char_singleton(')', '?');
            };
        },
        Expr::Raw(_) => {
        },
        Expr::And(l, r) => {
            lemma_placeholder_value_correspondence(*l);
            lemma_placeholder_value_correspondence(*r);
            lemma_count_paren_pair(l.sql(), r.sql(), ") AND (");
        },
        Expr::Or(l, r) => {
            lemma_placeholder_value_correspondence(*l);
            lemma_placeholder_value_correspondence(*r);
            lemma_count_paren_pair(l.sql(), r.sql(), ") OR (");
        },
    }
}

proof fn lemma_count_lit_is_null()
    ensures
        count_char(" IS NULL"@, '?') == 0,
{
    reveal_strlit(" IS NULL");
    assert(" IS NULL"@ =~= seq![' ', 'I', 'S', ' ', 'N', 'U', 'L', 'L']);
    lemma_count_char_absent(seq![' ', 'I', 'S', ' ', 'N', 'U', 'L', 'L'], '?');
}

/// An operator fragment ending in `?` counts one placeholder.
pub(crate) proof fn lemma_count_lit_one_placeholder(lit: &str)
    requires
        lit@.len() > 0,
        lit@.last() == '?',
        forall|i: int| 0 <= i < lit@.len() - 1 ==> lit@[i] != '?',
    ensures
        count_char(lit@, '?') == 1,
{
    lemma_count_char_absent(lit@.drop_last(), '?');
}

/// Both operands of a binary connective keep their counts under the added
/// parentheses and keyword.
proof fn lemma_count_paren_pair(l: Seq<char>, r: Seq<char>, mid: &str)
    requires
        forall|i: int| 0 <= i < mid@.len() ==> mid@[i] != '?',
    ensures
        count_char("("@ + l + mid@ + r + ")"@, '?') == count_char(l, '?') + count_char(r, '?'),
{
    reveal_strlit("(");
    reveal_strlit(")");
    assert("("@ =~= seq!['(']);
    assert(")"@ =~= seq![')']);
    lemma_count_char_singleton('(', '?');
    lemma_count_char_singleton(')', '?');
    lemma_count_char_absent(mid@, '?');
    lemma_count_char_concat("("@, l, '?');
    lemma_count_char_concat("("@ + l, mid@, '?');
    lemma_count_char_concat("("@ + l + mid@, r, '?');
    lemma_count_char_concat("("@ + l + mid@ + r, ")"@, '?');
}

/// Equality against `Null` renders `IS NULL` and binds nothing; equality
/// against any other value renders `= ?` and binds exactly that value.
pub proof fn lemma_eq_null_renders_is_null<C: Column>(e: Expr<C>)
    requires
        e is Equal,
    ensures
        e->Equal_1 is Null ==> e.sql() == quoted(e->Equal_0.name_spec()) + " IS NULL"@
            && e.vals() == Seq::<Value>::empty(),
        !(e->Equal_1 is Null) ==> e.sql() == quoted(e->Equal_0.name_spec()) + " = ?"@ && e.vals()
            == seq![e->Equal_1],
{
}

/// A binary connective always parenthesizes both operands: the rendering of
/// `P.and(Q)` is `(<P>) AND (<Q>)`, of `P.or(Q)` is `(<P>) OR (<Q>)`, and the
/// bound values are P's followed by Q's.
pub proof fn lemma_connective_parenthesizes<C: Column>(e: Expr<C>)
    requires
        e is And || e is Or,
    ensures
        e is And ==> e.sql() == "("@ + e->And_0.sql() + ") AND ("@ + e->And_1.sql() + ")"@
            && e.vals() == e->And_0.vals() + e->And_1.vals(),
        e is Or ==> e.sql() == "("@ + e->Or_0.sql() + ") OR ("@ + e->Or_1.sql() + ")"@ && e.vals()
            == e->Or_0.vals() + e->Or_1.vals(),
{
}

} // verus!

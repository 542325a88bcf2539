//! Field classification of an entity type and the canonical statement
//! texts derived from it.

use vstd::prelude::*;
use crate::request::marker_count;

verus! {

/// The characters of each name, in order.
pub open spec fn names(v: Seq<String>) -> Seq<Seq<char>> {
    v.map_values(|s: String| s@)
}

/// `items` joined with `sep` between each two neighbours.
pub open spec fn join(items: Seq<Seq<char>>, sep: Seq<char>) -> Seq<char>
    decreases items.len(),
{
    if items.len() == 0 {
        Seq::empty()
    } else if items.len() == 1 {
        items[0]
    } else {
        join(items.drop_last(), sep) + sep + items.last()
    }
}

/// Each field followed by `suffix` (or `suffix` alone, where the name is not kept).
pub open spec fn decorate(fields: Seq<Seq<char>>, keep_name: bool, suffix: Seq<char>) -> Seq<Seq<char>> {
    fields.map_values(|f: Seq<char>| if keep_name { f + suffix } else { suffix })
}

pub open spec fn eq_placeholder() -> Seq<char> {
    seq![' ', '=', ' ', '?']
}

pub open spec fn and_sep() -> Seq<char> {
    seq![' ', 'A', 'N', 'D', ' ']
}

pub open spec fn comma_sep() -> Seq<char> {
    seq![',', ' ']
}

/// `f1 = ? AND f2 = ? AND ...`, in the order of `fields`.
pub open spec fn where_clause(fields: Seq<Seq<char>>) -> Seq<char> {
    join(decorate(fields, true, eq_placeholder()), and_sep())
}

/// `f1 = ?, f2 = ?, ...`, in the order of `fields`.
pub open spec fn set_clause(fields: Seq<Seq<char>>) -> Seq<char> {
    join(decorate(fields, true, eq_placeholder()), comma_sep())
}

/// `f1, f2, ...`, in the order of `fields`.
pub open spec fn column_list(fields: Seq<Seq<char>>) -> Seq<char> {
    join(decorate(fields, true, Seq::empty()), comma_sep())
}

/// `?, ?, ...`, one mark per field.
pub open spec fn marker_list(fields: Seq<Seq<char>>) -> Seq<char> {
    join(decorate(fields, false, seq!['?']), comma_sep())
}

/// Appends the fields of `fields`, each decorated as `decorate` says, joined by `sep`.
fn append_joined(out: &mut String, fields: &Vec<String>, keep_name: bool, suffix: &str, sep: &str)
    ensures
        final(out)@ == old(out)@ + join(decorate(names(fields@), keep_name, suffix@), sep@),
{
    let ghost start = out@;
    let ghost items = decorate(names(fields@), keep_name, suffix@);
    let mut i: usize = 0;
    while i < fields.len()
        invariant
            i <= fields.len(),
            items == decorate(names(fields@), keep_name, suffix@),
            items.len() == fields@.len(),
            out@ == start + join(items.take(i as int), sep@),
        decreases fields.len() - i,
    {
        if i > 0 {
            out.append(sep);
        }
        if keep_name {
            out.append(fields[i].as_str());
        }
        out.append(suffix);
        proof {
            let t = items.take(i + 1);
            assert(t.drop_last() =~= items.take(i as int));
            assert(t.last() == items[i as int]);
            if i == 0 {
                assert(t.len() == 1);
            }
        }
        i = i + 1;
    }
    assert(items.take(fields.len() as int) =~= items);
}

/// Returns `f1 = ? AND f2 = ? AND ...` for the given fields, in their order.
pub fn where_placeholders(fields: &Vec<String>) -> (r: String)
    ensures
        r@ == where_clause(names(fields@)),
{
    let mut out = String::new();
    append_joined(&mut out, fields, true, " = ?", " AND ");
    proof {
        reveal_strlit(" = ?");
        reveal_strlit(" AND ");
        assert(" = ?"@ =~= eq_placeholder());
        assert(" AND "@ =~= and_sep());
        assert(out@ =~= where_clause(names(fields@)));
    }
    out
}


/// Which fields of an entity type form its partition key, its clustering key,
/// and the remaining (regular) columns, each in declared order.
pub struct FieldClassification {
    partition_key: Vec<String>,
    clustering_key: Vec<String>,
    regular: Vec<String>,
}

/// No name stands in both sequences.
pub open spec fn disjoint(a: Seq<Seq<char>>, b: Seq<Seq<char>>) -> bool {
    forall|i: int, j: int| 0 <= i < a.len() && 0 <= j < b.len() ==> a[i] != b[j]
}

/// Whether `s` occurs in `v`.
fn contains_name(v: &Vec<String>, s: &String) -> (r: bool)
    ensures
        r == names(v@).contains(s@),
{
    let mut i: usize = 0;
    while i < v.len()
        invariant
            i <= v.len(),
            forall|k: int| 0 <= k < i ==> names(v@)[k] != s@,
        decreases v.len() - i,
    {
        if v[i] == *s {
            assert(names(v@)[i as int] == s@);
            return true;
        }
        i = i + 1;
    }
    false
}

/// Whether no name of `a` occurs in `b`.
fn check_disjoint(a: &Vec<String>, b: &Vec<String>) -> (r: bool)
    ensures
        r == disjoint(names(a@), names(b@)),
{
    let mut i: usize = 0;
    while i < a.len()
        invariant
            i <= a.len(),
            disjoint(names(a@).take(i as int), names(b@)),
        decreases a.len() - i,
    {
        if contains_name(b, &a[i]) {
            let ghost j = names(b@).index_of(a@[i as int]@);
            assert(names(a@)[i as int] == names(b@)[j]);
            return false;
        }
        assert(disjoint(names(a@).take(i + 1), names(b@))) by {
            assert forall|x: int, y: int| 0 <= x < i + 1 && 0 <= y < names(b@).len() implies
                #[trigger] names(a@).take(i + 1)[x] != #[trigger] names(b@)[y] by {
                if x < i {
                    assert(names(a@).take(i as int)[x] == names(a@).take(i + 1)[x]);
                } else {
                    assert(!names(b@).contains(names(a@)[i as int]));
                }
            }
        }
        i = i + 1;
    }
    assert(names(a@).take(a.len() as int) =~= names(a@));
    true
}

impl FieldClassification {
    pub closed spec fn partition_spec(&self) -> Seq<Seq<char>> {
        names(self.partition_key@)
    }

    pub closed spec fn clustering_spec(&self) -> Seq<Seq<char>> {
        names(self.clustering_key@)
    }

    pub closed spec fn regular_spec(&self) -> Seq<Seq<char>> {
        names(self.regular@)
    }

    /// Partition key followed by clustering key, order kept.
    pub open spec fn primary_key_spec(&self) -> Seq<Seq<char>> {
        self.partition_spec() + self.clustering_spec()
    }

    /// The partition key is non-empty and no name is in two of the sequences.
    pub open spec fn wf(&self) -> bool {
        self.partition_spec().len() > 0
        && disjoint(self.partition_spec(), self.clustering_spec())
        && disjoint(self.partition_spec(), self.regular_spec())
        && disjoint(self.clustering_spec(), self.regular_spec())
    }

    /// Builds a classification; `None` where the partition key is empty or
    /// a name stands in two of the sequences.
    pub fn new(partition_key: Vec<String>, clustering_key: Vec<String>, regular: Vec<String>) -> (r: Option<Self>)
        ensures
            r.is_some() <==> (partition_key@.len() > 0
                && disjoint(names(partition_key@), names(clustering_key@))
                && disjoint(names(partition_key@), names(regular@))
                && disjoint(names(clustering_key@), names(regular@))),
            r matches Some(c) ==> c.wf()
                && c.partition_spec() == names(partition_key@)
                && c.clustering_spec() == names(clustering_key@)
                && c.regular_spec() == names(regular@),
    {
        if partition_key.len() == 0 {
            return None;
        }
        if !check_disjoint(&partition_key, &clustering_key) || !check_disjoint(&partition_key, &regular)
            || !check_disjoint(&clustering_key, &regular) {
            return None;
        }
        Some(FieldClassification { partition_key, clustering_key, regular })
    }

    pub fn partition_key(&self) -> (r: &Vec<String>)
        ensures
            names(r@) == self.partition_spec(),
    {
        &self.partition_key
    }

    pub fn clustering_key(&self) -> (r: &Vec<String>)
        ensures
            names(r@) == self.clustering_spec(),
    {
        &self.clustering_key
    }

    pub fn regular(&self) -> (r: &Vec<String>)
        ensures
            names(r@) == self.regular_spec(),
    {
        &self.regular
    }

    /// The partition key fields followed by the clustering key fields.
    pub fn primary_key(&self) -> (r: Vec<String>)
        ensures
            names(r@) == self.primary_key_spec(),
    {
        let mut r: Vec<String> = Vec::new();
        let mut i: usize = 0;
        while i < self.partition_key.len()
            invariant
                i <= self.partition_key.len(),
                r@.len() == i,
                names(r@) == names(self.partition_key@).take(i as int),
            decreases self.partition_key.len() - i,
        {
            let name = self.partition_key[i].clone();
            r.push(name);
            assert(names(r@)[i as int] == names(self.partition_key@)[i as int]);
            assert(names(r@) =~= names(self.partition_key@).take(i + 1));
            i = i + 1;
        }
        assert(names(self.partition_key@).take(i as int) =~= names(self.partition_key@));
        let mut j: usize = 0;
        while j < self.clustering_key.len()
            invariant
                j <= self.clustering_key.len(),
                r@.len() == self.partition_key@.len() + j,
                names(r@) == self.partition_spec() + names(self.clustering_key@).take(j as int),
            decreases self.clustering_key.len() - j,
        {
            let name = self.clustering_key[j].clone();
            let ghost prev = r@;
            r.push(name);
            assert(forall|k: int| 0 <= k < prev.len() ==> #[trigger] names(r@)[k] == names(prev)[k]);
            assert(names(r@)[r@.len() - 1] == names(self.clustering_key@)[j as int]);
            assert(names(r@) =~= self.partition_spec() + names(self.clustering_key@).take(j + 1));
            j = j + 1;
        }
        assert(names(self.clustering_key@).take(j as int) =~= names(self.clustering_key@));
        r
    }
}


/// The kinds of statement that each entity type owns one text for.
#[derive(Clone, Copy, Debug, PartialEq, Eq, Structural)]
pub enum StatementKind {
    SelectByPrimaryKey,
    SelectByPartitionKey,
    Insert,
    Update,
    DeleteByPrimaryKey,
    DeleteByPartitionKey,
}

/// The canonical text of a statement of `kind` on `table` for the given
/// key and regular fields.
pub open spec fn statement_text(
    kind: StatementKind,
    table: Seq<char>,
    partition: Seq<Seq<char>>,
    clustering: Seq<Seq<char>>,
    regular: Seq<Seq<char>>,
) -> Seq<char> {
    let primary = partition + clustering;
    match kind {
        StatementKind::SelectByPrimaryKey => "SELECT * FROM "@ + table + " WHERE "@ + where_clause(primary),
        StatementKind::SelectByPartitionKey => "SELECT * FROM "@ + table + " WHERE "@ + where_clause(partition),
        StatementKind::Insert => "INSERT INTO "@ + table + " ("@ + column_list(primary + regular) + ") VALUES ("@
            + marker_list(primary + regular) + ")"@,
        StatementKind::Update => "UPDATE "@ + table + " SET "@ + set_clause(regular) + " WHERE "@ + where_clause(
            primary,
        ),
        StatementKind::DeleteByPrimaryKey => "DELETE FROM "@ + table + " WHERE "@ + where_clause(primary),
        StatementKind::DeleteByPartitionKey => "DELETE FROM "@ + table + " WHERE "@ + where_clause(partition),
    }
}

/// The statement text of `kind` for `fields` on `table`.
pub open spec fn text_of(kind: StatementKind, fields: FieldClassification, table: Seq<char>) -> Seq<char> {
    statement_text(kind, table, fields.partition_spec(), fields.clustering_spec(), fields.regular_spec())
}

/// Builds the canonical statement text of `kind` for an entity type stored
/// in `table_name` with the given field classification.
pub fn generate(kind: StatementKind, fields: &FieldClassification, table_name: &str) -> (r: String)
    ensures
        r@ == text_of(kind, *fields, table_name@),
{
    let primary = fields.primary_key();
    let mut out = String::new();
    match kind {
        StatementKind::SelectByPrimaryKey | StatementKind::SelectByPartitionKey => {
            out.append("SELECT * FROM ");
            out.append(table_name);
            out.append(" WHERE ");
            let clause = if kind == StatementKind::SelectByPrimaryKey {
                where_placeholders(&primary)
            } else {
                where_placeholders(&fields.partition_key)
            };
            out.append(clause.as_str());
        },
        StatementKind::DeleteByPrimaryKey => {
            out = delete_query_const(table_name, fields);
        },
        StatementKind::DeleteByPartitionKey => {
            out = delete_by_partition_key_query_const(table_name, fields);
        },
        StatementKind::Insert => {
            let mut columns = primary;
            let mut i: usize = 0;
            while i < fields.regular.len()
                invariant
                    i <= fields.regular.len(),
                    columns@.len() == fields.primary_key_spec().len() + i,
                    names(columns@) == fields.primary_key_spec() + names(fields.regular@).take(i as int),
                decreases fields.regular.len() - i,
            {
                let name = fields.regular[i].clone();
                let ghost prev = columns@;
                columns.push(name);
                assert(forall|k: int| 0 <= k < prev.len() ==> #[trigger] names(columns@)[k] == names(prev)[k]);
                assert(names(columns@) =~= fields.primary_key_spec() + names(fields.regular@).take(i + 1));
                i = i + 1;
            }
            assert(names(fields.regular@).take(i as int) =~= names(fields.regular@));
            out.append("INSERT INTO ");
            out.append(table_name);
            out.append(" (");
            append_joined(&mut out, &columns, true, "", ", ");
            out.append(") VALUES (");
            append_joined(&mut out, &columns, false, "?", ", ");
            out.append(")");
            proof {
                reveal_strlit("");
                reveal_strlit("?");
                reveal_strlit(", ");
                assert(""@ =~= Seq::<char>::empty());
                assert("?"@ =~= seq!['?']);
                assert(", "@ =~= comma_sep());
            }
        },
        StatementKind::Update => {
            out.append("UPDATE ");
            out.append(table_name);
            out.append(" SET ");
            append_joined(&mut out, &fields.regular, true, " = ?", ", ");
            out.append(" WHERE ");
            let clause = where_placeholders(&primary);
            out.append(clause.as_str());
            proof {
                reveal_strlit(" = ?");
                reveal_strlit(", ");
                assert(" = ?"@ =~= eq_placeholder());
                assert(", "@ =~= comma_sep());
            }
        },
    }
    out
}

/// `DELETE FROM <table> WHERE <primary key placeholders>`.
pub fn delete_query_const(table_name: &str, fields: &FieldClassification) -> (r: String)
    ensures
        r@ == text_of(StatementKind::DeleteByPrimaryKey, *fields, table_name@),
{
    let mut out = String::new();
    out.append("DELETE FROM ");
    out.append(table_name);
    out.append(" WHERE ");
    let clause = where_placeholders(&fields.primary_key());
    out.append(clause.as_str());
    out
}

/// `DELETE FROM <table> WHERE <partition key placeholders>`.
pub fn delete_by_partition_key_query_const(table_name: &str, fields: &FieldClassification) -> (r: String)
    ensures
        r@ == text_of(StatementKind::DeleteByPartitionKey, *fields, table_name@),
{
    let mut out = String::new();
    out.append("DELETE FROM ");
    out.append(table_name);
    out.append(" WHERE ");
    let clause = where_placeholders(&fields.partition_key);
    out.append(clause.as_str());
    out
}


proof fn lemma_join_append(a: Seq<Seq<char>>, b: Seq<Seq<char>>, sep: Seq<char>)
    requires
        a.len() > 0,
        b.len() > 0,
    ensures
        join(a + b, sep) == join(a, sep) + sep + join(b, sep),
    decreases b.len(),
{
    if b.len() == 1 {
        assert((a + b).drop_last() =~= a);
        assert(join(b, sep) == b[0]);
    } else {
        lemma_join_append(a, b.drop_last(), sep);
        assert((a + b).drop_last() =~= a + b.drop_last());
        assert(join(a + b, sep) =~= join(a, sep) + sep + join(b, sep));
    }
}

proof fn lemma_decorate_append(a: Seq<Seq<char>>, b: Seq<Seq<char>>, keep_name: bool, suffix: Seq<char>)
    ensures
        decorate(a + b, keep_name, suffix) == decorate(a, keep_name, suffix) + decorate(b, keep_name, suffix),
{
    assert(decorate(a + b, keep_name, suffix) =~= decorate(a, keep_name, suffix) + decorate(b, keep_name, suffix));
}

/// The WHERE clause over the primary key is the clause over the partition key,
/// then ` AND `, then the clause over the clustering key: each key keeps its
/// declared order and the partition key comes first. Without clustering
/// fields it is the partition key clause itself.
pub proof fn lemma_primary_key_where_order(fields: FieldClassification)
    requires
        fields.wf(),
    ensures
        fields.clustering_spec().len() > 0 ==> where_clause(fields.primary_key_spec()) == where_clause(
            fields.partition_spec(),
        ) + and_sep() + where_clause(fields.clustering_spec()),
        fields.clustering_spec().len() == 0 ==> where_clause(fields.primary_key_spec()) == where_clause(
            fields.partition_spec(),
        ),
{
    let p = fields.partition_spec();
    let c = fields.clustering_spec();
    lemma_decorate_append(p, c, true, eq_placeholder());
    if c.len() > 0 {
        lemma_join_append(decorate(p, true, eq_placeholder()), decorate(c, true, eq_placeholder()), and_sep());
    } else {
        assert(p + c =~= p);
    }
}


/// The fields whose values a statement of `kind` takes, in the order of its
/// placeholders: the order in which values must be bound.
pub open spec fn bind_order(kind: StatementKind, fields: FieldClassification) -> Seq<Seq<char>> {
    match kind {
        StatementKind::SelectByPrimaryKey | StatementKind::DeleteByPrimaryKey => fields.primary_key_spec(),
        StatementKind::SelectByPartitionKey | StatementKind::DeleteByPartitionKey => fields.partition_spec(),
        StatementKind::Insert => fields.primary_key_spec() + fields.regular_spec(),
        StatementKind::Update => fields.regular_spec() + fields.primary_key_spec(),
    }
}

/// No name holds a `?`.
pub open spec fn marker_free(items: Seq<Seq<char>>) -> bool {
    forall|i: int| 0 <= i < items.len() ==> !(#[trigger] items[i]).contains('?')
}

proof fn lemma_count_concat(a: Seq<char>, b: Seq<char>)
    ensures
        marker_count(a + b) == marker_count(a) + marker_count(b),
    decreases b.len(),
{
    if b.len() == 0 {
        assert(a + b =~= a);
    } else {
        lemma_count_concat(a, b.drop_last());
        assert((a + b).drop_last() =~= a + b.drop_last());
    }
}

proof fn lemma_count_free(s: Seq<char>)
    requires
        !s.contains('?'),
    ensures
        marker_count(s) == 0,
    decreases s.len(),
{
    if s.len() > 0 {
        assert(s.last() == s[s.len() - 1]);
        assert forall|i: int| 0 <= i < s.drop_last().len() implies s.drop_last()[i] != '?' by {
            assert(s.drop_last()[i] == s[i]);
        }
        lemma_count_free(s.drop_last());
    }
}

proof fn lemma_count_join(items: Seq<Seq<char>>, sep: Seq<char>, k: nat)
    requires
        marker_count(sep) == 0,
        forall|i: int| 0 <= i < items.len() ==> marker_count(#[trigger] items[i]) == k,
    ensures
        marker_count(join(items, sep)) == k * items.len(),
    decreases items.len(),
{
    if items.len() == 1 {
        assert(k * 1 == k) by (nonlinear_arith);
    } else if items.len() > 1 {
        let init = items.drop_last();
        assert forall|i: int| 0 <= i < init.len() implies marker_count(#[trigger] init[i]) == k by {
            assert(init[i] == items[i]);
        }
        lemma_count_join(init, sep, k);
        lemma_count_concat(join(init, sep), sep);
        lemma_count_concat(join(init, sep) + sep, items.last());
        assert(k * init.len() + k == k * items.len()) by (nonlinear_arith)
            requires
                init.len() + 1 == items.len(),
        ;
    }
}

proof fn lemma_count_decorated(fields: Seq<Seq<char>>, keep_name: bool, suffix: Seq<char>, sep: Seq<char>)
    requires
        marker_free(fields),
        marker_count(sep) == 0,
    ensures
        marker_count(join(decorate(fields, keep_name, suffix), sep)) == marker_count(suffix) * fields.len(),
{
    let items = decorate(fields, keep_name, suffix);
    assert forall|i: int| 0 <= i < items.len() implies marker_count(#[trigger] items[i]) == marker_count(suffix) by {
        if keep_name {
            lemma_count_free(fields[i]);
            lemma_count_concat(fields[i], suffix);
        }
    }
    lemma_count_join(items, sep, marker_count(suffix));
}

proof fn lemma_marker_free_concat(a: Seq<Seq<char>>, b: Seq<Seq<char>>)
    requires
        marker_free(a),
        marker_free(b),
    ensures
        marker_free(a + b),
{
    assert forall|i: int| 0 <= i < (a + b).len() implies !(#[trigger] (a + b)[i]).contains('?') by {
        if i < a.len() {
            assert((a + b)[i] == a[i]);
        } else {
            assert((a + b)[i] == b[i - a.len()]);
        }
    }
}

/// Where neither the table name nor any field name holds a `?`, a generated
/// statement has exactly one placeholder per field of its binding order. So a
/// request on it is accepted with one value per field of `bind_order`, bound
/// in that order, and refused with any other number.
pub proof fn lemma_placeholders_match_bind_order(kind: StatementKind, fields: FieldClassification, table: Seq<char>)
    requires
        !table.contains('?'),
        marker_free(fields.partition_spec()),
        marker_free(fields.clustering_spec()),
        marker_free(fields.regular_spec()),
    ensures
        marker_count(text_of(kind, fields, table)) == bind_order(kind, fields).len(),
{
    reveal_strlit("SELECT * FROM ");
    reveal_strlit(" WHERE ");
    reveal_strlit("INSERT INTO ");
    reveal_strlit(" (");
    reveal_strlit(") VALUES (");
    reveal_strlit(")");
    reveal_strlit("UPDATE ");
    reveal_strlit(" SET ");
    reveal_strlit("DELETE FROM ");
    let p = fields.partition_spec();
    let pk = fields.primary_key_spec();
    let reg = fields.regular_spec();
    lemma_marker_free_concat(p, fields.clustering_spec());
    lemma_marker_free_concat(pk, reg);
    lemma_count_free(table);
    assert(marker_count(eq_placeholder()) == 1) by {
        reveal_with_fuel(marker_count, 5);
        assert(eq_placeholder().drop_last() =~= seq![' ', '=', ' ']);
        assert(seq![' ', '=', ' '].drop_last() =~= seq![' ', '=']);
        assert(seq![' ', '='].drop_last() =~= seq![' ']);
        assert(seq![' '].drop_last() =~= Seq::<char>::empty());
    }
    assert(marker_count(seq!['?']) == 1) by {
        reveal_with_fuel(marker_count, 2);
        assert(seq!['?'].drop_last() =~= Seq::<char>::empty());
    }
    assert(marker_count(Seq::<char>::empty()) == 0);
    lemma_count_free(and_sep());
    lemma_count_free(comma_sep());
    lemma_count_free("SELECT * FROM "@);
    lemma_count_free(" WHERE "@);
    lemma_count_free("INSERT INTO "@);
    lemma_count_free(" ("@);
    lemma_count_free(") VALUES ("@);
    lemma_count_free(")"@);
    lemma_count_free("UPDATE "@);
    lemma_count_free(" SET "@);
    lemma_count_free("DELETE FROM "@);
    lemma_count_decorated(pk, true, eq_placeholder(), and_sep());
    lemma_count_decorated(p, true, eq_placeholder(), and_sep());
    lemma_count_decorated(reg, true, eq_placeholder(), comma_sep());
    lemma_count_decorated(pk + reg, true, Seq::empty(), comma_sep());
    lemma_count_decorated(pk + reg, false, seq!['?'], comma_sep());
    match kind {
        StatementKind::SelectByPrimaryKey => {
            lemma_count_concat("SELECT * FROM "@, table);
            lemma_count_concat("SELECT * FROM "@ + table, " WHERE "@);
            lemma_count_concat("SELECT * FROM "@ + table + " WHERE "@, where_clause(pk));
        },
        StatementKind::SelectByPartitionKey => {
            lemma_count_concat("SELECT * FROM "@, table);
            lemma_count_concat("SELECT * FROM "@ + table, " WHERE "@);
            lemma_count_concat("SELECT * FROM "@ + table + " WHERE "@, where_clause(p));
        },
        StatementKind::DeleteByPrimaryKey => {
            lemma_count_concat("DELETE FROM "@, table);
            lemma_count_concat("DELETE FROM "@ + table, " WHERE "@);
            lemma_count_concat("DELETE FROM "@ + table + " WHERE "@, where_clause(pk));
        },
        StatementKind::DeleteByPartitionKey => {
            lemma_count_concat("DELETE FROM "@, table);
            lemma_count_concat("DELETE FROM "@ + table, " WHERE "@);
            lemma_count_concat("DELETE FROM "@ + table + " WHERE "@, where_clause(p));
        },
        StatementKind::Insert => {
            let a = "INSERT INTO "@ + table + " ("@;
            let b = a + column_list(pk + reg) + ") VALUES ("@;
            lemma_count_concat("INSERT INTO "@, table);
            lemma_count_concat("INSERT INTO "@ + table, " ("@);
            lemma_count_concat(a, column_list(pk + reg));
            lemma_count_concat(a + column_list(pk + reg), ") VALUES ("@);
            lemma_count_concat(b, marker_list(pk + reg));
            lemma_count_concat(b + marker_list(pk + reg), ")"@);
        },
        StatementKind::Update => {
            let a = "UPDATE "@ + table + " SET "@;
            lemma_count_concat("UPDATE "@, table);
            lemma_count_concat("UPDATE "@ + table, " SET "@);
            lemma_count_concat(a, set_clause(reg));
            lemma_count_concat(a + set_clause(reg), " WHERE "@);
            lemma_count_concat(a + set_clause(reg) + " WHERE "@, where_clause(pk));
        },
    }
}

} // verus!

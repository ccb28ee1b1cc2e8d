//! The predicate builder: from a filter set to one parameterized query and
//! the ordered list of values bound to its placeholders.
//!
//! Placeholders are numbered by the position of their clause in the list of
//! supplied criteria, so a number and the value bound to it cannot drift
//! apart. No filter value ever becomes part of the query text.

use crate::filters::BoundValue;
use crate::filters::Column;
use crate::filters::FilterSet;
use crate::filters::SqlValue;
use crate::filters::TransactionFilters;
use crate::filters::values_view;
use vstd::prelude::*;
use vstd::string::*;

verus! {

/// The clause that selects every row.
pub open spec fn base_query() -> Seq<char> {
    "SELECT trans_hash, sender, reciever, amount, time FROM data_aggregator WHERE true"@
}

/// The text of the clause that selects every row.
pub fn base_query_text() -> (text: &'static str)
    ensures
        text@ == base_query(),
{
    "SELECT trans_hash, sender, reciever, amount, time FROM data_aggregator WHERE true"
}

/// The character that writes a digit.
pub open spec fn digit_char(digit: nat) -> char {
    if digit == 0 {
        '0'
    } else if digit == 1 {
        '1'
    } else if digit == 2 {
        '2'
    } else if digit == 3 {
        '3'
    } else if digit == 4 {
        '4'
    } else if digit == 5 {
        '5'
    } else if digit == 6 {
        '6'
    } else if digit == 7 {
        '7'
    } else if digit == 8 {
        '8'
    } else {
        '9'
    }
}

/// A number in decimal notation, without sign or leading zeros.
pub open spec fn decimal(number: nat) -> Seq<char>
    decreases number,
{
    if number < 10 {
        seq![digit_char(number)]
    } else {
        decimal(number / 10) + seq![digit_char(number % 10)]
    }
}

fn digit_text(digit: usize) -> (text: &'static str)
    requires
        digit < 10,
    ensures
        text@ == seq![digit_char(digit as nat)],
{
    proof {
        reveal_strlit("0");
        reveal_strlit("1");
        reveal_strlit("2");
        reveal_strlit("3");
        reveal_strlit("4");
        reveal_strlit("5");
        reveal_strlit("6");
        reveal_strlit("7");
        reveal_strlit("8");
        reveal_strlit("9");
    }
    let text: &'static str = if digit == 0 {
        "0"
    } else if digit == 1 {
        "1"
    } else if digit == 2 {
        "2"
    } else if digit == 3 {
        "3"
    } else if digit == 4 {
        "4"
    } else if digit == 5 {
        "5"
    } else if digit == 6 {
        "6"
    } else if digit == 7 {
        "7"
    } else if digit == 8 {
        "8"
    } else {
        "9"
    };
    assert(text@ =~= seq![digit_char(digit as nat)]);
    text
}

/// Appends a number in decimal notation to a text.
pub fn append_decimal(out: &mut String, number: usize)
    ensures
        final(out)@ == old(out)@ + decimal(number as nat),
    decreases number,
{
    if number >= 10 {
        append_decimal(out, number / 10);
    }
    out.append(digit_text(number % 10));
    assert(out@ =~= old(out)@ + decimal(number as nat));
}

/// The text that narrows a search by one column, with the placeholder of the
/// given number in place of the value.
pub open spec fn clause(column: Column, position: nat) -> Seq<char> {
    " AND "@ + column.name() + " = $"@ + decimal(position)
}

/// The query text for a list of columns: the base clause, then one clause per
/// column, the clause of the N-th column holding the N-th placeholder.
pub open spec fn template(columns: Seq<Column>) -> Seq<char>
    decreases columns.len(),
{
    if columns.len() == 0 {
        base_query()
    } else {
        template(columns.drop_last()) + clause(columns.last(), columns.len())
    }
}

/// A column together with the value that narrows it, as mathematical values.
pub struct BoundColumn {
    pub column: Column,
    pub value: BoundValue,
}

/// The binding of one column: one entry where the filter set supplies a
/// value for it, none where it does not.
pub open spec fn binding_of(filters: FilterSet, column: Column) -> Seq<BoundColumn> {
    match filters.value_of(column) {
        Some(value) => seq![BoundColumn { column, value }],
        None => Seq::empty(),
    }
}

/// The supplied criteria in canonical order: hash, sender, receiver, time.
pub open spec fn bindings(filters: FilterSet) -> Seq<BoundColumn> {
    binding_of(filters, Column::TransHash) + binding_of(filters, Column::Sender) + binding_of(
        filters,
        Column::Receiver,
    ) + binding_of(filters, Column::Time)
}

/// The columns of a list of bindings, in order.
pub open spec fn columns_of(bound: Seq<BoundColumn>) -> Seq<Column> {
    bound.map_values(|entry: BoundColumn| entry.column)
}

/// The values of a list of bindings, in order.
pub open spec fn values_of(bound: Seq<BoundColumn>) -> Seq<BoundValue> {
    bound.map_values(|entry: BoundColumn| entry.value)
}

/// The query text that a filter set gives rise to.
pub open spec fn query_template(filters: FilterSet) -> Seq<char> {
    template(columns_of(bindings(filters)))
}

/// The values that a filter set binds, the N-th to the N-th placeholder.
pub open spec fn bound_values(filters: FilterSet) -> Seq<BoundValue> {
    values_of(bindings(filters))
}

/// A column together with the value that narrows it.
#[derive(Debug, PartialEq, Eq)]
pub struct Binding {
    pub column: Column,
    pub value: SqlValue,
}

impl View for Binding {
    type V = BoundColumn;

    open spec fn view(&self) -> BoundColumn {
        BoundColumn { column: self.column, value: self.value@ }
    }
}

/// The views of a list of bindings, in order.
pub open spec fn bindings_view(bound: Seq<Binding>) -> Seq<BoundColumn> {
    bound.map_values(|entry: Binding| entry@)
}

/// A parameterized query: its text, and the values bound to its
/// placeholders, the N-th value to `$N`.
#[derive(Debug, PartialEq, Eq)]
pub struct Query {
    pub sql: String,
    pub params: Vec<SqlValue>,
}

fn push_binding(bound: &mut Vec<Binding>, filters: &TransactionFilters, column: Column)
    ensures
        bindings_view(final(bound)@) == bindings_view(old(bound)@) + binding_of(
            filters@,
            column,
        ),
{
    match filters.value_of(column) {
        Some(value) => {
            bound.push(Binding { column, value });
            assert(bindings_view(bound@) =~= bindings_view(old(bound)@) + binding_of(
                filters@,
                column,
            ));
        },
        None => {
            assert(bindings_view(bound@) =~= bindings_view(old(bound)@) + binding_of(
                filters@,
                column,
            ));
        },
    }
}

/// Lists the supplied criteria in canonical order.
pub fn collect_bindings(filters: &TransactionFilters) -> (bound: Vec<Binding>)
    ensures
        bindings_view(bound@) == bindings(filters@),
{
    let mut bound: Vec<Binding> = Vec::new();
    assert(bindings_view(bound@) =~= Seq::<BoundColumn>::empty());
    push_binding(&mut bound, filters, Column::TransHash);
    push_binding(&mut bound, filters, Column::Sender);
    push_binding(&mut bound, filters, Column::Receiver);
    push_binding(&mut bound, filters, Column::Time);
    assert(bindings_view(bound@) =~= bindings(filters@));
    bound
}

/// Appends the clause for one column, with the placeholder of the given
/// number, to a query text.
pub fn append_clause(sql: &mut String, column: Column, position: usize)
    ensures
        final(sql)@ == old(sql)@ + clause(column, position as nat),
{
    sql.append(" AND ");
    sql.append(column.name_text());
    sql.append(" = $");
    append_decimal(sql, position);
    assert(sql@ =~= old(sql)@ + clause(column, position as nat));
}

/// Writes the query for a list of bindings: every value becomes a bound
/// parameter, and its clause is numbered by its position in the list.
pub fn render_query(bound: &Vec<Binding>) -> (query: Query)
    ensures
        query.sql@ == template(columns_of(bindings_view(bound@))),
        values_view(query.params@) == values_of(bindings_view(bound@)),
{
    let ghost columns = columns_of(bindings_view(bound@));
    let ghost values = values_of(bindings_view(bound@));
    let mut sql = String::from_str(base_query_text());
    let mut params: Vec<SqlValue> = Vec::new();
    let mut index: usize = 0;
    assert(columns.take(0) =~= Seq::<Column>::empty());
    assert(values_view(params@) =~= values.take(0));
    while index < bound.len()
        invariant
            index <= bound.len(),
            params@.len() == index,
            columns == columns_of(bindings_view(bound@)),
            values == values_of(bindings_view(bound@)),
            sql@ == template(columns.take(index as int)),
            values_view(params@) == values.take(index as int),
        decreases bound.len() - index,
    {
        let entry = &bound[index];
        let ghost earlier = params@;
        append_clause(&mut sql, entry.column, index + 1);
        params.push(entry.value.clone());
        proof {
            let next = columns.take(index + 1);
            assert(next.drop_last() =~= columns.take(index as int));
            assert(next.last() == entry.column);
            assert forall|k: int| 0 <= k < index + 1 implies values_view(params@)[k]
                == values.take(index + 1)[k] by {
                if k < index {
                    assert(values_view(earlier)[k] == values.take(index as int)[k]);
                } else {
                    assert(params@[k] == entry.value);
                    assert(bindings_view(bound@)[k] == entry@);
                }
            }
            assert(values_view(params@) =~= values.take(index + 1));
        }
        index = index + 1;
    }
    assert(columns.take(index as int) =~= columns);
    assert(values.take(index as int) =~= values);
    Query { sql, params }
}

/// Builds the search query for a filter set.
///
/// The text starts from the clause that selects every row and gains one
/// equality clause per supplied criterion, in canonical order; the values
/// come back in the order of their placeholders.
pub fn build_query(filters: &TransactionFilters) -> (query: Query)
    ensures
        query.sql@ == query_template(filters@),
        values_view(query.params@) == bound_values(filters@),
        query.params@.len() == bound_values(filters@).len(),
        forall|k: int|
            0 <= k < query.params@.len() ==> (#[trigger] query.params@[k])@ == bound_values(
                filters@,
            )[k],
{
    let bound = collect_bindings(filters);
    let query = render_query(&bound);
    assert forall|k: int| 0 <= k < query.params@.len() implies (#[trigger] query.params@[k])@
        == bound_values(filters@)[k] by {
        assert(values_view(query.params@)[k] == query.params@[k]@);
    }
    query
}

/// How often a character occurs in a text.
pub open spec fn occurrences(text: Seq<char>, wanted: char) -> nat
    decreases text.len(),
{
    if text.len() == 0 {
        0
    } else {
        occurrences(text.drop_last(), wanted) + if text.last() == wanted {
            1nat
        } else {
            0nat
        }
    }
}

/// The character that opens a placeholder.
pub open spec fn placeholder_mark() -> char {
    '$'
}

/// How many placeholders a query text holds.
pub open spec fn placeholder_count(text: Seq<char>) -> nat {
    occurrences(text, placeholder_mark())
}

proof fn lemma_occurrences_concat(left: Seq<char>, right: Seq<char>, wanted: char)
    ensures
        occurrences(left + right, wanted) == occurrences(left, wanted) + occurrences(
            right,
            wanted,
        ),
    decreases right.len(),
{
    if right.len() == 0 {
        assert(left + right =~= left);
    } else {
        assert((left + right).drop_last() =~= left + right.drop_last());
        lemma_occurrences_concat(left, right.drop_last(), wanted);
    }
}

proof fn lemma_occurrences_absent(text: Seq<char>, wanted: char)
    requires
        forall|i: int| 0 <= i < text.len() ==> text[i] != wanted,
    ensures
        occurrences(text, wanted) == 0,
    decreases text.len(),
{
    if text.len() > 0 {
        lemma_occurrences_absent(text.drop_last(), wanted);
    }
}

proof fn lemma_decimal_has_no_placeholder(number: nat)
    ensures
        placeholder_count(decimal(number)) == 0,
    decreases number,
{
    if number < 10 {
        lemma_occurrences_absent(decimal(number), placeholder_mark());
    } else {
        lemma_decimal_has_no_placeholder(number / 10);
        lemma_occurrences_absent(seq![digit_char(number % 10)], placeholder_mark());
        lemma_occurrences_concat(
            decimal(number / 10),
            seq![digit_char(number % 10)],
            placeholder_mark(),
        );
    }
}

proof fn lemma_name_has_no_placeholder(column: Column)
    ensures
        placeholder_count(column.name()) == 0,
{
    reveal_strlit("trans_hash");
    reveal_strlit("sender");
    reveal_strlit("reciever");
    reveal_strlit("time");
    lemma_occurrences_absent(column.name(), placeholder_mark());
}

proof fn lemma_base_query_has_no_placeholder()
    ensures
        placeholder_count(base_query()) == 0,
{
    reveal_strlit(
        "SELECT trans_hash, sender, reciever, amount, time FROM data_aggregator WHERE true",
    );
    lemma_occurrences_absent(base_query(), placeholder_mark());
}

proof fn lemma_clause_has_one_placeholder(column: Column, position: nat)
    ensures
        placeholder_count(clause(column, position)) == 1,
{
    let mark = placeholder_mark();
    reveal_strlit(" AND ");
    reveal_strlit(" = $");
    lemma_occurrences_absent(" AND "@, mark);
    lemma_name_has_no_placeholder(column);
    lemma_decimal_has_no_placeholder(position);
    let opening = " = $"@;
    assert(opening.drop_last().len() == 3);
    lemma_occurrences_absent(opening.drop_last(), mark);
    assert(occurrences(opening, mark) == 1);
    lemma_occurrences_concat(" AND "@, column.name(), mark);
    lemma_occurrences_concat(" AND "@ + column.name(), opening, mark);
    lemma_occurrences_concat(" AND "@ + column.name() + opening, decimal(position), mark);
}

/// A query text holds exactly one placeholder per column it was written for.
pub proof fn lemma_template_placeholder_count(columns: Seq<Column>)
    ensures
        placeholder_count(template(columns)) == columns.len(),
    decreases columns.len(),
{
    if columns.len() == 0 {
        lemma_base_query_has_no_placeholder();
    } else {
        lemma_template_placeholder_count(columns.drop_last());
        lemma_clause_has_one_placeholder(columns.last(), columns.len());
        lemma_occurrences_concat(
            template(columns.drop_last()),
            clause(columns.last(), columns.len()),
            placeholder_mark(),
        );
    }
}

/// The bindings of a filter set are its supplied criteria, each once, in
/// canonical order (hash, sender, receiver, time), each with the value that
/// the filter set holds for it.
pub proof fn lemma_bindings_are_supplied_filters_in_order(filters: FilterSet)
    ensures
        bindings(filters).len() == filters.supplied_count(),
        forall|k: int|
            0 <= k < bindings(filters).len() ==> filters.value_of(
                #[trigger] bindings(filters)[k].column,
            ) == Some(bindings(filters)[k].value),
        forall|i: int, j: int|
            0 <= i < j < bindings(filters).len() ==> (#[trigger] bindings(
                filters,
            )[i]).column.rank() < (#[trigger] bindings(filters)[j]).column.rank(),
        forall|column: Column| #[trigger]
            filters.supplies(column) ==> exists|k: int|
                0 <= k < bindings(filters).len() && (#[trigger] bindings(filters)[k]).column
                    == column,
{
    let hash = binding_of(filters, Column::TransHash);
    let sender = binding_of(filters, Column::Sender);
    let receiver = binding_of(filters, Column::Receiver);
    let time = binding_of(filters, Column::Time);
    let all = bindings(filters);
    assert(all == hash + sender + receiver + time);
    assert forall|column: Column| #[trigger] filters.supplies(column) implies exists|k: int|
        0 <= k < all.len() && (#[trigger] all[k]).column == column by {
        let k = match column {
            Column::TransHash => 0,
            Column::Sender => hash.len() as int,
            Column::Receiver => (hash.len() + sender.len()) as int,
            Column::Time => (hash.len() + sender.len() + receiver.len()) as int,
        };
        assert(all[k].column == column);
    }
}

/// The query built for a filter set holds exactly as many placeholders as
/// criteria were supplied, and binds exactly that many values.
pub proof fn lemma_one_placeholder_per_supplied_filter(filters: FilterSet)
    ensures
        placeholder_count(query_template(filters)) == filters.supplied_count(),
        bound_values(filters).len() == filters.supplied_count(),
{
    lemma_bindings_are_supplied_filters_in_order(filters);
    lemma_template_placeholder_count(columns_of(bindings(filters)));
}

/// The N-th clause of a query text (counting from 1) names the N-th column
/// and holds the placeholder `$N`; what stands before it is the text for the
/// columns before it.
pub proof fn lemma_nth_clause(columns: Seq<Column>, n: int)
    requires
        1 <= n <= columns.len(),
    ensures
        template(columns.take(n)) == template(columns.take(n - 1)) + clause(
            columns[n - 1],
            n as nat,
        ),
        template(columns.take(n)).is_prefix_of(template(columns)),
    decreases columns.len() - n,
{
    assert(columns.take(n).drop_last() =~= columns.take(n - 1));
    if n == columns.len() {
        assert(columns.take(n) =~= columns);
    } else {
        lemma_nth_clause(columns, n + 1);
        assert(template(columns.take(n)).is_prefix_of(template(columns.take(n + 1))));
    }
}

/// In the query built for a filter set, the value bound to the N-th
/// placeholder is the value of the N-th supplied criterion in canonical
/// order, and the clause that holds `$N` names that criterion's column.
pub proof fn lemma_nth_placeholder_binds_nth_filter(filters: FilterSet, n: int)
    requires
        1 <= n <= filters.supplied_count(),
    ensures
        bound_values(filters).len() == filters.supplied_count(),
        filters.value_of(bindings(filters)[n - 1].column) == Some(bound_values(filters)[n - 1]),
        (template(columns_of(bindings(filters)).take(n - 1)) + clause(
            bindings(filters)[n - 1].column,
            n as nat,
        )).is_prefix_of(query_template(filters)),
{
    lemma_bindings_are_supplied_filters_in_order(filters);
    lemma_nth_clause(columns_of(bindings(filters)), n);
}

/// A supplied criterion with N criteria supplied before it in canonical
/// order is bound as value number N + 1, and its column's clause holds the
/// placeholder `$(N + 1)`, right after the text for the criteria before it.
pub proof fn lemma_supplied_filter_meets_its_placeholder(filters: FilterSet, column: Column)
    requires
        filters.supplies(column),
    ensures
        filters.supplied_before(column) < filters.supplied_count(),
        bound_values(filters).len() == filters.supplied_count(),
        Some(bound_values(filters)[filters.supplied_before(column) as int]) == filters.value_of(
            column,
        ),
        columns_of(bindings(filters))[filters.supplied_before(column) as int] == column,
        (template(columns_of(bindings(filters)).take(filters.supplied_before(column) as int))
            + clause(column, filters.supplied_before(column) + 1)).is_prefix_of(
            query_template(filters),
        ),
{
    lemma_bindings_are_supplied_filters_in_order(filters);
    let position = filters.supplied_before(column) as int;
    assert(bindings(filters)[position].column == column);
    lemma_nth_clause(columns_of(bindings(filters)), position + 1);
}

/// With no criterion supplied, the query is the clause that selects every
/// row, and nothing is bound.
pub proof fn lemma_empty_filter_set_selects_all(filters: FilterSet)
    requires
        filters.is_empty(),
    ensures
        query_template(filters) == base_query(),
        bound_values(filters) == Seq::<BoundValue>::empty(),
{
    assert(bindings(filters) =~= Seq::<BoundColumn>::empty());
    assert(columns_of(bindings(filters)) =~= Seq::<Column>::empty());
    assert(bound_values(filters) =~= Seq::<BoundValue>::empty());
}

/// Every query text begins with the clause that selects every row.
pub proof fn lemma_template_extends_base(columns: Seq<Column>)
    ensures
        base_query().is_prefix_of(template(columns)),
    decreases columns.len(),
{
    if columns.len() > 0 {
        lemma_template_extends_base(columns.drop_last());
    }
}

/// The query text depends only on which criteria are supplied, never on
/// their values: two filter sets with the same criteria present give the
/// same text, whatever the values hold.
pub proof fn lemma_template_ignores_values(first: FilterSet, second: FilterSet)
    requires
        first.same_shape(second),
    ensures
        query_template(first) == query_template(second),
{
    assert(columns_of(bindings(first)) =~= columns_of(bindings(second)));
}

} // verus!

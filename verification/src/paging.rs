//! Paged list queries: a list is read in pages of 50, the next page starting
//! after the last item of the previous one (by time, then by id).

use crate::decimal::{decimal_string, spec_decimal};
use vstd::prelude::*;

verus! {

/// A query text with its positional parameters.
#[derive(Debug)]
pub struct PagedQuery {
    pub sql: String,
    pub params: Vec<String>,
}

/// The query of one page: the first page (no last fetched time, given as 0)
/// appends the first-page ordering; any later page appends the cursor
/// condition, whose parameters are the last fetched time three times and then
/// the id of the last fetched item.
pub open spec fn spec_paged_query(
    base_sql: Seq<char>,
    base_params: Seq<Seq<char>>,
    cursor_clause: Seq<char>,
    first_page_clause: Seq<char>,
    last_fetched_time: u128,
    last_id: Seq<char>,
) -> (Seq<char>, Seq<Seq<char>>) {
    if last_fetched_time > 0 {
        let t = spec_decimal(last_fetched_time as nat);
        (base_sql + cursor_clause, base_params + seq![t, t, t, last_id])
    } else {
        (base_sql + first_page_clause, base_params)
    }
}

/// Builds the query of one page.
pub fn paged_query(
    base_sql: &str,
    base_params: Vec<String>,
    cursor_clause: &str,
    first_page_clause: &str,
    last_fetched_time: u128,
    last_id: String,
) -> (q: PagedQuery)
    ensures
        (q.sql@, q.params.deep_view()) == spec_paged_query(
            base_sql@,
            base_params.deep_view(),
            cursor_clause@,
            first_page_clause@,
            last_fetched_time,
            last_id@,
        ),
        base_sql@.is_prefix_of(q.sql@),
        base_params.deep_view().is_prefix_of(q.params.deep_view()),
        last_fetched_time == 0 ==> q.sql@ == base_sql@ + first_page_clause@ && q.params.deep_view()
            == base_params.deep_view(),
        last_fetched_time > 0 ==> {
            &&& q.sql@ == base_sql@ + cursor_clause@
            &&& q.params@.len() == base_params@.len() + 4
            &&& q.params.deep_view().subrange(base_params@.len() as int, base_params@.len() + 4int) == seq![
                spec_decimal(last_fetched_time as nat),
                spec_decimal(last_fetched_time as nat),
                spec_decimal(last_fetched_time as nat),
                last_id@,
            ]
        },
{
    let mut sql = String::from_str(base_sql);
    let mut params = base_params;
    let ghost start = params.deep_view();
    if last_fetched_time > 0 {
        sql.append(cursor_clause);
        params.push(decimal_string(last_fetched_time));
        params.push(decimal_string(last_fetched_time));
        params.push(decimal_string(last_fetched_time));
        params.push(last_id);
        let ghost t = spec_decimal(last_fetched_time as nat);
        assert(params.deep_view() =~= start + seq![t, t, t, last_id@]);
        assert(start.is_prefix_of(params.deep_view()));
        assert(params.deep_view().subrange(start.len() as int, start.len() + 4int) =~= seq![t, t, t, last_id@]);
    } else {
        sql.append(first_page_clause);
    }
    PagedQuery { sql, params }
}

/// Every page keeps the query it pages: the text starts with the base query
/// and the parameters start with the base parameters, whole and in order; the
/// first page adds no parameter and a later page exactly four, the last
/// fetched time three times and then the last id.
pub proof fn lemma_page_keeps_base_query(
    base_sql: Seq<char>,
    base_params: Seq<Seq<char>>,
    cursor_clause: Seq<char>,
    first_page_clause: Seq<char>,
    last_fetched_time: u128,
    last_id: Seq<char>,
)
    ensures
        base_sql.is_prefix_of(
            spec_paged_query(base_sql, base_params, cursor_clause, first_page_clause, last_fetched_time, last_id).0,
        ),
        base_params.is_prefix_of(
            spec_paged_query(base_sql, base_params, cursor_clause, first_page_clause, last_fetched_time, last_id).1,
        ),
        spec_paged_query(base_sql, base_params, cursor_clause, first_page_clause, last_fetched_time, last_id).1.len()
            == base_params.len() + if last_fetched_time > 0 { 4int } else { 0int },
        last_fetched_time > 0 ==> spec_paged_query(
            base_sql,
            base_params,
            cursor_clause,
            first_page_clause,
            last_fetched_time,
            last_id,
        ).1.last() == last_id,
{
    let q = spec_paged_query(base_sql, base_params, cursor_clause, first_page_clause, last_fetched_time, last_id);
    assert(q.0.subrange(0, base_sql.len() as int) =~= base_sql);
    assert(q.1.subrange(0, base_params.len() as int) =~= base_params);
}

} // verus!

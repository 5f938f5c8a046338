//! Execution tip state, the row it is stored as, and the point query that
//! reads it back.
use vstd::prelude::*;
use vstd::string::*;
use crate::decimal::{decimal, digits_value, is_u64_decimal, lemma_decimal_reads_back, parse_u64};

verus! {

/// The state of the most recently committed block.
#[derive(Clone, Debug)]
pub struct ExecutionTipState {
    pub block_number: u64,
    pub arweave_id: String,
    /// The block, serialized.
    pub sealed_block_with_senders_serialized: String,
    pub block_hash: String,
}

/// The row that a state is inserted as.
#[derive(Clone, Debug)]
pub struct StateRow {
    pub block_number: u64,
    pub arweave_id: String,
    pub sealed_block_with_senders: String,
    pub block_hash: String,
}

/// A stored row in the abstract.
pub struct StateRowModel {
    pub block_number: nat,
    pub arweave_id: Seq<char>,
    pub sealed_block_with_senders: Seq<char>,
    pub block_hash: Seq<char>,
}

impl StateRow {
    pub open spec fn view(&self) -> StateRowModel {
        StateRowModel {
            block_number: self.block_number as nat,
            arweave_id: self.arweave_id@,
            sealed_block_with_senders: self.sealed_block_with_senders@,
            block_hash: self.block_hash@,
        }
    }
}

/// The row for a state: its four fields, the serialized block under the
/// column `sealed_block_with_senders`.
pub open spec fn state_row_spec(s: ExecutionTipState) -> StateRowModel {
    StateRowModel {
        block_number: s.block_number as nat,
        arweave_id: s.arweave_id@,
        sealed_block_with_senders: s.sealed_block_with_senders_serialized@,
        block_hash: s.block_hash@,
    }
}

/// Builds the row that `state` is inserted as.
pub fn state_row(state: ExecutionTipState) -> (r: StateRow)
    ensures
        r@ == state_row_spec(state),
{
    StateRow {
        block_number: state.block_number,
        arweave_id: state.arweave_id,
        sealed_block_with_senders: state.sealed_block_with_senders_serialized,
        block_hash: state.block_hash,
    }
}

/// A point query for the state of one block: the query text, which names
/// the block by the parameter `@block_number`, and that parameter's value.
#[derive(Clone, Debug)]
pub struct BlockQuery {
    pub sql: String,
    pub block_number: u64,
}

/// Name of the query parameter that carries the block number.
pub open spec fn block_parameter() -> Seq<char> {
    "block_number"@
}

/// The text of the point query on the state table of `project.dataset`.
pub open spec fn block_query_sql(project: Seq<char>, dataset: Seq<char>) -> Seq<char> {
    "SELECT * FROM `"@ + project + "."@ + dataset + ".state` WHERE block_number = @block_number"@
}

/// The block number that a block identifier names, if it names one.
pub open spec fn block_key(block_id: Seq<char>) -> Option<nat> {
    if is_u64_decimal(block_id) {
        Some(digits_value(block_id))
    } else {
        None
    }
}

/// The name of the block-number query parameter.
pub fn block_parameter_name() -> (r: String)
    ensures
        r@ == block_parameter(),
{
    proof { reveal_strlit("block_number"); }
    String::from_str("block_number")
}

/// Prepares the point query for `block_id`, a block number in decimal. The
/// number travels as a query parameter, never inside the query text; an
/// identifier that is not a decimal `u64` gives `None`.
pub fn prepare_block_query(project_id: &str, dataset_id: &str, block_id: &str) -> (r: Option<BlockQuery>)
    ensures
        r is None <==> block_key(block_id@) is None,
        r matches Some(q) ==> block_key(block_id@) == Some(q.block_number as nat)
            && q.sql@ == block_query_sql(project_id@, dataset_id@),
{
    let n = match parse_u64(block_id) {
        Some(n) => n,
        None => return None,
    };
    let mut sql = String::from_str("SELECT * FROM `");
    sql.append(project_id);
    sql.append(".");
    sql.append(dataset_id);
    sql.append(".state` WHERE block_number = @block_number");
    proof {
        reveal_strlit("SELECT * FROM `");
        reveal_strlit(".");
        reveal_strlit(".state` WHERE block_number = @block_number");
    }
    Some(BlockQuery { sql, block_number: n })
}

/// The payload that a point query yields: the serialized block of the first
/// result row, where the query succeeded and returned one. A failed query
/// and an empty result both give `None`.
pub fn query_payload(result: Result<Option<String>, String>) -> (r: Option<String>)
    ensures
        r == match result {
            Ok(p) => p,
            Err(_) => None,
        },
{
    match result {
        Ok(p) => p,
        Err(_) => None,
    }
}

/// What the store answers to the point query for block `n` on a table that
/// holds `rows`: the serialized block of the first row of that block.
pub open spec fn point_query(rows: Seq<StateRowModel>, n: nat) -> Option<Seq<char>>
    decreases rows.len(),
{
    if rows.len() == 0 {
        None
    } else if rows[0].block_number == n {
        Some(rows[0].sealed_block_with_senders)
    } else {
        point_query(rows.drop_first(), n)
    }
}

proof fn lemma_point_query_append(rows: Seq<StateRowModel>, row: StateRowModel)
    requires
        forall|i: int| 0 <= i < rows.len() ==> (#[trigger] rows[i]).block_number != row.block_number,
    ensures
        point_query(rows.push(row), row.block_number) == Some(row.sealed_block_with_senders),
    decreases rows.len(),
{
    if rows.len() > 0 {
        let t = rows.drop_first();
        assert(rows.push(row).drop_first() =~= t.push(row));
        assert forall|i: int| 0 <= i < t.len() implies (#[trigger] t[i]).block_number != row.block_number by {
            assert(t[i] == rows[i + 1]);
        }
        assert(rows.push(row)[0] == rows[0]);
        lemma_point_query_append(t, row);
    } else {
        assert(rows.push(row)[0] == row);
    }
}

/// Round trip: inserting the row of `state` into a table that holds no row
/// of its block, then querying with the block number written in decimal,
/// gives back the serialized block.
pub proof fn lemma_insert_then_query(rows: Seq<StateRowModel>, state: ExecutionTipState)
    requires
        forall|i: int| 0 <= i < rows.len() ==> (#[trigger] rows[i]).block_number != state.block_number,
    ensures
        block_key(decimal(state.block_number as nat)) == Some(state.block_number as nat),
        point_query(rows.push(state_row_spec(state)), state.block_number as nat)
            == Some(state.sealed_block_with_senders_serialized@),
{
    lemma_decimal_reads_back(state.block_number as nat);
    lemma_point_query_append(rows, state_row_spec(state));
}

} // verus!

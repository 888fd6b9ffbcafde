//! How the LanceDB gateway writes rows: nothing, an append, or a merge on
//! key columns, and what it reports for each.
use vstd::prelude::*;

verus! {

/// How an upsert writes its rows.
#[derive(Debug, Clone, Copy, PartialEq, Eq)]
pub enum UpsertPlan {
    /// The input held no rows: nothing is written.
    Nothing,
    /// No key columns were named: the rows are appended.
    Append,
    /// Key columns were named: matching rows are updated, the others inserted.
    Merge,
}

/// Chooses how an upsert of `input_rows` rows with `key_column_count` key
/// columns writes them.
pub fn plan_upsert(input_rows: u64, key_column_count: usize) -> (r: UpsertPlan)
    ensures
        input_rows == 0 ==> r == UpsertPlan::Nothing,
        input_rows > 0 && key_column_count == 0 ==> r == UpsertPlan::Append,
        input_rows > 0 && key_column_count > 0 ==> r == UpsertPlan::Merge,
{
    if input_rows == 0 {
        UpsertPlan::Nothing
    } else if key_column_count == 0 {
        UpsertPlan::Append
    } else {
        UpsertPlan::Merge
    }
}

/// What an upsert reports: a message, the table version after it, and the
/// rows it read, inserted, updated and deleted.
#[derive(Debug, Clone)]
pub struct UpsertSummary {
    pub message: String,
    pub version: u64,
    pub input_rows: u64,
    pub inserted_rows: u64,
    pub updated_rows: u64,
    pub deleted_rows: u64,
}

/// The report of an upsert that had no rows to write.
pub fn nothing_written(version: u64) -> (r: UpsertSummary)
    ensures
        r.message@ == "no rows to write"@,
        r.version == version,
        r.input_rows == 0 && r.inserted_rows == 0 && r.updated_rows == 0 && r.deleted_rows == 0,
{
    UpsertSummary {
        message: String::from_str("no rows to write"),
        version,
        input_rows: 0,
        inserted_rows: 0,
        updated_rows: 0,
        deleted_rows: 0,
    }
}

/// The report of an append: every row read was inserted.
pub fn append_summary(version: u64, input_rows: u64) -> (r: UpsertSummary)
    ensures
        r.message@ == "append completed"@,
        r.version == version,
        r.input_rows == input_rows && r.inserted_rows == input_rows,
        r.updated_rows == 0 && r.deleted_rows == 0,
{
    UpsertSummary {
        message: String::from_str("append completed"),
        version,
        input_rows,
        inserted_rows: input_rows,
        updated_rows: 0,
        deleted_rows: 0,
    }
}

/// The report of a merge, with the counts the merge returned.
pub fn merge_summary(version: u64, input_rows: u64, inserted_rows: u64, updated_rows: u64, deleted_rows: u64) -> (r: UpsertSummary)
    ensures
        r.message@ == "merge upsert completed"@,
        r.version == version,
        r.input_rows == input_rows,
        r.inserted_rows == inserted_rows,
        r.updated_rows == updated_rows,
        r.deleted_rows == deleted_rows,
{
    UpsertSummary {
        message: String::from_str("merge upsert completed"),
        version,
        input_rows,
        inserted_rows,
        updated_rows,
        deleted_rows,
    }
}

/// The number of rows in record batches of the given sizes, as the search
/// reports it.
pub open spec fn spec_row_total(sizes: Seq<u64>) -> int
    decreases sizes.len(),
{
    if sizes.len() == 0 {
        0
    } else {
        spec_row_total(sizes.drop_last()) + sizes.last()
    }
}

/// Adds up the sizes of record batches (a sum past `u64::MAX` is a panic).
pub fn count_rows(sizes: &Vec<u64>) -> (r: u64)
    requires
        spec_row_total(sizes@) <= u64::MAX,
    ensures
        r == spec_row_total(sizes@),
{
    let mut total: u64 = 0;
    let mut i: usize = 0;
    assert(sizes@.subrange(0, 0) =~= Seq::<u64>::empty());
    while i < sizes.len()
        invariant
            0 <= i <= sizes.len(),
            spec_row_total(sizes@) <= u64::MAX,
            total == spec_row_total(sizes@.subrange(0, i as int)),
        decreases sizes.len() - i,
    {
        assert(sizes@.subrange(0, i + 1).drop_last() =~= sizes@.subrange(0, i as int));
        proof {
            lemma_row_total_grows(sizes@, i + 1);
        }
        total = total + sizes[i];
        i += 1;
    }
    assert(sizes@.subrange(0, sizes.len() as int) =~= sizes@);
    total
}

/// A prefix of the batches holds no more rows than all of them.
proof fn lemma_row_total_grows(sizes: Seq<u64>, k: int)
    requires
        0 <= k <= sizes.len(),
    ensures
        spec_row_total(sizes.subrange(0, k)) <= spec_row_total(sizes),
    decreases sizes.len() - k,
{
    if k < sizes.len() {
        lemma_row_total_grows(sizes, k + 1);
        assert(sizes.subrange(0, k + 1).drop_last() =~= sizes.subrange(0, k));
    } else {
        assert(sizes.subrange(0, k) =~= sizes);
    }
}

} // verus!

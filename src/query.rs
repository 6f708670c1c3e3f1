//! Shaping the rows of a query result. Running the query is the caller's
//! part; the rows it returned are handed in here.
use vstd::prelude::*;

verus! {

/// Why a query gave no rows to work with.
#[derive(Debug, PartialEq, Eq)]
pub enum QueryError {
    /// The query could not be run, or the server reported an error.
    Failed(String),
    /// The statement ran but returns no rows.
    NoRows,
    /// The row at this position could not be mapped, for this reason.
    RowMapping { row: usize, reason: String },
}

/// Whether `mapper` can accept `row`.
pub open spec fn maps_row<T, F: Fn(&Vec<Option<String>>) -> Result<T, String>>(
    mapper: F,
    row: &Vec<Option<String>>,
) -> bool {
    exists|t: T| mapper.ensures((row,), Ok::<T, String>(t))
}

/// Maps each row of a query result with `mapper`, in order. The first row
/// that `mapper` rejects ends the work with a `RowMapping` error; an error
/// of the query itself is passed on.
pub fn query_as<T, F>(rows: Result<Vec<Vec<Option<String>>>, QueryError>, mapper: F) -> (r: Result<
    Vec<T>,
    QueryError,
>) where F: Fn(&Vec<Option<String>>) -> Result<T, String>
    requires
        forall|row: &Vec<Option<String>>| mapper.requires((row,)),
    ensures
        rows matches Err(e) ==> r == Err::<Vec<T>, QueryError>(e),
        rows matches Ok(rs) ==> match r {
            Ok(v) => {
                &&& v@.len() == rs@.len()
                &&& forall|i: int| 0 <= i < v@.len() ==> mapper.ensures((&rs@[i],), Ok(v@[i]))
            },
            Err(QueryError::RowMapping { row, reason }) => {
                &&& row < rs@.len()
                &&& mapper.ensures((&rs@[row as int],), Err(reason))
                &&& forall|j: int| 0 <= j < row ==> maps_row(mapper, &rs@[j])
            },
            Err(_) => false,
        },
{
    let all = match rows {
        Ok(rs) => rs,
        Err(e) => return Err(e),
    };
    assert(rows == Ok::<Vec<Vec<Option<String>>>, QueryError>(all));
    let mut out: Vec<T> = Vec::new();
    let mut i: usize = 0;
    while i < all.len()
        invariant
            i <= all@.len(),
            rows == Ok::<Vec<Vec<Option<String>>>, QueryError>(all),
            out@.len() == i,
            forall|row: &Vec<Option<String>>| mapper.requires((row,)),
            forall|k: int| 0 <= k < i ==> mapper.ensures((&all@[k],), Ok(out@[k])),
        decreases all@.len() - i,
    {
        let res = mapper(&all[i]);
        match res {
            Ok(t) => {
                out.push(t);
            },
            Err(reason) => {
                proof {
                    assert forall|j: int| 0 <= j < i implies maps_row(mapper, &all@[j]) by {
                        assert(mapper.ensures((&all@[j],), Ok(out@[j])));
                    }
                }
                return Err(QueryError::RowMapping { row: i, reason });
            },
        }
        i = i + 1;
    }
    Ok(out)
}

/// The schema text a schema query's rows hold: the first column of the
/// first row, or the empty text where there is none or it is NULL.
pub open spec fn schema_text(rows: Seq<Vec<Option<String>>>) -> Seq<char> {
    if rows.len() > 0 {
        first_text(rows[0]@)
    } else {
        Seq::empty()
    }
}

/// The text in the first column of a row, or the empty text where the row
/// is empty or the value NULL.
pub open spec fn first_text(values: Seq<Option<String>>) -> Seq<char> {
    if values.len() > 0 && values[0] is Some {
        (values[0]->0)@
    } else {
        Seq::empty()
    }
}

/// The value in the first column of a row, or the empty text where the row
/// is empty or the value NULL.
fn first_value(values: &Vec<Option<String>>) -> (r: String)
    ensures
        r@ == first_text(values@),
{
    if values.len() == 0 {
        return String::new();
    }
    match &values[0] {
        Some(s) => s.clone(),
        None => String::new(),
    }
}

/// Maps a row to the text of its first column; never fails.
fn first_column(values: &Vec<Option<String>>) -> (r: Result<String, String>)
    ensures
        r matches Ok(s) && s@ == first_text(values@),
{
    Ok(first_value(values))
}

/// The JSON description of the tables, views and columns that the schema
/// query returned: the value of its single column in its first row, or the
/// empty text where the query failed or returned nothing.
pub fn get_schema_json(rows: Result<Vec<Vec<Option<String>>>, QueryError>) -> (r: String)
    ensures
        rows matches Ok(rs) ==> r@ == schema_text(rs@),
        rows is Err ==> r@ == Seq::<char>::empty(),
{
    let mapped = query_as(rows, first_column);
    match mapped {
        Ok(v) => {
            if v.len() > 0 {
                let mut v = v;
                v.remove(0)
            } else {
                String::new()
            }
        },
        Err(_) => String::new(),
    }
}

} // verus!

use vstd::prelude::*;

use crate::error::ErrorCode;

verus! {

/// The header of the host's CTE list as the host reports it: how many
/// entries it claims to hold, how many cells it has allocated, and whether a
/// cell array is attached at all.
#[derive(Debug, Clone, Copy, PartialEq, Eq, Structural)]
pub struct ListShape {
    pub length: i32,
    pub max_length: i32,
    pub has_elements: bool,
}

/// A list header that can be walked: its length is neither negative nor
/// beyond its allocation, and a non-empty list has its cells attached.
pub open spec fn shape_ok(shape: ListShape) -> bool {
    &&& 0 <= shape.length <= shape.max_length
    &&& shape.length > 0 ==> shape.has_elements
}

/// The number of CTE entries to read from a query's list: none when the list
/// is absent, otherwise its length once the header has been checked.
pub fn cte_count(list: Option<ListShape>) -> (r: Result<usize, ErrorCode>)
    ensures
        list is None ==> r == Ok::<usize, ErrorCode>(0),
        list matches Some(shape) ==> {
            &&& r is Ok <==> shape_ok(shape)
            &&& r matches Ok(n) ==> n == shape.length
            &&& r is Err ==> r == Err::<usize, ErrorCode>(ErrorCode::MalformedHostStructure)
        },
{
    match list {
        None => Ok(0),
        Some(shape) => {
            if 0 <= shape.length && shape.length <= shape.max_length && (shape.length == 0
                || shape.has_elements) {
                Ok(shape.length as usize)
            } else {
                Err(ErrorCode::MalformedHostStructure)
            }
        },
    }
}

/// The value of the deparser's formatting flag; offload paths always ask for
/// plain (unformatted) text.
pub fn deparse_flag(pretty: bool) -> (r: i8)
    ensures
        r == (if pretty { 1i8 } else { 0i8 }),
{
    if pretty {
        1
    } else {
        0
    }
}

/// What reconstructing one sub-query yields from the deparser's answer.
pub open spec fn reconstructed(deparsed: Option<String>) -> Result<String, ErrorCode> {
    match deparsed {
        Some(sql) => Ok(sql),
        None => Err(ErrorCode::DeparseFailure),
    }
}

/// Turns the deparser's answer for one sub-query into owned SQL text; an
/// absent answer is a `DeparseFailure` and is never read.
pub fn reconstruct(deparsed: Option<String>) -> (r: Result<String, ErrorCode>)
    ensures
        r == reconstructed(deparsed),
{
    match deparsed {
        Some(sql) => Ok(sql),
        None => Err(ErrorCode::DeparseFailure),
    }
}

/// Collects the SQL text of each CTE in list order, given the count that the
/// checked header promised and the deparser's answer for each cell read.
/// Fails with `MalformedHostStructure` when the two counts disagree.
pub fn extract_ctes(expected: usize, deparsed: Vec<Option<String>>) -> (r: Result<
    Vec<Result<String, ErrorCode>>,
    ErrorCode,
>)
    ensures
        r is Ok <==> deparsed@.len() == expected,
        r is Err ==> r == Err::<Vec<Result<String, ErrorCode>>, ErrorCode>(
            ErrorCode::MalformedHostStructure,
        ),
        r matches Ok(ctes) ==> ctes@ == deparsed@.map_values(|d: Option<String>| reconstructed(d)),
{
    if deparsed.len() != expected {
        return Err(ErrorCode::MalformedHostStructure);
    }
    let ghost input = deparsed@;
    let mut rest = deparsed;
    assert(rest@ =~= input.subrange(0, expected as int));
    let mut ctes: Vec<Result<String, ErrorCode>> = Vec::new();
    let mut i: usize = 0;
    while i < expected
        invariant
            i <= expected,
            input.len() == expected,
            rest@ == input.subrange(i as int, expected as int),
            ctes@.len() == i,
            forall|j: int| 0 <= j < i ==> ctes@[j] == reconstructed(input[j]),
        decreases expected - i,
    {
        let taken = rest.remove(0);
        ctes.push(reconstruct(taken));
        assert(rest@ =~= input.subrange(i + 1, expected as int));
        i = i + 1;
    }
    assert(ctes@ =~= input.map_values(|d: Option<String>| reconstructed(d)));
    Ok(ctes)
}

} // verus!

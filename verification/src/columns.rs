//! The network functions on whole columns.
//!
//! A column is a sequence of rows, each a value or missing. A function
//! returns a column of as many rows as it was given: a row with a missing
//! argument gives a missing result, and the first row that fails ends the
//! call with that row's error.

use vstd::prelude::*;
use crate::error::{NetError, NetErrorView};
use crate::inet::{
    accessor_text, family_text, masklen_text, merge_text, same_family_text, set_masklen_text,
    Accessor,
};

verus! {

/// `result` is what a column function returns when its rows come out as
/// `rows`, where `rows[i]` is nothing for a row with a missing argument and
/// the row's own outcome otherwise.
///
/// With every row well, the result holds each row's value in its place and
/// nothing for the rows with nothing. Otherwise it is the error of the first
/// row that failed.
pub open spec fn column_outcome<V, E>(
    rows: Seq<Option<Result<V, E>>>,
    result: Result<Seq<Option<V>>, E>,
) -> bool {
    match result {
        Ok(out) => {
            &&& out.len() == rows.len()
            &&& forall|i: int|
                0 <= i < rows.len() ==> match #[trigger] rows[i] {
                    None => out[i] is None,
                    Some(row) => row is Ok && out[i] == Some(row->Ok_0),
                }
        },
        Err(e) => exists|k: int|
            {
                &&& 0 <= k < rows.len()
                &&& #[trigger] rows[k] == Some(Err::<V, E>(e))
                &&& forall|j: int| 0 <= j < k ==> !(#[trigger] rows[j] matches Some(Err(_)))
            },
    }
}

/// A cell of a text column as a mathematical value.
pub open spec fn text_cell(cell: Option<String>) -> Option<Seq<char>> {
    match cell {
        Some(text) => Some(text@),
        None => None,
    }
}

/// A text column as a mathematical value.
pub open spec fn text_cells(column: Seq<Option<String>>) -> Seq<Option<Seq<char>>> {
    Seq::new(column.len(), |i: int| text_cell(column[i]))
}

/// The outcome of a function that returns a text column, as a mathematical
/// value.
pub open spec fn text_column_outcome(result: Result<Vec<Option<String>>, NetError>) -> Result<
    Seq<Option<Seq<char>>>,
    NetErrorView,
> {
    match result {
        Ok(column) => Ok(text_cells(column@)),
        Err(e) => Err(e@),
    }
}

/// The outcome of a function that returns a column of plain values, as a
/// mathematical value.
pub open spec fn plain_column_outcome<T>(result: Result<Vec<Option<T>>, NetError>) -> Result<
    Seq<Option<T>>,
    NetErrorView,
> {
    match result {
        Ok(column) => Ok(column@),
        Err(e) => Err(e@),
    }
}

/// The rows of an accessor over a column of texts.
pub open spec fn accessor_rows(accessor: Accessor, column: Seq<Option<String>>) -> Seq<
    Option<Result<Seq<char>, NetErrorView>>,
> {
    Seq::new(
        column.len(),
        |i: int|
            match column[i] {
                Some(text) => Some(accessor_text(accessor, text@)),
                None => None,
            },
    )
}

/// The rows of `family` over a column of texts.
pub open spec fn family_rows(column: Seq<Option<String>>) -> Seq<
    Option<Result<u8, NetErrorView>>,
> {
    Seq::new(
        column.len(),
        |i: int|
            match column[i] {
                Some(text) => Some(family_text(text@)),
                None => None,
            },
    )
}

/// The rows of `masklen` over a column of texts.
pub open spec fn masklen_rows(column: Seq<Option<String>>) -> Seq<
    Option<Result<u8, NetErrorView>>,
> {
    Seq::new(
        column.len(),
        |i: int|
            match column[i] {
                Some(text) => Some(masklen_text(text@)),
                None => None,
            },
    )
}

/// The rows of `inet_merge` over two columns of texts of one length.
pub open spec fn merge_rows(first: Seq<Option<String>>, second: Seq<Option<String>>) -> Seq<
    Option<Result<Seq<char>, NetErrorView>>,
> {
    Seq::new(
        first.len(),
        |i: int|
            match (first[i], second[i]) {
                (Some(a), Some(b)) => Some(merge_text(a@, b@)),
                _ => None,
            },
    )
}

/// The rows of `inet_same_family` over two columns of texts of one length.
pub open spec fn same_family_rows(
    first: Seq<Option<String>>,
    second: Seq<Option<String>>,
) -> Seq<Option<Result<bool, NetErrorView>>> {
    Seq::new(
        first.len(),
        |i: int|
            match (first[i], second[i]) {
                (Some(a), Some(b)) => Some(same_family_text(a@, b@)),
                _ => None,
            },
    )
}

/// The rows of `set_masklen` over a column of texts and a column of prefix
/// lengths of one length.
pub open spec fn set_masklen_rows(
    column: Seq<Option<String>>,
    prefixes: Seq<Option<i64>>,
) -> Seq<Option<Result<Seq<char>, NetErrorView>>> {
    Seq::new(
        column.len(),
        |i: int|
            match (column[i], prefixes[i]) {
                (Some(text), Some(prefix)) => Some(set_masklen_text(text@, prefix as int)),
                _ => None,
            },
    )
}

/// Applies `accessor` to every row of `column`.
pub fn map_accessor(accessor: Accessor, column: &Vec<Option<String>>) -> (result: Result<
    Vec<Option<String>>,
    NetError,
>)
    ensures
        column_outcome(accessor_rows(accessor, column@), text_column_outcome(result)),
{
    let ghost rows = accessor_rows(accessor, column@);
    let mut out: Vec<Option<String>> = Vec::new();
    let mut i: usize = 0;
    while i < column.len()
        invariant
            i <= column.len(),
            out@.len() == i,
            rows == accessor_rows(accessor, column@),
            forall|j: int|
                0 <= j < i ==> match #[trigger] rows[j] {
                    None => out@[j] is None,
                    Some(row) => row is Ok && text_cell(out@[j]) == Some(row->Ok_0),
                },
        decreases column.len() - i,
    {
        match &column[i] {
            Some(text) => {
                match crate::inet::access(accessor, text.as_str()) {
                    Ok(derived) => {
                        out.push(Some(derived));
                    },
                    Err(e) => {
                        assert(rows[i as int] == Some(
                            Err::<Seq<char>, NetErrorView>(e@),
                        ));
                        return Err(e);
                    },
                }
            },
            None => {
                out.push(None);
            },
        }
        i += 1;
    }
    proof {
        let view = text_column_outcome(Ok(out))->Ok_0;
        assert forall|k: int| 0 <= k < rows.len() implies match #[trigger] rows[k] {
            None => view[k] is None,
            Some(row) => row is Ok && view[k] == Some(row->Ok_0),
        } by {}
    }
    Ok(out)
}

/// The broadcast address of each network of `column`.
pub fn broadcast(column: &Vec<Option<String>>) -> (result: Result<Vec<Option<String>>, NetError>)
    ensures
        column_outcome(accessor_rows(Accessor::Broadcast, column@), text_column_outcome(result)),
{
    map_accessor(Accessor::Broadcast, column)
}

/// The address of each network of `column`, host bits cleared.
pub fn host(column: &Vec<Option<String>>) -> (result: Result<Vec<Option<String>>, NetError>)
    ensures
        column_outcome(accessor_rows(Accessor::Host, column@), text_column_outcome(result)),
{
    map_accessor(Accessor::Host, column)
}

/// The host mask of each network of `column`.
pub fn hostmask(column: &Vec<Option<String>>) -> (result: Result<Vec<Option<String>>, NetError>)
    ensures
        column_outcome(accessor_rows(Accessor::Hostmask, column@), text_column_outcome(result)),
{
    map_accessor(Accessor::Hostmask, column)
}

/// The mask of each network of `column`.
pub fn netmask(column: &Vec<Option<String>>) -> (result: Result<Vec<Option<String>>, NetError>)
    ensures
        column_outcome(accessor_rows(Accessor::Netmask, column@), text_column_outcome(result)),
{
    map_accessor(Accessor::Netmask, column)
}

/// The network part of each address of `column`.
pub fn network(column: &Vec<Option<String>>) -> (result: Result<Vec<Option<String>>, NetError>)
    ensures
        column_outcome(accessor_rows(Accessor::Network, column@), text_column_outcome(result)),
{
    map_accessor(Accessor::Network, column)
}

/// The family of each network of `column`: 4 for IPv4, 6 for IPv6.
pub fn family(column: &Vec<Option<String>>) -> (result: Result<Vec<Option<u8>>, NetError>)
    ensures
        column_outcome(family_rows(column@), plain_column_outcome(result)),
{
    let ghost rows = family_rows(column@);
    let mut out: Vec<Option<u8>> = Vec::new();
    let mut i: usize = 0;
    while i < column.len()
        invariant
            i <= column.len(),
            out@.len() == i,
            rows == family_rows(column@),
            forall|j: int|
                0 <= j < i ==> match #[trigger] rows[j] {
                    None => out@[j] is None,
                    Some(row) => row is Ok && out@[j] == Some(row->Ok_0),
                },
        decreases column.len() - i,
    {
        match &column[i] {
            Some(text) => {
                match crate::inet::family(text.as_str()) {
                    Ok(number) => {
                        out.push(Some(number));
                    },
                    Err(e) => {
                        assert(rows[i as int] == Some(Err::<u8, NetErrorView>(e@)));
                        return Err(e);
                    },
                }
            },
            None => {
                out.push(None);
            },
        }
        i += 1;
    }
    Ok(out)
}

/// The prefix length of each network of `column`.
pub fn masklen(column: &Vec<Option<String>>) -> (result: Result<Vec<Option<u8>>, NetError>)
    ensures
        column_outcome(masklen_rows(column@), plain_column_outcome(result)),
{
    let ghost rows = masklen_rows(column@);
    let mut out: Vec<Option<u8>> = Vec::new();
    let mut i: usize = 0;
    while i < column.len()
        invariant
            i <= column.len(),
            out@.len() == i,
            rows == masklen_rows(column@),
            forall|j: int|
                0 <= j < i ==> match #[trigger] rows[j] {
                    None => out@[j] is None,
                    Some(row) => row is Ok && out@[j] == Some(row->Ok_0),
                },
        decreases column.len() - i,
    {
        match &column[i] {
            Some(text) => {
                match crate::inet::masklen(text.as_str()) {
                    Ok(number) => {
                        out.push(Some(number));
                    },
                    Err(e) => {
                        assert(rows[i as int] == Some(Err::<u8, NetErrorView>(e@)));
                        return Err(e);
                    },
                }
            },
            None => {
                out.push(None);
            },
        }
        i += 1;
    }
    Ok(out)
}

/// The smallest network that holds both networks of each row.
///
/// Fails with `ArgumentCountMismatch` when the columns differ in length.
pub fn inet_merge(first: &Vec<Option<String>>, second: &Vec<Option<String>>) -> (result: Result<
    Vec<Option<String>>,
    NetError,
>)
    ensures
        first@.len() != second@.len() ==> text_column_outcome(result) == Err::<
            Seq<Option<Seq<char>>>,
            NetErrorView,
        >(NetErrorView::ArgumentCountMismatch),
        first@.len() == second@.len() ==> column_outcome(
            merge_rows(first@, second@),
            text_column_outcome(result),
        ),
{
    if first.len() != second.len() {
        return Err(NetError::ArgumentCountMismatch);
    }
    let ghost rows = merge_rows(first@, second@);
    let mut out: Vec<Option<String>> = Vec::new();
    let mut i: usize = 0;
    while i < first.len()
        invariant
            i <= first.len(),
            first.len() == second.len(),
            out@.len() == i,
            rows == merge_rows(first@, second@),
            forall|j: int|
                0 <= j < i ==> match #[trigger] rows[j] {
                    None => out@[j] is None,
                    Some(row) => row is Ok && text_cell(out@[j]) == Some(row->Ok_0),
                },
        decreases first.len() - i,
    {
        match (&first[i], &second[i]) {
            (Some(a), Some(b)) => {
                match crate::inet::inet_merge(a.as_str(), b.as_str()) {
                    Ok(merged) => {
                        out.push(Some(merged));
                    },
                    Err(e) => {
                        assert(rows[i as int] == Some(
                            Err::<Seq<char>, NetErrorView>(e@),
                        ));
                        return Err(e);
                    },
                }
            },
            _ => {
                out.push(None);
            },
        }
        i += 1;
    }
    proof {
        let view = text_column_outcome(Ok(out))->Ok_0;
        assert forall|k: int| 0 <= k < rows.len() implies match #[trigger] rows[k] {
            None => view[k] is None,
            Some(row) => row is Ok && view[k] == Some(row->Ok_0),
        } by {}
    }
    Ok(out)
}

/// Whether the two networks of each row are of one family.
///
/// Fails with `ArgumentCountMismatch` when the columns differ in length.
pub fn inet_same_family(
    first: &Vec<Option<String>>,
    second: &Vec<Option<String>>,
) -> (result: Result<Vec<Option<bool>>, NetError>)
    ensures
        first@.len() != second@.len() ==> plain_column_outcome(result) == Err::<
            Seq<Option<bool>>,
            NetErrorView,
        >(NetErrorView::ArgumentCountMismatch),
        first@.len() == second@.len() ==> column_outcome(
            same_family_rows(first@, second@),
            plain_column_outcome(result),
        ),
{
    if first.len() != second.len() {
        return Err(NetError::ArgumentCountMismatch);
    }
    let ghost rows = same_family_rows(first@, second@);
    let mut out: Vec<Option<bool>> = Vec::new();
    let mut i: usize = 0;
    while i < first.len()
        invariant
            i <= first.len(),
            first.len() == second.len(),
            out@.len() == i,
            rows == same_family_rows(first@, second@),
            forall|j: int|
                0 <= j < i ==> match #[trigger] rows[j] {
                    None => out@[j] is None,
                    Some(row) => row is Ok && out@[j] == Some(row->Ok_0),
                },
        decreases first.len() - i,
    {
        match (&first[i], &second[i]) {
            (Some(a), Some(b)) => {
                match crate::inet::inet_same_family(a.as_str(), b.as_str()) {
                    Ok(same) => {
                        out.push(Some(same));
                    },
                    Err(e) => {
                        assert(rows[i as int] == Some(Err::<bool, NetErrorView>(e@)));
                        return Err(e);
                    },
                }
            },
            _ => {
                out.push(None);
            },
        }
        i += 1;
    }
    Ok(out)
}

/// Each network of `column` with the prefix length of the same row of
/// `prefixes`.
///
/// Fails with `ArgumentCountMismatch` when the columns differ in length, and
/// with `InvalidMaskLength` at the first row whose prefix length is out of
/// range for its family.
pub fn set_masklen(column: &Vec<Option<String>>, prefixes: &Vec<Option<i64>>) -> (result: Result<
    Vec<Option<String>>,
    NetError,
>)
    ensures
        column@.len() != prefixes@.len() ==> text_column_outcome(result) == Err::<
            Seq<Option<Seq<char>>>,
            NetErrorView,
        >(NetErrorView::ArgumentCountMismatch),
        column@.len() == prefixes@.len() ==> column_outcome(
            set_masklen_rows(column@, prefixes@),
            text_column_outcome(result),
        ),
{
    if column.len() != prefixes.len() {
        return Err(NetError::ArgumentCountMismatch);
    }
    let ghost rows = set_masklen_rows(column@, prefixes@);
    let mut out: Vec<Option<String>> = Vec::new();
    let mut i: usize = 0;
    while i < column.len()
        invariant
            i <= column.len(),
            column.len() == prefixes.len(),
            out@.len() == i,
            rows == set_masklen_rows(column@, prefixes@),
            forall|j: int|
                0 <= j < i ==> match #[trigger] rows[j] {
                    None => out@[j] is None,
                    Some(row) => row is Ok && text_cell(out@[j]) == Some(row->Ok_0),
                },
        decreases column.len() - i,
    {
        match (&column[i], &prefixes[i]) {
            (Some(text), Some(prefix)) => {
                match crate::inet::set_masklen(text.as_str(), *prefix) {
                    Ok(changed) => {
                        out.push(Some(changed));
                    },
                    Err(e) => {
                        assert(rows[i as int] == Some(
                            Err::<Seq<char>, NetErrorView>(e@),
                        ));
                        return Err(e);
                    },
                }
            },
            _ => {
                out.push(None);
            },
        }
        i += 1;
    }
    proof {
        let view = text_column_outcome(Ok(out))->Ok_0;
        assert forall|k: int| 0 <= k < rows.len() implies match #[trigger] rows[k] {
            None => view[k] is None,
            Some(row) => row is Ok && view[k] == Some(row->Ok_0),
        } by {}
    }
    Ok(out)
}

} // verus!

//! The response decoder: dispatches on a logical object-type name and
//! translates a JSON response body into fixed-shape rows of typed cells.
//! Row order matches the source array order; no sorting, filtering, or
//! deduplication happens here. Every failure is one of the fatal variants
//! of [`FdwError`].

use vstd::prelude::*;

use crate::error::{ErrView, FdwError};
use crate::json::{
    arr_model, jmodel, json_of, parse_json, value_as_array, value_as_i64, value_as_str, value_get,
    JsonView,
};
use crate::row::{Cell, CellView, Row, RowView};

verus! {

/// The mathematical image of a produced row vector, element-wise.
pub open spec fn rows_model(rows: Seq<Row>) -> Seq<RowView> {
    rows.map_values(|x: Row| x@)
}

/// The balance row drawn from one element of the `available` array: its
/// `amount` as an integer cell and its `currency` as a text cell, in that
/// column order. Nothing when either field is missing or mistyped.
pub open spec fn balance_row_view(e: JsonView) -> Option<RowView> {
    match e {
        JsonView::Obj(m) => {
            if m.contains_key("amount"@) && m["amount"@] is Int && m.contains_key("currency"@)
                && m["currency"@] is Text {
                Some(
                    RowView {
                        cols: seq!["amount"@, "currency"@],
                        cells: seq![
                            Some(CellView::I64(m["amount"@]->Int_0)),
                            Some(CellView::Text(m["currency"@]->Text_0)),
                        ],
                    },
                )
            } else {
                None
            }
        },
        _ => None,
    }
}

/// The customer row drawn from one element of the `data` array: its `id`
/// and `email` as text cells, in that column order. Nothing when either
/// field is missing or mistyped.
pub open spec fn customer_row_view(e: JsonView) -> Option<RowView> {
    match e {
        JsonView::Obj(m) => {
            if m.contains_key("id"@) && m["id"@] is Text && m.contains_key("email"@)
                && m["email"@] is Text {
                Some(
                    RowView {
                        cols: seq!["id"@, "email"@],
                        cells: seq![
                            Some(CellView::Text(m["id"@]->Text_0)),
                            Some(CellView::Text(m["email"@]->Text_0)),
                        ],
                    },
                )
            } else {
                None
            }
        },
        _ => None,
    }
}

/// All balance rows of an element sequence, in order; nothing when any
/// element fails to decode.
pub open spec fn balance_rows_view(elems: Seq<JsonView>) -> Option<Seq<RowView>>
    decreases elems.len(),
{
    if elems.len() == 0 {
        Some(Seq::<RowView>::empty())
    } else {
        match (balance_row_view(elems.first()), balance_rows_view(elems.drop_first())) {
            (Some(rv), Some(rest)) => Some(seq![rv] + rest),
            _ => None,
        }
    }
}

/// All customer rows of an element sequence, in order; nothing when any
/// element fails to decode.
pub open spec fn customer_rows_view(elems: Seq<JsonView>) -> Option<Seq<RowView>>
    decreases elems.len(),
{
    if elems.len() == 0 {
        Some(Seq::<RowView>::empty())
    } else {
        match (customer_row_view(elems.first()), customer_rows_view(elems.drop_first())) {
            (Some(rv), Some(rest)) => Some(seq![rv] + rest),
            _ => None,
        }
    }
}

/// The element sequence of the array under `key` in document `j`, when `j`
/// is an object carrying an array there.
pub open spec fn field_array(j: JsonView, key: Seq<char>) -> Option<Seq<JsonView>> {
    match j {
        JsonView::Obj(m) => {
            if m.contains_key(key) && m[key] is Arr {
                Some(m[key]->Arr_0)
            } else {
                None
            }
        },
        _ => None,
    }
}

/// What decoding a parsed document as object type `obj` yields: the rows,
/// or the exact fatal error.
pub open spec fn spec_decode(obj: Seq<char>, j: JsonView) -> Result<Seq<RowView>, ErrView> {
    if obj == "balance"@ {
        match field_array(j, "available"@) {
            Some(elems) => match balance_rows_view(elems) {
                Some(rows) => Ok(rows),
                None => Err(ErrView::MalformedResponse),
            },
            None => Err(ErrView::MalformedResponse),
        }
    } else if obj == "customers"@ {
        match field_array(j, "data"@) {
            Some(elems) => match customer_rows_view(elems) {
                Some(rows) => Ok(rows),
                None => Err(ErrView::MalformedResponse),
            },
            None => Err(ErrView::MalformedResponse),
        }
    } else {
        Err(ErrView::UnsupportedObject(obj))
    }
}

/// What decoding a raw body text as object type `obj` yields: parse, then
/// dispatch; a body that is not well-formed JSON is malformed whatever the
/// object type.
pub open spec fn spec_resp_to_rows(obj: Seq<char>, body: Seq<char>) -> Result<
    Seq<RowView>,
    ErrView,
> {
    match json_of(body) {
        Some(j) => spec_decode(obj, j),
        None => Err(ErrView::MalformedResponse),
    }
}

/// An element sequence decodes as balance rows exactly when every element
/// does, and then one row per element, in order, each the element's
/// `amount` and `currency` copied verbatim.
pub proof fn lemma_balance_rows(elems: Seq<JsonView>)
    ensures
        (balance_rows_view(elems) is Some) <==> (forall|i: int|
            0 <= i < elems.len() ==> balance_row_view(#[trigger] elems[i]) is Some),
        balance_rows_view(elems) matches Some(rows) ==> rows.len() == elems.len() && forall|i: int|
            0 <= i < elems.len() ==> Some(#[trigger] rows[i]) == balance_row_view(elems[i]),
    decreases elems.len(),
{
    if elems.len() > 0 {
        lemma_balance_rows(elems.drop_first());
        assert(forall|i: int|
            1 <= i < elems.len() ==> #[trigger] elems[i] == elems.drop_first()[i - 1]);
    }
}

/// An element sequence decodes as customer rows exactly when every element
/// does, and then one row per element, in order, each the element's `id`
/// and `email` copied verbatim.
pub proof fn lemma_customer_rows(elems: Seq<JsonView>)
    ensures
        (customer_rows_view(elems) is Some) <==> (forall|i: int|
            0 <= i < elems.len() ==> customer_row_view(#[trigger] elems[i]) is Some),
        customer_rows_view(elems) matches Some(rows) ==> rows.len() == elems.len() && forall|i: int|
            0 <= i < elems.len() ==> Some(#[trigger] rows[i]) == customer_row_view(elems[i]),
    decreases elems.len(),
{
    if elems.len() > 0 {
        lemma_customer_rows(elems.drop_first());
        assert(forall|i: int|
            1 <= i < elems.len() ==> #[trigger] elems[i] == elems.drop_first()[i - 1]);
    }
}

/// For any `balance` response body whose `available` array decodes
/// element-wise, decoding yields exactly one row per array element, order
/// preserved, each row the element's `amount` and `currency` copied
/// verbatim — in particular, an array of length k yields exactly k rows.
pub proof fn lemma_balance_response(body: Seq<char>, j: JsonView, elems: Seq<JsonView>)
    requires
        json_of(body) == Some(j),
        field_array(j, "available"@) == Some(elems),
        forall|i: int| 0 <= i < elems.len() ==> balance_row_view(#[trigger] elems[i]) is Some,
    ensures
        spec_resp_to_rows("balance"@, body) matches Ok(rows) && rows.len() == elems.len() && (forall|
            i: int,
        |
            0 <= i < elems.len() ==> Some(#[trigger] rows[i]) == balance_row_view(elems[i])),
{
    lemma_balance_rows(elems);
}

/// For any `customers` response body whose `data` array decodes
/// element-wise, decoding yields exactly one row per array element, order
/// preserved, each row the element's `id` and `email` copied verbatim — in
/// particular, an array of length n yields exactly n rows.
pub proof fn lemma_customer_response(body: Seq<char>, j: JsonView, elems: Seq<JsonView>)
    requires
        json_of(body) == Some(j),
        field_array(j, "data"@) == Some(elems),
        forall|i: int| 0 <= i < elems.len() ==> customer_row_view(#[trigger] elems[i]) is Some,
    ensures
        spec_resp_to_rows("customers"@, body) matches Ok(rows) && rows.len() == elems.len() && (
        forall|i: int|
            0 <= i < elems.len() ==> Some(#[trigger] rows[i]) == customer_row_view(elems[i])),
{
    reveal_strlit("balance");
    reveal_strlit("customers");
    assert("balance"@.len() == 7);
    assert("customers"@.len() == 9);
    lemma_customer_rows(elems);
}

/// Decodes one element of a `balance` response's `available` array.
fn balance_row(e: &serde_json::Value) -> (r: Option<Row>)
    ensures
        match r {
            Some(row) => balance_row_view(jmodel(*e)) == Some(row@),
            None => balance_row_view(jmodel(*e)) is None,
        },
{
    let amt_v = match value_get(e, "amount") {
        Some(x) => x,
        None => { return None },
    };
    let amt = match value_as_i64(amt_v) {
        Some(x) => x,
        None => { return None },
    };
    let cur_v = match value_get(e, "currency") {
        Some(x) => x,
        None => { return None },
    };
    let cur = match value_as_str(cur_v) {
        Some(x) => x,
        None => { return None },
    };
    let mut row = Row::new();
    row.push("amount", Some(Cell::I64(amt)));
    row.push("currency", Some(Cell::Text(cur.to_owned())));
    proof {
        assert(row@.cols =~= seq!["amount"@, "currency"@]);
        assert(balance_row_view(jmodel(*e)) matches Some(rv) && rv.cells =~= row@.cells);
    }
    Some(row)
}

/// Decodes one element of a `customers` response's `data` array.
fn customer_row(e: &serde_json::Value) -> (r: Option<Row>)
    ensures
        match r {
            Some(row) => customer_row_view(jmodel(*e)) == Some(row@),
            None => customer_row_view(jmodel(*e)) is None,
        },
{
    let id_v = match value_get(e, "id") {
        Some(x) => x,
        None => { return None },
    };
    let id = match value_as_str(id_v) {
        Some(x) => x,
        None => { return None },
    };
    let email_v = match value_get(e, "email") {
        Some(x) => x,
        None => { return None },
    };
    let email = match value_as_str(email_v) {
        Some(x) => x,
        None => { return None },
    };
    let mut row = Row::new();
    row.push("id", Some(Cell::Text(id.to_owned())));
    row.push("email", Some(Cell::Text(email.to_owned())));
    proof {
        assert(row@.cols =~= seq!["id"@, "email"@]);
        assert(customer_row_view(jmodel(*e)) matches Some(rv) && rv.cells =~= row@.cells);
    }
    Some(row)
}

/// Decodes every element of a `balance` response's `available` array.
fn balance_rows(arr: &Vec<serde_json::Value>) -> (r: Option<Vec<Row>>)
    ensures
        match r {
            Some(rows) => balance_rows_view(arr_model(arr@)) == Some(rows_model(rows@)),
            None => balance_rows_view(arr_model(arr@)) is None,
        },
{
    let mut rows: Vec<Row> = Vec::new();
    let mut i: usize = 0;
    while i < arr.len()
        invariant
            i <= arr.len(),
            rows@.len() == i,
            forall|j: int|
                0 <= j < i ==> balance_row_view(#[trigger] arr_model(arr@)[j]) == Some(
                    rows_model(rows@)[j],
                ),
        decreases arr.len() - i,
    {
        let row = match balance_row(&arr[i]) {
            Some(row) => row,
            None => {
                proof {
                    lemma_balance_rows(arr_model(arr@));
                    assert(arr_model(arr@)[i as int] == jmodel(arr@[i as int]));
                }
                return None;
            },
        };
        let ghost prev = rows@;
        rows.push(row);
        proof {
            assert(arr_model(arr@)[i as int] == jmodel(arr@[i as int]));
            assert(forall|j: int|
                0 <= j < prev.len() ==> rows_model(rows@)[j] == #[trigger] rows_model(prev)[j]);
            assert(rows_model(rows@)[i as int] == row@);
        }
        i = i + 1;
    }
    proof {
        let elems = arr_model(arr@);
        assert(elems.len() == arr@.len());
        lemma_balance_rows(elems);
        match balance_rows_view(elems) {
            Some(rvs) => {
                assert forall|j: int| 0 <= j < elems.len() implies #[trigger] rvs[j] == rows_model(
                    rows@,
                )[j] by {
                    assert(Some(rvs[j]) == balance_row_view(elems[j]));
                }
                assert(rvs =~= rows_model(rows@));
            },
            None => {
                assert(false);
            },
        }
    }
    Some(rows)
}

/// Decodes every element of a `customers` response's `data` array.
fn customer_rows(arr: &Vec<serde_json::Value>) -> (r: Option<Vec<Row>>)
    ensures
        match r {
            Some(rows) => customer_rows_view(arr_model(arr@)) == Some(rows_model(rows@)),
            None => customer_rows_view(arr_model(arr@)) is None,
        },
{
    let mut rows: Vec<Row> = Vec::new();
    let mut i: usize = 0;
    while i < arr.len()
        invariant
            i <= arr.len(),
            rows@.len() == i,
            forall|j: int|
                0 <= j < i ==> customer_row_view(#[trigger] arr_model(arr@)[j]) == Some(
                    rows_model(rows@)[j],
                ),
        decreases arr.len() - i,
    {
        let row = match customer_row(&arr[i]) {
            Some(row) => row,
            None => {
                proof {
                    lemma_customer_rows(arr_model(arr@));
                    assert(arr_model(arr@)[i as int] == jmodel(arr@[i as int]));
                }
                return None;
            },
        };
        let ghost prev = rows@;
        rows.push(row);
        proof {
            assert(arr_model(arr@)[i as int] == jmodel(arr@[i as int]));
            assert(forall|j: int|
                0 <= j < prev.len() ==> rows_model(rows@)[j] == #[trigger] rows_model(prev)[j]);
            assert(rows_model(rows@)[i as int] == row@);
        }
        i = i + 1;
    }
    proof {
        let elems = arr_model(arr@);
        assert(elems.len() == arr@.len());
        lemma_customer_rows(elems);
        match customer_rows_view(elems) {
            Some(rvs) => {
                assert forall|j: int| 0 <= j < elems.len() implies #[trigger] rvs[j] == rows_model(
                    rows@,
                )[j] by {
                    assert(Some(rvs[j]) == customer_row_view(elems[j]));
                }
                assert(rvs =~= rows_model(rows@));
            },
            None => {
                assert(false);
            },
        }
    }
    Some(rows)
}

/// Converts a raw response body to rows: parse the body as JSON, dispatch
/// on the object-type name, and translate the object's array element-wise.
/// The result is exactly what [`spec_resp_to_rows`] says, rows or the one
/// fatal error.
pub fn resp_to_rows(obj: &str, body: &str) -> (r: Result<Vec<Row>, FdwError>)
    ensures
        match r {
            Ok(rows) => spec_resp_to_rows(obj@, body@) == Ok::<Seq<RowView>, ErrView>(
                rows_model(rows@),
            ),
            Err(e) => spec_resp_to_rows(obj@, body@) == Err::<Seq<RowView>, ErrView>(e@),
        },
{
    let v = match parse_json(body) {
        Some(v) => v,
        None => { return Err(FdwError::MalformedResponse) },
    };
    let obj_s = obj.to_owned();
    if obj_s == String::from_str("balance") {
        let arr_v = match value_get(&v, "available") {
            Some(x) => x,
            None => { return Err(FdwError::MalformedResponse) },
        };
        let arr = match value_as_array(arr_v) {
            Some(x) => x,
            None => { return Err(FdwError::MalformedResponse) },
        };
        match balance_rows(arr) {
            Some(rows) => Ok(rows),
            None => Err(FdwError::MalformedResponse),
        }
    } else if obj_s == String::from_str("customers") {
        let arr_v = match value_get(&v, "data") {
            Some(x) => x,
            None => { return Err(FdwError::MalformedResponse) },
        };
        let arr = match value_as_array(arr_v) {
            Some(x) => x,
            None => { return Err(FdwError::MalformedResponse) },
        };
        match customer_rows(arr) {
            Some(rows) => Ok(rows),
            None => Err(FdwError::MalformedResponse),
        }
    } else {
        Err(FdwError::UnsupportedObject(obj_s))
    }
}

} // verus!


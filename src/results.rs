//! The shapes of the values that typed peripheral methods expect back from a
//! call; any other shape is reported with the values as they came.
use vstd::prelude::*;

use crate::color::{color_value, Color};
use crate::error::CCError;
use crate::json::{number_as_i64, number_as_u64, number_i64, number_u64, shape_of, unfold, Node, Shape};
use crate::protocol::bool_of;

verus! {

/// The number that a JSON value holds, if it is one.
pub open spec fn number_of(v: serde_json::Value) -> Option<serde_json::Number> {
    match shape_of(v) {
        Shape::Number(n) => Some(n),
        _ => None,
    }
}

/// The unsigned integer that a JSON value holds, if it holds one that fits
/// in `usize`.
pub open spec fn count_of(v: serde_json::Value) -> Option<usize> {
    match number_of(v) {
        Some(n) => match number_u64(n) {
            Some(x) => if x <= usize::MAX {
                Some(x as usize)
            } else {
                None
            },
            None => None,
        },
        None => None,
    }
}

/// The single truth value of a call.
pub open spec fn single_bool(values: Seq<serde_json::Value>) -> Option<bool> {
    if values.len() == 1 {
        bool_of(values[0])
    } else {
        None
    }
}

/// The single count of a call.
pub open spec fn single_count(values: Seq<serde_json::Value>) -> Option<usize> {
    if values.len() == 1 {
        count_of(values[0])
    } else {
        None
    }
}

/// The two counts of a call, such as a position or a size.
pub open spec fn count_pair(values: Seq<serde_json::Value>) -> Option<(usize, usize)> {
    if values.len() == 2 && count_of(values[0]) is Some && count_of(values[1]) is Some {
        Some((count_of(values[0])->Some_0, count_of(values[1])->Some_0))
    } else {
        None
    }
}

/// The single colour of a call.
pub open spec fn single_color(values: Seq<serde_json::Value>) -> Option<Color> {
    if values.len() == 1 && number_of(values[0]) is Some && number_u64(number_of(values[0])->Some_0)
        is Some {
        let x = number_u64(number_of(values[0])->Some_0)->Some_0;
        if exists|c: Color| color_value(c) == x {
            Some(choose|c: Color| color_value(c) == x)
        } else {
            None
        }
    } else {
        None
    }
}

/// The single `i32` of a call.
pub open spec fn single_i32(values: Seq<serde_json::Value>) -> Option<i32> {
    if values.len() == 1 && number_of(values[0]) is Some && number_i64(number_of(values[0])->Some_0)
        is Some {
        let x = number_i64(number_of(values[0])->Some_0)->Some_0;
        if i32::MIN <= x <= i32::MAX {
            Some(x as i32)
        } else {
            None
        }
    } else {
        None
    }
}

fn read_number(v: &serde_json::Value) -> (r: Option<serde_json::Number>)
    ensures
        r == number_of(*v),
{
    match unfold(v) {
        Node::Number(n) => Some(n),
        _ => None,
    }
}

fn read_count(v: &serde_json::Value) -> (r: Option<usize>)
    ensures
        r == count_of(*v),
{
    match read_number(v) {
        Some(n) => match number_as_u64(&n) {
            Some(x) => if x <= usize::MAX as u64 {
                Some(x as usize)
            } else {
                None
            },
            None => None,
        },
        None => None,
    }
}

/// The outcome for values of an unexpected shape.
fn unexpected<T>(values: Vec<serde_json::Value>) -> (r: Result<T, CCError>)
    ensures
        r is Err && r->Err_0 is UnexpectedData && r->Err_0->UnexpectedData_0@ == values@,
{
    Err(CCError::UnexpectedData(values))
}

/// Reads the single truth value of a call.
pub fn expect_bool(values: Vec<serde_json::Value>) -> (r: Result<bool, CCError>)
    ensures
        single_bool(values@) is Some ==> r == Ok::<bool, CCError>(single_bool(values@)->Some_0),
        single_bool(values@) is None ==> r is Err && r->Err_0 is UnexpectedData
            && r->Err_0->UnexpectedData_0@ == values@,
{
    if values.len() == 1 {
        match unfold(&values[0]) {
            Node::Bool(b) => return Ok(b),
            _ => {},
        }
    }
    unexpected(values)
}

/// Reads the single count of a call.
pub fn expect_count(values: Vec<serde_json::Value>) -> (r: Result<usize, CCError>)
    ensures
        single_count(values@) is Some ==> r == Ok::<usize, CCError>(single_count(values@)->Some_0),
        single_count(values@) is None ==> r is Err && r->Err_0 is UnexpectedData
            && r->Err_0->UnexpectedData_0@ == values@,
{
    if values.len() == 1 {
        match read_count(&values[0]) {
            Some(x) => return Ok(x),
            None => {},
        }
    }
    unexpected(values)
}

/// Reads the two counts of a call.
pub fn expect_count_pair(values: Vec<serde_json::Value>) -> (r: Result<(usize, usize), CCError>)
    ensures
        count_pair(values@) is Some ==> r == Ok::<(usize, usize), CCError>(
            count_pair(values@)->Some_0,
        ),
        count_pair(values@) is None ==> r is Err && r->Err_0 is UnexpectedData
            && r->Err_0->UnexpectedData_0@ == values@,
{
    if values.len() == 2 {
        match (read_count(&values[0]), read_count(&values[1])) {
            (Some(x), Some(y)) => return Ok((x, y)),
            _ => {},
        }
    }
    unexpected(values)
}

/// Reads the single colour of a call.
pub fn expect_color(values: Vec<serde_json::Value>) -> (r: Result<Color, CCError>)
    ensures
        single_color(values@) is Some ==> r == Ok::<Color, CCError>(single_color(values@)->Some_0),
        single_color(values@) is None ==> r is Err && r->Err_0 is UnexpectedData
            && r->Err_0->UnexpectedData_0@ == values@,
{
    if values.len() == 1 {
        match read_number(&values[0]) {
            Some(n) => match number_as_u64(&n) {
                Some(x) => match Color::try_from_value(x) {
                    Ok(c) => {
                        proof {
                            let d = choose|d: Color| color_value(d) == x;
                            crate::color::lemma_color_value_injective(c, d);
                        }
                        return Ok(c);
                    },
                    Err(_) => {},
                },
                None => {},
            },
            None => {},
        }
    }
    unexpected(values)
}

/// Reads the single `i32` of a call.
pub fn expect_i32(values: Vec<serde_json::Value>) -> (r: Result<i32, CCError>)
    ensures
        single_i32(values@) is Some ==> r == Ok::<i32, CCError>(single_i32(values@)->Some_0),
        single_i32(values@) is None ==> r is Err && r->Err_0 is UnexpectedData
            && r->Err_0->UnexpectedData_0@ == values@,
{
    if values.len() == 1 {
        match read_number(&values[0]) {
            Some(n) => match number_as_i64(&n) {
                Some(x) => if i32::MIN as i64 <= x && x <= i32::MAX as i64 {
                    return Ok(x as i32);
                },
                None => {},
            },
            None => {},
        }
    }
    unexpected(values)
}

/// The optional single value of a call that may return nothing.
pub fn optional_value(values: Vec<serde_json::Value>) -> (r: Result<Option<serde_json::Value>, CCError>)
    ensures
        values@.len() == 0 ==> r == Ok::<Option<serde_json::Value>, CCError>(None),
        values@.len() == 1 ==> r == Ok::<Option<serde_json::Value>, CCError>(Some(values@[0])),
        values@.len() > 1 ==> r is Err && r->Err_0 is MultipleReturnValues,
{
    match crate::computer::single_value(values) {
        Ok(v) => Ok(Some(v)),
        Err(CCError::NoReturnValues) => Ok(None),
        Err(e) => Err(e),
    }
}

} // verus!

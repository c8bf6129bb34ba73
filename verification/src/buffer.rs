//! Buffer extraction: from a host list to the contiguous, homogeneous buffer
//! that a native entry point reads.
//!
//! The elements are converted one by one, in list order. The first element
//! that the element extractor turns down ends the extraction, and the error
//! names its index: no partial buffer is handed out.

use vstd::prelude::*;
use crate::error::ExtractError;
use crate::extract::{fits, int_of, number_of, Number};
use crate::value::{lemma_list_view, Kind, Value, ValueView};

verus! {

/// The least index at or after `from` whose element does not fit `wanted`, or
/// the length of `items` if they all fit from there on.
pub open spec fn first_rejected_from(
    items: Seq<ValueView>,
    wanted: Kind,
    from: int,
) -> int
    decreases items.len() - from,
{
    if from >= items.len() {
        items.len() as int
    } else if !fits(items[from], wanted) {
        from
    } else {
        first_rejected_from(items, wanted, from + 1)
    }
}

/// The least index whose element does not fit `wanted`, or the length of
/// `items` if they all fit.
pub open spec fn first_rejected(items: Seq<ValueView>, wanted: Kind) -> int {
    first_rejected_from(items, wanted, 0)
}

/// The floating-point buffer that `v` stands for: the numbers of a list, in
/// list order.
pub open spec fn numbers_of(v: ValueView) -> Result<Seq<Number>, ExtractError> {
    match v {
        ValueView::List(items) => {
            let stop = first_rejected(items, Kind::Float);
            if stop == items.len() {
                Ok(Seq::new(items.len(), |i: int| number_of(items[i])->Ok_0))
            } else {
                Err(ExtractError::ElementMismatch { index: stop as usize, expected: Kind::Float })
            }
        },
        _ => Err(ExtractError::NotAList),
    }
}

/// The byte buffer that `v` stands for: the low eight bits of each integer
/// of a list, in list order.
pub open spec fn bytes_of(v: ValueView) -> Result<Seq<u8>, ExtractError> {
    match v {
        ValueView::List(items) => {
            let stop = first_rejected(items, Kind::Integer);
            if stop == items.len() {
                Ok(Seq::new(items.len(), |i: int| int_of(items[i])->Ok_0 as u8))
            } else {
                Err(
                    ExtractError::ElementMismatch {
                        index: stop as usize,
                        expected: Kind::Integer,
                    },
                )
            }
        },
        _ => Err(ExtractError::NotAList),
    }
}

/// `first_rejected_from` is the least rejected index at or after `from`:
/// everything between `from` and it is accepted, and it is rejected unless it
/// is the length.
pub proof fn lemma_first_rejected_from(
    items: Seq<ValueView>,
    wanted: Kind,
    from: int,
)
    requires
        0 <= from <= items.len(),
    ensures
        from <= first_rejected_from(items, wanted, from) <= items.len(),
        forall|j: int|
            from <= j < first_rejected_from(items, wanted, from) ==> fits(
                #[trigger] items[j],
                wanted,
            ),
        first_rejected_from(items, wanted, from) < items.len() ==> !fits(
            items[first_rejected_from(items, wanted, from)],
            wanted,
        ),
    decreases items.len() - from,
{
    if from < items.len() && fits(items[from], wanted) {
        lemma_first_rejected_from(items, wanted, from + 1);
    }
}

/// An index that is rejected, with everything before it accepted, is the
/// first rejected index.
pub proof fn lemma_first_rejected_is(
    items: Seq<ValueView>,
    wanted: Kind,
    at: int,
)
    requires
        0 <= at <= items.len(),
        forall|j: int| 0 <= j < at ==> fits(#[trigger] items[j], wanted),
        at < items.len() ==> !fits(items[at], wanted),
    ensures
        first_rejected(items, wanted) == at,
{
    lemma_first_rejected_from(items, wanted, 0);
    let found = first_rejected(items, wanted);
    if found < at {
        assert(fits(items[found], wanted));
    } else if at < found {
        assert(fits(items[at], wanted));
    }
}

/// Takes a floating-point buffer out of a list: one number for each element,
/// in list order. Anything but a list is turned down, and so is a list with
/// an element that is not a number, at the first such element.
pub fn extract_f32_vec(val: &Value) -> (r: Result<Vec<Number>, ExtractError>)
    ensures
        match r {
            Ok(buffer) => numbers_of(val@) == Ok::<Seq<Number>, ExtractError>(buffer@),
            Err(e) => numbers_of(val@) == Err::<Seq<Number>, ExtractError>(e),
        },
{
    match val {
        Value::List(list) => {
            let ghost items = list.deep_view();
            proof {
                lemma_list_view(*list);
            }
            let mut buffer: Vec<Number> = Vec::with_capacity(list.len());
            let mut i: usize = 0;
            while i < list.len()
                invariant
                    i <= list.len(),
                    val@ == ValueView::List(items),
                    items.len() == list.len(),
                    forall|j: int| 0 <= j < list.len() ==> #[trigger] items[j] == list[j]@,
                    forall|j: int| 0 <= j < i ==> fits(#[trigger] items[j], Kind::Float),
                    buffer@.len() == i,
                    forall|j: int|
                        0 <= j < i ==> #[trigger] buffer@[j] == number_of(items[j])->Ok_0,
                decreases list.len() - i,
            {
                match list[i].as_float() {
                    Ok(number) => buffer.push(number),
                    Err(_) => {
                        proof {
                            lemma_first_rejected_is(items, Kind::Float, i as int);
                        }
                        return Err(
                            ExtractError::ElementMismatch { index: i, expected: Kind::Float },
                        );
                    },
                }
                i += 1;
            }
            proof {
                lemma_first_rejected_is(items, Kind::Float, items.len() as int);
                assert(buffer@ =~= Seq::new(items.len(), |i: int| number_of(items[i])->Ok_0));
            }
            Ok(buffer)
        },
        _ => Err(ExtractError::NotAList),
    }
}

/// Takes a byte buffer out of a list: the low eight bits of each element, in
/// list order. Anything but a list is turned down, and so is a list with an
/// element that is not an integer, at the first such element.
pub fn extract_u8_vec(val: &Value) -> (r: Result<Vec<u8>, ExtractError>)
    ensures
        match r {
            Ok(buffer) => bytes_of(val@) == Ok::<Seq<u8>, ExtractError>(buffer@),
            Err(e) => bytes_of(val@) == Err::<Seq<u8>, ExtractError>(e),
        },
{
    match val {
        Value::List(list) => {
            let ghost items = list.deep_view();
            proof {
                lemma_list_view(*list);
            }
            let mut buffer: Vec<u8> = Vec::with_capacity(list.len());
            let mut i: usize = 0;
            while i < list.len()
                invariant
                    i <= list.len(),
                    val@ == ValueView::List(items),
                    items.len() == list.len(),
                    forall|j: int| 0 <= j < list.len() ==> #[trigger] items[j] == list[j]@,
                    forall|j: int| 0 <= j < i ==> fits(#[trigger] items[j], Kind::Integer),
                    buffer@.len() == i,
                    forall|j: int|
                        0 <= j < i ==> #[trigger] buffer@[j] == int_of(items[j])->Ok_0 as u8,
                decreases list.len() - i,
            {
                match list[i].as_int() {
                    Ok(integer) => buffer.push(#[verifier::truncate] (integer as u8)),
                    Err(_) => {
                        proof {
                            lemma_first_rejected_is(items, Kind::Integer, i as int);
                        }
                        return Err(
                            ExtractError::ElementMismatch { index: i, expected: Kind::Integer },
                        );
                    },
                }
                i += 1;
            }
            proof {
                lemma_first_rejected_is(items, Kind::Integer, items.len() as int);
                assert(buffer@ =~= Seq::new(items.len(), |i: int| int_of(items[i])->Ok_0 as u8));
            }
            Ok(buffer)
        },
        _ => Err(ExtractError::NotAList),
    }
}

/// A list of numbers always gives a floating-point buffer: as long as the
/// list, and with the numbers in list order. The empty list gives the empty
/// buffer.
pub proof fn lemma_numbers_of_numeric_list(items: Seq<ValueView>)
    requires
        forall|i: int| 0 <= i < items.len() ==> fits(#[trigger] items[i], Kind::Float),
    ensures
        numbers_of(ValueView::List(items)) is Ok,
        numbers_of(ValueView::List(items))->Ok_0.len() == items.len(),
        forall|i: int|
            0 <= i < items.len() ==> number_of(items[i]) == Ok::<Number, ExtractError>(
                #[trigger] numbers_of(ValueView::List(items))->Ok_0[i],
            ),
        items.len() == 0 ==> numbers_of(ValueView::List(items)) == Ok::<
            Seq<Number>,
            ExtractError,
        >(Seq::empty()),
{
    lemma_first_rejected_is(items, Kind::Float, items.len() as int);
    if items.len() == 0 {
        assert(numbers_of(ValueView::List(items))->Ok_0 =~= Seq::<Number>::empty());
    }
}

/// A list of integers always gives a byte buffer: as long as the list, and
/// with the low eight bits of each integer in list order.
pub proof fn lemma_bytes_of_integer_list(items: Seq<ValueView>)
    requires
        forall|i: int| 0 <= i < items.len() ==> fits(#[trigger] items[i], Kind::Integer),
    ensures
        bytes_of(ValueView::List(items)) is Ok,
        bytes_of(ValueView::List(items))->Ok_0.len() == items.len(),
        forall|i: int|
            0 <= i < items.len() ==> #[trigger] bytes_of(ValueView::List(items))->Ok_0[i] == int_of(
                items[i],
            )->Ok_0 as u8,
{
    lemma_first_rejected_is(items, Kind::Integer, items.len() as int);
}

/// A list whose element at `at` is not an integer, while every element before
/// it is, gives no byte buffer: the error names `at`, the index of the
/// offending element. A text among integers is turned down where it stands.
pub proof fn lemma_bytes_of_names_first_misfit(items: Seq<ValueView>, at: int)
    requires
        0 <= at < items.len(),
        !fits(items[at], Kind::Integer),
        forall|j: int| 0 <= j < at ==> fits(#[trigger] items[j], Kind::Integer),
    ensures
        bytes_of(ValueView::List(items)) == Err::<Seq<u8>, ExtractError>(
            ExtractError::ElementMismatch { index: at as usize, expected: Kind::Integer },
        ),
{
    lemma_first_rejected_is(items, Kind::Integer, at);
}

/// A list whose element at `at` is not a number, while every element before
/// it is, gives no floating-point buffer: the error names `at`.
pub proof fn lemma_numbers_of_names_first_misfit(items: Seq<ValueView>, at: int)
    requires
        0 <= at < items.len(),
        !fits(items[at], Kind::Float),
        forall|j: int| 0 <= j < at ==> fits(#[trigger] items[j], Kind::Float),
    ensures
        numbers_of(ValueView::List(items)) == Err::<Seq<Number>, ExtractError>(
            ExtractError::ElementMismatch { index: at as usize, expected: Kind::Float },
        ),
{
    lemma_first_rejected_is(items, Kind::Float, at);
}

/// A list that holds a text anywhere gives no byte buffer, and the error
/// names an element that is not an integer, at or before the text, with
/// integers alone before it.
pub proof fn lemma_bytes_of_list_with_text(items: Seq<ValueView>, at: int)
    requires
        items.len() <= usize::MAX,
        0 <= at < items.len(),
        items[at] is String,
    ensures
        bytes_of(ValueView::List(items)) matches Err(
            ExtractError::ElementMismatch { index, expected },
        ) && expected == Kind::Integer && index == first_rejected(items, Kind::Integer) && index
            <= at && !fits(items[index as int], Kind::Integer) && (forall|j: int|
            0 <= j < index ==> fits(#[trigger] items[j], Kind::Integer)),
{
    lemma_first_rejected_from(items, Kind::Integer, 0);
    let stop = first_rejected(items, Kind::Integer);
    if at < stop {
        assert(fits(items[at], Kind::Integer));
    }
}

} // verus!

//! The host's dynamic value model, as the bridge reads it.

use vstd::prelude::*;

verus! {

/// Which variant a [`Value`] is.
#[derive(Clone, Copy, Debug, PartialEq, Eq, Structural)]
pub enum Kind {
    Null,
    Boolean,
    Integer,
    Float,
    String,
    List,
}

/// A value of the host language.
///
/// A `Float` holds the IEEE 754 bit pattern of a double: the bridge carries
/// floating-point numbers through and never computes on them, so two floats
/// are equal when their bit patterns are. A `List` may hold values of any
/// kind; what its elements must be is decided only where a buffer is taken
/// out of it.
#[derive(Debug, PartialEq)]
pub enum Value {
    Null,
    Boolean(bool),
    Integer(i64),
    Float(u64),
    String(String),
    List(Vec<Value>),
}

/// The mathematical model of a [`Value`]: text is a sequence of characters and
/// a list a sequence of models.
pub enum ValueView {
    Null,
    Boolean(bool),
    Integer(i64),
    Float(u64),
    String(Seq<char>),
    List(Seq<ValueView>),
}

impl ValueView {
    /// The variant of this value.
    pub open spec fn kind(self) -> Kind {
        match self {
            ValueView::Null => Kind::Null,
            ValueView::Boolean(_) => Kind::Boolean,
            ValueView::Integer(_) => Kind::Integer,
            ValueView::Float(_) => Kind::Float,
            ValueView::String(_) => Kind::String,
            ValueView::List(_) => Kind::List,
        }
    }
}

/// The model of `value`, taken variant by variant and, for a list, element by
/// element.
pub open spec fn model(value: Value) -> ValueView
    decreases value,
{
    match value {
        Value::Null => ValueView::Null,
        Value::Boolean(b) => ValueView::Boolean(b),
        Value::Integer(i) => ValueView::Integer(i),
        Value::Float(bits) => ValueView::Float(bits),
        Value::String(text) => ValueView::String(text@),
        Value::List(items) => ValueView::List(
            Seq::new(
                items.len() as nat,
                |i: int|
                    if 0 <= i < items.len() {
                        model(items[i])
                    } else {
                        ValueView::Null
                    },
            ),
        ),
    }
}

impl View for Value {
    type V = ValueView;

    open spec fn view(&self) -> ValueView {
        model(*self)
    }
}

impl DeepView for Value {
    type V = ValueView;

    open spec fn deep_view(&self) -> ValueView {
        self@
    }
}

impl Value {
    /// The variant of this value.
    pub fn kind(&self) -> (k: Kind)
        ensures
            k == self@.kind(),
    {
        match self {
            Value::Null => Kind::Null,
            Value::Boolean(_) => Kind::Boolean,
            Value::Integer(_) => Kind::Integer,
            Value::Float(_) => Kind::Float,
            Value::String(_) => Kind::String,
            Value::List(_) => Kind::List,
        }
    }
}

impl Clone for Value {
    /// A copy of this value, lists copied element by element.
    fn clone(&self) -> (copy: Self)
        ensures
            copy@ == self@,
        decreases self,
    {
        match self {
            Value::Null => Value::Null,
            Value::Boolean(b) => Value::Boolean(*b),
            Value::Integer(i) => Value::Integer(*i),
            Value::Float(bits) => Value::Float(*bits),
            Value::String(text) => Value::String(text.clone()),
            Value::List(items) => {
                let mut copies: Vec<Value> = Vec::with_capacity(items.len());
                let mut i: usize = 0;
                while i < items.len()
                    invariant
                        i <= items.len(),
                        *self == Value::List(*items),
                        copies.len() == i,
                        forall|j: int| 0 <= j < i ==> #[trigger] copies[j]@ == items[j]@,
                    decreases items.len() - i,
                {
                    proof {
                        assert(decreases_to!(*self => self->List_0));
                        assert(decreases_to!(*items => items[i as int]));
                    }
                    copies.push(items[i].clone());
                    i += 1;
                }
                proof {
                    lemma_list_view(*items);
                    lemma_list_view(copies);
                    assert(copies.deep_view() =~= items.deep_view());
                }
                Value::List(copies)
            },
        }
    }
}

/// The model of a list is the sequence of the models of its elements, one for
/// one and in order.
pub proof fn lemma_list_view(items: Vec<Value>)
    ensures
        Value::List(items)@ == ValueView::List(items.deep_view()),
        items.deep_view().len() == items.len(),
        forall|i: int| 0 <= i < items.len() ==> #[trigger] items.deep_view()[i] == items[i]@,
{
    reveal_with_fuel(model, 2);
    let list = Value::List(items);
    assert(list@->List_0 =~= items.deep_view());
}

} // verus!

use vstd::prelude::*;
use vstd::string::StringExecFns;

use crate::text::joined;

verus! {

/// The type of a value held on the operand stack or in a lexical scope.
#[derive(Debug, Clone, Copy, PartialEq, Eq, Hash, Structural)]
pub enum ValueType {
    I32,
    U32,
    I64,
    U64,
    F32,
    F64,
    HeapPointer,
    FunctionPointer,
}

/// The mathematical shape of a [`ParamsSignature`]: which variant it is, and the types it holds.
pub ghost enum SignatureShape {
    Void,
    Single(ValueType),
    Pair(ValueType, ValueType),
    Triple(ValueType, ValueType, ValueType),
    Multiple(Seq<ValueType>),
}

impl SignatureShape {
    /// The value types of the signature, in order.
    pub open spec fn values(self) -> Seq<ValueType> {
        match self {
            SignatureShape::Void => seq![],
            SignatureShape::Single(a) => seq![a],
            SignatureShape::Pair(a, b) => seq![a, b],
            SignatureShape::Triple(a, b, c) => seq![a, b, c],
            SignatureShape::Multiple(values) => values,
        }
    }

    /// The shape that collecting `values` one by one produces: the smallest variant that holds them.
    pub open spec fn collected(values: Seq<ValueType>) -> SignatureShape {
        if values.len() == 0 {
            SignatureShape::Void
        } else if values.len() == 1 {
            SignatureShape::Single(values[0])
        } else if values.len() == 2 {
            SignatureShape::Pair(values[0], values[1])
        } else if values.len() == 3 {
            SignatureShape::Triple(values[0], values[1], values[2])
        } else {
            SignatureShape::Multiple(values)
        }
    }

    /// The shape that appending `items` to `self` produces: a `Multiple` stays a `Multiple`,
    /// any other shape grows through the smaller variants.
    pub open spec fn appended(self, items: Seq<ValueType>) -> SignatureShape {
        match self {
            SignatureShape::Multiple(values) => SignatureShape::Multiple(values + items),
            _ => SignatureShape::collected(self.values() + items),
        }
    }
}

/// A sequence of value types, such as the parameters or the results of a function or block.
#[derive(Debug, Hash)]
pub enum ParamsSignature {
    Void,
    Single(ValueType),
    Pair(ValueType, ValueType),
    Triple(ValueType, ValueType, ValueType),
    Multiple(Vec<ValueType>),
}

impl View for ParamsSignature {
    type V = SignatureShape;

    open spec fn view(&self) -> SignatureShape {
        match self {
            ParamsSignature::Void => SignatureShape::Void,
            ParamsSignature::Single(a) => SignatureShape::Single(*a),
            ParamsSignature::Pair(a, b) => SignatureShape::Pair(*a, *b),
            ParamsSignature::Triple(a, b, c) => SignatureShape::Triple(*a, *b, *c),
            ParamsSignature::Multiple(values) => SignatureShape::Multiple(values@),
        }
    }
}

/// Copies a vector of value types.
pub fn copy_value_types(values: &Vec<ValueType>) -> (result: Vec<ValueType>)
    ensures
        result@ == values@,
{
    let mut result: Vec<ValueType> = Vec::new();
    let mut i: usize = 0;
    while i < values.len()
        invariant
            i <= values.len(),
            result@ == values@.subrange(0, i as int),
        decreases values.len() - i,
    {
        result.push(values[i]);
        i = i + 1;
    }
    result
}

impl ParamsSignature {
    /// A copy of this signature with the same shape.
    pub fn duplicate(&self) -> (result: ParamsSignature)
        ensures
            result@ == self@,
    {
        match self {
            ParamsSignature::Void => ParamsSignature::Void,
            ParamsSignature::Single(a) => ParamsSignature::Single(*a),
            ParamsSignature::Pair(a, b) => ParamsSignature::Pair(*a, *b),
            ParamsSignature::Triple(a, b, c) => ParamsSignature::Triple(*a, *b, *c),
            ParamsSignature::Multiple(values) => ParamsSignature::Multiple(copy_value_types(values)),
        }
    }

    /// Whether two signatures are equal: the same variant holding the same types.
    pub fn equals(&self, other: &ParamsSignature) -> (result: bool)
        ensures
            result == (self@ == other@),
    {
        match (self, other) {
            (ParamsSignature::Void, ParamsSignature::Void) => true,
            (ParamsSignature::Single(a), ParamsSignature::Single(x)) => *a == *x,
            (ParamsSignature::Pair(a, b), ParamsSignature::Pair(x, y)) => *a == *x && *b == *y,
            (ParamsSignature::Triple(a, b, c), ParamsSignature::Triple(x, y, z)) => {
                *a == *x && *b == *y && *c == *z
            },
            (ParamsSignature::Multiple(values), ParamsSignature::Multiple(others)) => {
                if values.len() != others.len() {
                    assert(values@.len() != others@.len());
                    return false;
                }
                let mut i: usize = 0;
                while i < values.len()
                    invariant
                        i <= values.len(),
                        values.len() == others.len(),
                        self@ == SignatureShape::Multiple(values@),
                        other@ == SignatureShape::Multiple(others@),
                        forall|j: int| 0 <= j < i ==> values@[j] == others@[j],
                    decreases values.len() - i,
                {
                    if values[i] != others[i] {
                        assert(values@[i as int] != others@[i as int]);
                        assert(values@ != others@);
                        return false;
                    }
                    i = i + 1;
                }
                assert(values@ =~= others@);
                true
            },
            _ => false,
        }
    }

    /// Number of value types in the signature.
    pub fn len(&self) -> (result: usize)
        ensures
            result == self@.values().len(),
    {
        match self {
            ParamsSignature::Void => 0,
            ParamsSignature::Single(_) => 1,
            ParamsSignature::Pair(_, _) => 2,
            ParamsSignature::Triple(_, _, _) => 3,
            ParamsSignature::Multiple(values) => values.len(),
        }
    }

    /// The value type at `index`, or `None` past the end.
    pub fn get(&self, index: usize) -> (result: Option<ValueType>)
        ensures
            index < self@.values().len() ==> result == Some(self@.values()[index as int]),
            index >= self@.values().len() ==> result is None,
    {
        match self {
            ParamsSignature::Void => None,
            ParamsSignature::Single(inner) => match index {
                0 => Some(*inner),
                _ => None,
            },
            ParamsSignature::Pair(first, second) => match index {
                0 => Some(*first),
                1 => Some(*second),
                _ => None,
            },
            ParamsSignature::Triple(first, second, third) => match index {
                0 => Some(*first),
                1 => Some(*second),
                2 => Some(*third),
                _ => None,
            },
            ParamsSignature::Multiple(values) => {
                if index < values.len() {
                    Some(values[index])
                } else {
                    None
                }
            },
        }
    }

    /// Appends one value type, growing the signature to the next variant.
    pub fn push_value(self, item: ValueType) -> (result: ParamsSignature)
        ensures
            result@ == self@.appended(seq![item]),
    {
        proof {
            assert(SignatureShape::Void.values() + seq![item] =~= seq![item]);
            match self@ {
                SignatureShape::Single(a) => {
                    assert(seq![a] + seq![item] =~= seq![a, item]);
                },
                SignatureShape::Pair(a, b) => {
                    assert(seq![a, b] + seq![item] =~= seq![a, b, item]);
                },
                SignatureShape::Triple(a, b, c) => {
                    assert((seq![a, b, c] + seq![item]).len() == 4);
                },
                SignatureShape::Multiple(values) => {
                    assert(values.push(item) =~= values + seq![item]);
                },
                _ => {},
            }
        }
        match self {
            ParamsSignature::Void => ParamsSignature::Single(item),
            ParamsSignature::Single(item1) => ParamsSignature::Pair(item1, item),
            ParamsSignature::Pair(item1, item2) => ParamsSignature::Triple(item1, item2, item),
            ParamsSignature::Triple(item1, item2, item3) => {
                let mut items: Vec<ValueType> = Vec::new();
                items.push(item1);
                items.push(item2);
                items.push(item3);
                items.push(item);
                assert(items@ =~= self@.values() + seq![item]);
                ParamsSignature::Multiple(items)
            },
            ParamsSignature::Multiple(mut items) => {
                items.push(item);
                ParamsSignature::Multiple(items)
            },
        }
    }

    /// Appends each of `items` in order.
    pub fn append(self, items: &[ValueType]) -> (result: ParamsSignature)
        ensures
            result@ == self@.appended(items@),
    {
        let ghost original = self@;
        let mut result = self;
        let mut i: usize = 0;
        assert(original.values() + items@.subrange(0, 0) =~= original.values());
        while i < items.len()
            invariant
                i <= items.len(),
                result@ == original.appended(items@.subrange(0, i as int)),
            decreases items.len() - i,
        {
            let ghost before = result@;
            result = result.push_value(items[i]);
            proof {
                let prefix = items@.subrange(0, i as int);
                let next = items@.subrange(0, i + 1);
                assert(next =~= prefix + seq![items@[i as int]]);
                match original {
                    SignatureShape::Multiple(values) => {
                        assert(values + next =~= (values + prefix) + seq![items@[i as int]]);
                    },
                    _ => {
                        assert(original.values() + next =~= (original.values() + prefix) + seq![items@[i as int]]);
                        assert(SignatureShape::collected(original.values() + prefix).values() =~= original.values() + prefix);
                    },
                }
            }
            i = i + 1;
        }
        assert(items@.subrange(0, items.len() as int) =~= items@);
        result
    }

    /// Collects value types into the smallest variant that holds them.
    pub fn from_values(items: &[ValueType]) -> (result: ParamsSignature)
        ensures
            result@ == SignatureShape::collected(items@),
    {
        let result = ParamsSignature::Void.append(items);
        assert(SignatureShape::Void.values() + items@ =~= items@);
        result
    }

    /// The value types of the signature as a vector.
    pub fn to_vec(&self) -> (result: Vec<ValueType>)
        ensures
            result@ == self@.values(),
    {
        let mut result: Vec<ValueType> = Vec::new();
        let n = self.len();
        let mut i: usize = 0;
        while i < n
            invariant
                n == self@.values().len(),
                i <= n,
                result@ == self@.values().subrange(0, i as int),
            decreases n - i,
        {
            let item = self.get(i);
            match item {
                Some(value) => {
                    result.push(value);
                },
                None => {},
            }
            i = i + 1;
        }
        result
    }

    /// The value types of the signature, collected by iterating it from first to last.
    pub fn into_values(self) -> (result: Vec<ValueType>)
        ensures
            result@ == self@.values(),
    {
        let mut result: Vec<ValueType> = Vec::new();
        let mut cursor = self.iter();
        while cursor.start_index < cursor.end_index
            invariant
                cursor.signature == &self,
                cursor.start_index <= cursor.end_index,
                cursor.end_index == self@.values().len(),
                result@ == self@.values().subrange(0, cursor.start_index as int),
            decreases cursor.end_index - cursor.start_index,
        {
            let ghost start = cursor.start_index;
            match cursor.next() {
                Some(value) => {
                    result.push(value);
                    assert(self@.values().subrange(0, start + 1) =~= self@.values().subrange(0, start as int).push(value));
                },
                None => {},
            }
        }
        assert(self@.values().subrange(0, self@.values().len() as int) =~= self@.values());
        result
    }

    /// An iterator over the value types of the signature, from first to last.
    pub fn iter(&self) -> (result: ParamsSignatureIter<'_>)
        ensures
            result.signature == self,
            result.start_index == 0,
            result.end_index == self@.values().len(),
    {
        ParamsSignatureIter::new(self)
    }
}

/// No value types.
impl From<()> for ParamsSignature {
    fn from(_value: ()) -> (result: ParamsSignature) {
        ParamsSignature::Void
    }
}

impl vstd::std_specs::convert::FromSpecImpl<()> for ParamsSignature {
    open spec fn obeys_from_spec() -> bool {
        true
    }

    open spec fn from_spec(_value: ()) -> ParamsSignature {
        ParamsSignature::Void
    }
}

/// One value type.
impl From<ValueType> for ParamsSignature {
    fn from(value: ValueType) -> (result: ParamsSignature) {
        ParamsSignature::Single(value)
    }
}

impl vstd::std_specs::convert::FromSpecImpl<ValueType> for ParamsSignature {
    open spec fn obeys_from_spec() -> bool {
        true
    }

    open spec fn from_spec(value: ValueType) -> ParamsSignature {
        ParamsSignature::Single(value)
    }
}

/// Two value types, in order.
impl From<(ValueType, ValueType)> for ParamsSignature {
    fn from(value: (ValueType, ValueType)) -> (result: ParamsSignature) {
        ParamsSignature::Pair(value.0, value.1)
    }
}

impl vstd::std_specs::convert::FromSpecImpl<(ValueType, ValueType)> for ParamsSignature {
    open spec fn obeys_from_spec() -> bool {
        true
    }

    open spec fn from_spec(value: (ValueType, ValueType)) -> ParamsSignature {
        ParamsSignature::Pair(value.0, value.1)
    }
}

/// Three value types, in order.
impl From<(ValueType, ValueType, ValueType)> for ParamsSignature {
    fn from(value: (ValueType, ValueType, ValueType)) -> (result: ParamsSignature) {
        ParamsSignature::Triple(value.0, value.1, value.2)
    }
}

impl vstd::std_specs::convert::FromSpecImpl<(ValueType, ValueType, ValueType)> for ParamsSignature {
    open spec fn obeys_from_spec() -> bool {
        true
    }

    open spec fn from_spec(value: (ValueType, ValueType, ValueType)) -> ParamsSignature {
        ParamsSignature::Triple(value.0, value.1, value.2)
    }
}

/// One value type, or none.
impl From<Option<ValueType>> for ParamsSignature {
    fn from(value: Option<ValueType>) -> (result: ParamsSignature) {
        match value {
            Some(value) => ParamsSignature::Single(value),
            None => ParamsSignature::Void,
        }
    }
}

impl vstd::std_specs::convert::FromSpecImpl<Option<ValueType>> for ParamsSignature {
    open spec fn obeys_from_spec() -> bool {
        true
    }

    open spec fn from_spec(value: Option<ValueType>) -> ParamsSignature {
        match value {
            Some(value) => ParamsSignature::Single(value),
            None => ParamsSignature::Void,
        }
    }
}

/// The signature of a function or block: the types it takes and the types it yields.
#[derive(Debug, Hash)]
pub struct TypeSignature {
    pub params: ParamsSignature,
    pub results: ParamsSignature,
}

impl TypeSignature {
    /// A signature with the given parameters and results.
    pub fn new(params: ParamsSignature, results: ParamsSignature) -> (result: TypeSignature)
        ensures
            result.params@ == params@,
            result.results@ == results@,
    {
        TypeSignature { params, results }
    }

    /// A copy of this signature.
    pub fn duplicate(&self) -> (result: TypeSignature)
        ensures
            result.params@ == self.params@,
            result.results@ == self.results@,
    {
        TypeSignature { params: self.params.duplicate(), results: self.results.duplicate() }
    }
}

/// Iterating a signature agrees with indexing it: a cursor over `values[start..end]` yields
/// `values[start]` from the front and leaves `values[start + 1..end]`, and yields `values[end - 1]`
/// from the back and leaves `values[start..end - 1]`; a cursor over all the values yields, from
/// the front, the reverse of what it yields from the back.
pub proof fn law_iteration_agrees_with_get(signature: ParamsSignature, start: int, end: int)
    requires
        0 <= start < end <= signature@.values().len(),
    ensures
        signature@.values().subrange(start, end)[0] == signature@.values()[start],
        signature@.values().subrange(start, end).drop_first() == signature@.values().subrange(start + 1, end),
        signature@.values().subrange(start, end).last() == signature@.values()[end - 1],
        signature@.values().subrange(start, end).drop_last() == signature@.values().subrange(start, end - 1),
        signature@.values().subrange(0, signature@.values().len() as int) == signature@.values(),
        signature@.values().reverse().reverse() == signature@.values(),
{
    let values = signature@.values();
    assert(values.subrange(start, end).drop_first() =~= values.subrange(start + 1, end));
    assert(values.subrange(start, end).drop_last() =~= values.subrange(start, end - 1));
    assert(values.subrange(0, values.len() as int) =~= values);
    assert(values.reverse().reverse() =~= values);
}

/// What a cursor over `values[start..end]` yields from the front, one `next` after another,
/// until it is spent: `values[start]` first.
pub open spec fn drained_front(values: Seq<ValueType>, start: int, end: int) -> Seq<ValueType>
    decreases end - start,
{
    if start >= end {
        Seq::empty()
    } else {
        seq![values[start]] + drained_front(values, start + 1, end)
    }
}

/// What a cursor over `values[start..end]` yields from the back, one `next_back` after
/// another, until it is spent: `values[end - 1]` first.
pub open spec fn drained_back(values: Seq<ValueType>, start: int, end: int) -> Seq<ValueType>
    decreases end - start,
{
    if start >= end {
        Seq::empty()
    } else {
        seq![values[end - 1]] + drained_back(values, start, end - 1)
    }
}

/// Iterating a signature to the end from the front yields its values in order, and from the
/// back yields them reversed, for a cursor over any part of it.
pub proof fn law_collected_iteration(values: Seq<ValueType>, start: int, end: int)
    requires
        0 <= start <= end <= values.len(),
    ensures
        drained_front(values, start, end) == values.subrange(start, end),
        drained_back(values, start, end) == values.subrange(start, end).reverse(),
    decreases end - start,
{
    if start < end {
        law_collected_iteration(values, start + 1, end);
        law_collected_iteration(values, start, end - 1);
        assert(drained_front(values, start, end) =~= values.subrange(start, end));
        assert(drained_back(values, start, end) =~= values.subrange(start, end).reverse());
    } else {
        assert(values.subrange(start, end) =~= Seq::<ValueType>::empty());
        assert(values.subrange(start, end).reverse() =~= Seq::<ValueType>::empty());
    }
}

/// A double-ended cursor over the value types of a signature.
pub struct ParamsSignatureIter<'a> {
    pub signature: &'a ParamsSignature,
    pub start_index: usize,
    pub end_index: usize,
}

impl<'a> ParamsSignatureIter<'a> {
    /// A cursor covering the whole signature.
    pub fn new(signature: &'a ParamsSignature) -> (result: ParamsSignatureIter<'a>)
        ensures
            result.signature == signature,
            result.start_index == 0,
            result.end_index == signature@.values().len(),
    {
        ParamsSignatureIter { start_index: 0, end_index: signature.len(), signature }
    }

    /// The value types not yet yielded from either end.
    pub open spec fn remaining(&self) -> Seq<ValueType> {
        self.signature@.values().subrange(self.start_index as int, self.end_index as int)
    }

    /// Yields the next value type from the front.
    pub fn next(&mut self) -> (result: Option<ValueType>)
        requires
            old(self).start_index <= old(self).end_index <= old(self).signature@.values().len(),
        ensures
            final(self).signature == old(self).signature,
            final(self).end_index == old(self).end_index,
            old(self).start_index < old(self).end_index ==> {
                &&& result == Some(old(self).signature@.values()[old(self).start_index as int])
                &&& final(self).start_index == old(self).start_index + 1
            },
            old(self).start_index >= old(self).end_index ==> {
                &&& result is None
                &&& final(self).start_index == old(self).start_index
            },
    {
        if self.start_index >= self.end_index {
            return None;
        }
        let item = self.signature.get(self.start_index);
        self.start_index = self.start_index + 1;
        item
    }

    /// Yields the next value type from the back.
    pub fn next_back(&mut self) -> (result: Option<ValueType>)
        requires
            old(self).start_index <= old(self).end_index <= old(self).signature@.values().len(),
        ensures
            final(self).signature == old(self).signature,
            final(self).start_index == old(self).start_index,
            old(self).start_index < old(self).end_index ==> {
                &&& result == Some(old(self).signature@.values()[old(self).end_index - 1])
                &&& final(self).end_index == old(self).end_index - 1
            },
            old(self).start_index >= old(self).end_index ==> {
                &&& result is None
                &&& final(self).end_index == old(self).end_index
            },
    {
        if self.start_index >= self.end_index {
            return None;
        }
        let item = self.signature.get(self.end_index - 1);
        self.end_index = self.end_index - 1;
        item
    }

    /// The number of value types left to yield.
    pub fn len(&self) -> (result: usize)
        requires
            self.start_index <= self.end_index,
        ensures
            result == self.end_index - self.start_index,
    {
        self.end_index - self.start_index
    }
}

/// The name of a value type in messages.
pub open spec fn value_type_text(value_type: ValueType) -> Seq<char> {
    match value_type {
        ValueType::I32 => "i32"@,
        ValueType::U32 => "u32"@,
        ValueType::I64 => "i64"@,
        ValueType::U64 => "u64"@,
        ValueType::F32 => "f32"@,
        ValueType::F64 => "f64"@,
        ValueType::HeapPointer => "<pointer>"@,
        ValueType::FunctionPointer => "<function>"@,
    }
}

/// A signature in messages: its value types between parentheses, separated by commas.
pub open spec fn signature_text(values: Seq<ValueType>) -> Seq<char> {
    "("@ + joined(values.map_values(|value_type: ValueType| value_type_text(value_type)), ", "@) + ")"@
}

impl ValueType {
    /// The name of the value type in messages.
    pub fn to_string(&self) -> (result: String)
        ensures
            result@ == value_type_text(*self),
    {
        String::from_str(match self {
            ValueType::I32 => "i32",
            ValueType::U32 => "u32",
            ValueType::I64 => "i64",
            ValueType::U64 => "u64",
            ValueType::F32 => "f32",
            ValueType::F64 => "f64",
            ValueType::HeapPointer => "<pointer>",
            ValueType::FunctionPointer => "<function>",
        })
    }
}

impl ParamsSignature {
    /// The signature in messages, such as `(i32, <pointer>)`.
    pub fn to_string(&self) -> (result: String)
        ensures
            result@ == signature_text(self@.values()),
    {
        let values = self.to_vec();
        let ghost names = values@.map_values(|value_type: ValueType| value_type_text(value_type));
        let mut text = String::new();
        let mut index: usize = 0;
        while index < values.len()
            invariant
                index <= values@.len(),
                names == values@.map_values(|value_type: ValueType| value_type_text(value_type)),
                text@ == joined(names.subrange(0, index as int), ", "@),
            decreases values.len() - index,
        {
            let name = values[index].to_string();
            let ghost prefix = names.subrange(0, index as int);
            let ghost next = names.subrange(0, index + 1int);
            proof {
                assert(next.drop_last() =~= prefix);
                assert(next.last() == name@);
            }
            if index == 0 {
                text = name;
                assert(next =~= seq![name@]);
            } else {
                text = text.concat(", ").concat(name.as_str());
            }
            index = index + 1;
        }
        proof {
            assert(names.subrange(0, values@.len() as int) =~= names);
        }
        String::from_str("(").concat(text.as_str()).concat(")")
    }
}

impl TypeSignature {
    /// The signature in messages, such as `(i32) -> (<pointer>)`.
    pub fn to_string(&self) -> (result: String)
        ensures
            result@ == signature_text(self.params@.values()) + " -> "@ + signature_text(self.results@.values()),
    {
        self.params.to_string().concat(" -> ").concat(self.results.to_string().as_str())
    }
}

} // verus!

use vstd::prelude::*;

use vstd::string::StringExecFns;

use crate::compiler::signature::{signature_text, value_type_text, ParamsSignature, SignatureShape, ValueType};
use crate::text::{decimal, spec_decimal};

verus! {

/// A type error found while checking a sequence of stack machine instructions.
#[derive(Debug)]
pub enum TypedStackError {
    InvalidOperandStackValueTypes(InvalidOperandStackValueTypesError),
    InvalidLexicalScopeValueType(InvalidLexicalScopeValueTypeError),
    InvalidBlockResultType(InvalidBlockResultTypeError),
}

/// The operand stack did not hold the expected types on top.
#[derive(Debug)]
pub struct InvalidOperandStackValueTypesError {
    pub expected: ParamsSignature,
    /// Every operand on the stack, from the bottom to the top.
    pub received: ParamsSignature,
}

/// A lexical scope did not hold a variable of the expected type.
#[derive(Debug)]
pub struct InvalidLexicalScopeValueTypeError {
    pub scope_offset: usize,
    /// The type of every lexical scope, from the innermost outwards.
    pub scope_offset_types: Vec<ValueType>,
    pub expected: ValueType,
    pub received: Option<ValueType>,
}

/// The innermost control flow block did not have the expected result type.
#[derive(Debug)]
pub struct InvalidBlockResultTypeError {
    /// The result type of every enclosing block, from the innermost outwards.
    pub block_types: Vec<ParamsSignature>,
    pub expected: ParamsSignature,
    pub received: Option<ParamsSignature>,
}

/// The mathematical content of a [`TypedStackError`].
/// (`Operands(expected, received)`, `Scope(scope_offset, scope_offset_types, expected, received)`,
/// `Block(block_types, expected, received)`).
pub ghost enum StackErrorModel {
    Operands(SignatureShape, SignatureShape),
    Scope(usize, Seq<ValueType>, ValueType, Option<ValueType>),
    Block(Seq<SignatureShape>, SignatureShape, Option<SignatureShape>),
}

/// The shapes of a sequence of signatures.
pub open spec fn shapes(signatures: Seq<ParamsSignature>) -> Seq<SignatureShape> {
    signatures.map_values(|signature: ParamsSignature| signature@)
}

/// The shape of an optional signature.
pub open spec fn optional_shape(signature: Option<ParamsSignature>) -> Option<SignatureShape> {
    match signature {
        Some(signature) => Some(signature@),
        None => None,
    }
}

impl View for TypedStackError {
    type V = StackErrorModel;

    open spec fn view(&self) -> StackErrorModel {
        match self {
            TypedStackError::InvalidOperandStackValueTypes(inner) => StackErrorModel::Operands(
                inner.expected@,
                inner.received@,
            ),
            TypedStackError::InvalidLexicalScopeValueType(inner) => StackErrorModel::Scope(
                inner.scope_offset,
                inner.scope_offset_types@,
                inner.expected,
                inner.received,
            ),
            TypedStackError::InvalidBlockResultType(inner) => StackErrorModel::Block(
                shapes(inner.block_types@),
                inner.expected@,
                optional_shape(inner.received),
            ),
        }
    }
}

/// An error raised while compiling an expression into stack machine instructions.
#[derive(Debug)]
pub enum CompilerError {
    /// The target function index does not refer to a known function.
    InvalidFunctionTarget(u32),
    /// A variable reference points past every enclosing scope.
    UnboundVariable(usize),
    /// The compiled instructions are not well typed.
    StackError(TypedStackError),
}

impl CompilerError {
    /// Wraps a stack type error.
    pub fn from_stack_error(value: TypedStackError) -> (result: CompilerError)
        ensures
            result matches CompilerError::StackError(inner) && inner@ == value@,
    {
        CompilerError::StackError(value)
    }
}

/// Numbered lines, one for each item: a line break, a space, the item's position, a colon and
/// the item.
pub open spec fn numbered_lines(items: Seq<Seq<char>>) -> Seq<char>
    decreases items.len(),
{
    if items.len() == 0 {
        Seq::empty()
    } else {
        numbered_lines(items.drop_last()) + "\n "@ + spec_decimal((items.len() - 1) as nat) + ": "@ + items.last()
    }
}

/// The text of a value type that was found, or `<none>`.
pub open spec fn received_type_text(received: Option<ValueType>) -> Seq<char> {
    match received {
        Some(value_type) => value_type_text(value_type),
        None => "<none>"@,
    }
}

/// The text of a block result type that was found, or `<none>`.
pub open spec fn received_signature_text(received: Option<SignatureShape>) -> Seq<char> {
    match received {
        Some(signature) => signature_text(signature.values()),
        None => "<none>"@,
    }
}

/// The message of a stack type error.
pub open spec fn stack_error_text(error: StackErrorModel) -> Seq<char> {
    match error {
        StackErrorModel::Operands(expected, received) => "Invalid values on operand stack: Expected "@
            + signature_text(expected.values()) + ", received "@ + signature_text(received.values()),
        StackErrorModel::Scope(scope_offset, scope_offset_types, expected, received) =>
            "Invalid lexical scope value type at scope offset "@ + spec_decimal(scope_offset as nat) + ": Expected "@
            + value_type_text(expected) + ", received "@ + received_type_text(received)
            + numbered_lines(scope_offset_types.map_values(|value_type: ValueType| value_type_text(value_type))),
        StackErrorModel::Block(block_types, expected, received) => "Invalid block result type: Expected "@
            + signature_text(expected.values()) + ", received "@ + received_signature_text(received)
            + numbered_lines(block_types.map_values(|signature: SignatureShape| signature_text(signature.values()))),
    }
}

/// One numbered line: a line break, a space, the position, a colon and the text.
fn numbered_line(position: usize, text: &str) -> (result: String)
    ensures
        result@ == "\n "@ + spec_decimal(position as nat) + ": "@ + text@,
{
    String::from_str("\n ").concat(decimal(position as u64).as_str()).concat(": ").concat(text)
}

impl InvalidOperandStackValueTypesError {
    /// The error message.
    pub fn to_string(&self) -> (result: String)
        ensures
            result@ == stack_error_text(StackErrorModel::Operands(self.expected@, self.received@)),
    {
        String::from_str("Invalid values on operand stack: Expected ")
            .concat(self.expected.to_string().as_str())
            .concat(", received ")
            .concat(self.received.to_string().as_str())
    }
}

impl InvalidLexicalScopeValueTypeError {
    /// The error message, with the value type of every lexical scope, innermost first.
    pub fn to_string(&self) -> (result: String)
        ensures
            result@ == stack_error_text(
                StackErrorModel::Scope(self.scope_offset, self.scope_offset_types@, self.expected, self.received),
            ),
    {
        let received = match self.received {
            Some(value_type) => value_type.to_string(),
            None => String::from_str("<none>"),
        };
        let mut text = String::from_str("Invalid lexical scope value type at scope offset ")
            .concat(decimal(self.scope_offset as u64).as_str())
            .concat(": Expected ")
            .concat(self.expected.to_string().as_str())
            .concat(", received ")
            .concat(received.as_str());
        let ghost heading = text@;
        let ghost items = self.scope_offset_types@.map_values(|value_type: ValueType| value_type_text(value_type));
        let mut index: usize = 0;
        while index < self.scope_offset_types.len()
            invariant
                index <= items.len(),
                items == self.scope_offset_types@.map_values(|value_type: ValueType| value_type_text(value_type)),
                text@ == heading + numbered_lines(items.subrange(0, index as int)),
            decreases self.scope_offset_types.len() - index,
        {
            let line = numbered_line(index, self.scope_offset_types[index].to_string().as_str());
            proof {
                let next = items.subrange(0, index + 1int);
                assert(next.drop_last() =~= items.subrange(0, index as int));
            }
            text = text.concat(line.as_str());
            index = index + 1;
        }
        proof {
            assert(items.subrange(0, items.len() as int) =~= items);
        }
        text
    }
}

impl InvalidBlockResultTypeError {
    /// The error message, with the result type of every enclosing block, innermost first.
    pub fn to_string(&self) -> (result: String)
        ensures
            result@ == stack_error_text(
                StackErrorModel::Block(shapes(self.block_types@), self.expected@, optional_shape(self.received)),
            ),
    {
        let received = match &self.received {
            Some(signature) => signature.to_string(),
            None => String::from_str("<none>"),
        };
        let mut text = String::from_str("Invalid block result type: Expected ")
            .concat(self.expected.to_string().as_str())
            .concat(", received ")
            .concat(received.as_str());
        let ghost heading = text@;
        let ghost items = shapes(self.block_types@).map_values(|signature: SignatureShape| signature_text(signature.values()));
        let mut index: usize = 0;
        while index < self.block_types.len()
            invariant
                index <= items.len(),
                items == shapes(self.block_types@).map_values(|signature: SignatureShape| signature_text(signature.values())),
                text@ == heading + numbered_lines(items.subrange(0, index as int)),
            decreases self.block_types.len() - index,
        {
            let line = numbered_line(index, self.block_types[index].to_string().as_str());
            proof {
                let next = items.subrange(0, index + 1int);
                assert(next.drop_last() =~= items.subrange(0, index as int));
            }
            text = text.concat(line.as_str());
            index = index + 1;
        }
        proof {
            assert(items.subrange(0, items.len() as int) =~= items);
        }
        text
    }
}

impl TypedStackError {
    /// The error message.
    pub fn to_string(&self) -> (result: String)
        ensures
            result@ == stack_error_text(self@),
    {
        match self {
            TypedStackError::InvalidOperandStackValueTypes(inner) => inner.to_string(),
            TypedStackError::InvalidLexicalScopeValueType(inner) => inner.to_string(),
            TypedStackError::InvalidBlockResultType(inner) => inner.to_string(),
        }
    }
}

/// The message of a compiler error.
pub open spec fn compiler_error_text(error: CompilerError) -> Seq<char> {
    match error {
        CompilerError::InvalidFunctionTarget(target) => "Invalid function index: "@ + spec_decimal(target as nat),
        CompilerError::UnboundVariable(scope_offset) => "Unbound variable scope offset "@ + spec_decimal(scope_offset as nat),
        CompilerError::StackError(error) => "Stack error: "@ + stack_error_text(error@),
    }
}

impl CompilerError {
    /// The error message.
    pub fn to_string(&self) -> (result: String)
        ensures
            result@ == compiler_error_text(*self),
    {
        match self {
            CompilerError::InvalidFunctionTarget(target) => String::from_str("Invalid function index: ").concat(decimal(*target as u64).as_str()),
            CompilerError::UnboundVariable(scope_offset) => String::from_str("Unbound variable scope offset ").concat(decimal(*scope_offset as u64).as_str()),
            CompilerError::StackError(error) => String::from_str("Stack error: ").concat(error.to_string().as_str()),
        }
    }
}

} // verus!

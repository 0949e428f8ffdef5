//! The computation-graph vertex and the operator layer that composes vertices.

use vstd::prelude::*;

verus! {

/// The operation that produced a composite node, used as a display tag.
#[derive(Clone, Copy, Debug, PartialEq, Eq, Structural)]
pub enum Operation {
    Add,
    Mul,
    Tanh,
}

/// The operands of a node, one variant per operation so that the arity of
/// each operation is fixed by construction: a leaf has no operands, an
/// addition or a multiplication has exactly two, a hyperbolic tangent has
/// exactly one.
pub enum Operands {
    Leaf,
    Add(Box<Value>, Box<Value>),
    Mul(Box<Value>, Box<Value>),
    Tanh(Box<Value>),
}

/// A scalar computation-graph vertex: a forward value, the accumulated
/// gradient of the most recently propagated output with respect to this
/// node, a display label, and the operands that produced the node.
///
/// `value` and `grad` hold 64-bit words that the library carries opaquely;
/// callers conventionally store the IEEE-754 encoding of a double there.
/// The gradient is a plain public field so that a caller can seed the root
/// before starting a backward pass.
pub struct Value {
    pub value: u64,
    pub grad: u64,
    pub label: String,
    pub operands: Operands,
}

/// The operation tag of a node: nothing for a leaf, the producing
/// operation otherwise.
pub open spec fn operation_of(v: Value) -> Option<Operation> {
    match v.operands {
        Operands::Leaf => Option::None,
        Operands::Add(_, _) => Option::Some(Operation::Add),
        Operands::Mul(_, _) => Option::Some(Operation::Mul),
        Operands::Tanh(_) => Option::Some(Operation::Tanh),
    }
}

/// The display tag of an operation.
pub open spec fn op_tag(op: Operation) -> Seq<char> {
    match op {
        Operation::Add => "+"@,
        Operation::Mul => "*"@,
        Operation::Tanh => "tanh"@,
    }
}

impl Operation {
    /// The short textual tag of this operation, as a diagram renderer shows it.
    pub fn to_string(&self) -> (r: String)
        ensures
            r@ == op_tag(*self),
    {
        match self {
            Operation::Add => String::from_str("+"),
            Operation::Mul => String::from_str("*"),
            Operation::Tanh => String::from_str("tanh"),
        }
    }
}

impl Value {
    /// Creates a leaf node: the given value, a zero gradient, no operands,
    /// an empty label. Construction never fails.
    pub fn new(value: u64) -> (r: Value)
        ensures
            r.value == value,
            r.grad == 0,
            r.operands is Leaf,
            r.label@ == Seq::<char>::empty(),
    {
        Value { value, grad: 0, label: String::new(), operands: Operands::Leaf }
    }

    /// Sets the display label and returns the node for chaining; nothing
    /// else changes.
    pub fn label(self, label: String) -> (r: Value)
        ensures
            r.value == self.value,
            r.grad == self.grad,
            r.operands == self.operands,
            r.label@ == label@,
    {
        Value { label, ..self }
    }

    /// The operation tag of this node, if it is not a leaf.
    pub fn operation(&self) -> (r: Option<Operation>)
        ensures
            r == operation_of(*self),
    {
        match &self.operands {
            Operands::Leaf => Option::None,
            Operands::Add(_, _) => Option::Some(Operation::Add),
            Operands::Mul(_, _) => Option::Some(Operation::Mul),
            Operands::Tanh(_) => Option::Some(Operation::Tanh),
        }
    }

    /// Composes a sum node. The caller supplies the addition on scalar
    /// words; the new node's value is that operation applied to the two
    /// operand values, its gradient is zero, its label is empty, and it
    /// records both operands, consumed, in order.
    pub fn add<F: Fn(u64, u64) -> u64>(self, rhs: Value, op: F) -> (r: Value)
        requires
            call_requires(op, (self.value, rhs.value)),
        ensures
            call_ensures(op, (self.value, rhs.value), r.value),
            r.grad == 0,
            r.label@ == Seq::<char>::empty(),
            (r.operands matches Operands::Add(l, rr) && l == self && rr == rhs),
    {
        let v = op(self.value, rhs.value);
        Value {
            value: v,
            grad: 0,
            label: String::new(),
            operands: Operands::Add(Box::new(self), Box::new(rhs)),
        }
    }

    /// Composes a product node, exactly as [`Value::add`] but recording a
    /// multiplication.
    pub fn mul<F: Fn(u64, u64) -> u64>(self, rhs: Value, op: F) -> (r: Value)
        requires
            call_requires(op, (self.value, rhs.value)),
        ensures
            call_ensures(op, (self.value, rhs.value), r.value),
            r.grad == 0,
            r.label@ == Seq::<char>::empty(),
            (r.operands matches Operands::Mul(l, rr) && l == self && rr == rhs),
    {
        let v = op(self.value, rhs.value);
        Value {
            value: v,
            grad: 0,
            label: String::new(),
            operands: Operands::Mul(Box::new(self), Box::new(rhs)),
        }
    }

    /// Composes a hyperbolic-tangent node. The caller supplies the function
    /// on scalar words; the new node's value is that function applied to the
    /// operand's value, and the operand is recorded, consumed.
    pub fn tanh<F: Fn(u64) -> u64>(self, op: F) -> (r: Value)
        requires
            call_requires(op, (self.value,)),
        ensures
            call_ensures(op, (self.value,), r.value),
            r.grad == 0,
            r.label@ == Seq::<char>::empty(),
            (r.operands matches Operands::Tanh(l) && l == self),
    {
        let v = op(self.value);
        Value { value: v, grad: 0, label: String::new(), operands: Operands::Tanh(Box::new(self)) }
    }
}

} // verus!

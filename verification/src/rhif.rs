//! The RHDL Intermediate Form (RHIF): opcodes, their operands, and the
//! slots that name values.
use vstd::prelude::*;
use crate::text::{decimal, lemma_tagged_decimal_injective, push_decimal, push_str};
use crate::types::{Color, Path, TypedBits};

verus! {

/// One instruction of the intermediate form.
#[derive(Clone, PartialEq, Debug)]
pub enum OpCode {
    Noop,
    /// lhs <- arg1 op arg2
    Binary(Binary),
    /// lhs <- op arg1
    Unary(Unary),
    /// Select a value based on a condition.
    Select(Select),
    /// lhs <- arg[path]
    Index(Index),
    /// lhs <- rhs
    Assign(Assign),
    /// lhs <- rhs, where rhs[path] = arg
    Splice(Splice),
    /// lhs <- [value; len]
    Repeat(Repeat),
    /// lhs <- Struct@path { fields (..rest) }
    Struct(Struct),
    /// lhs <- Tuple(fields)
    Tuple(Tuple),
    /// ROM table
    Case(Case),
    /// lhs = @path(args)
    Exec(Exec),
    /// x <- [a, b, c, d]
    Array(Array),
    /// x <- enum(discriminant, fields)
    Enum(Enum),
    /// x <- a as bits::<len>
    AsBits(Cast),
    /// x <- a as signed::<len>
    AsSigned(Cast),
    /// x <- C::sig(a)
    Retime(Retime),
    Comment(String),
}

#[derive(Debug, Clone, PartialEq)]
pub struct Binary {
    pub op: AluBinary,
    pub lhs: Slot,
    pub arg1: Slot,
    pub arg2: Slot,
}

#[derive(Debug, Clone, PartialEq)]
pub struct Unary {
    pub op: AluUnary,
    pub lhs: Slot,
    pub arg1: Slot,
}

#[derive(Debug, Clone, PartialEq)]
pub struct Select {
    pub lhs: Slot,
    pub cond: Slot,
    pub true_value: Slot,
    pub false_value: Slot,
}

#[derive(Debug, Clone, PartialEq)]
pub struct Index {
    pub lhs: Slot,
    pub arg: Slot,
    pub path: Path,
}

#[derive(Debug, Clone, PartialEq)]
pub struct Assign {
    pub lhs: Slot,
    pub rhs: Slot,
}

#[derive(Debug, Clone, PartialEq)]
pub struct Splice {
    pub lhs: Slot,
    pub orig: Slot,
    pub path: Path,
    pub subst: Slot,
}

#[derive(Debug, Clone, PartialEq)]
pub struct Repeat {
    pub lhs: Slot,
    pub value: Slot,
    pub len: u64,
}

#[derive(Debug, Clone, PartialEq)]
pub struct Struct {
    pub lhs: Slot,
    pub fields: Vec<FieldValue>,
    pub rest: Option<Slot>,
    pub template: TypedBits,
}

#[derive(Debug, Clone, PartialEq)]
pub struct Case {
    pub lhs: Slot,
    pub discriminant: Slot,
    pub table: Vec<(CaseArgument, Slot)>,
}

#[derive(Debug, Clone, PartialEq)]
pub struct Array {
    pub lhs: Slot,
    pub elements: Vec<Slot>,
}

#[derive(Debug, Clone, PartialEq)]
pub struct Tuple {
    pub lhs: Slot,
    pub fields: Vec<Slot>,
}

#[derive(Debug, Clone, PartialEq)]
pub struct Exec {
    pub lhs: Slot,
    pub id: FuncId,
    pub args: Vec<Slot>,
}

#[derive(Clone, PartialEq, Debug)]
pub enum CaseArgument {
    Slot(Slot),
    Wild,
}

#[derive(Clone, PartialEq, Debug)]
pub struct FieldValue {
    pub member: Member,
    pub value: Slot,
}

/// Two-operand operators of the arithmetic/logic unit.
#[derive(Clone, Copy, PartialEq, Eq, Structural, Debug)]
pub enum AluBinary {
    Add,
    Sub,
    Mul,
    BitXor,
    BitAnd,
    BitOr,
    Shl,
    Shr,
    Eq,
    Lt,
    Le,
    Ne,
    Ge,
    Gt,
}

/// The operators that compare their operands and yield a single bit.
pub open spec fn spec_is_comparison(op: AluBinary) -> bool {
    ||| op is Eq
    ||| op is Lt
    ||| op is Le
    ||| op is Ne
    ||| op is Ge
    ||| op is Gt
}

impl AluBinary {
    /// Whether the operator is one of `==`, `<`, `<=`, `!=`, `>=`, `>`.
    pub fn is_comparison(&self) -> (r: bool)
        ensures
            r == spec_is_comparison(*self),
    {
        match self {
            AluBinary::Eq | AluBinary::Lt | AluBinary::Le | AluBinary::Ne | AluBinary::Ge
            | AluBinary::Gt => true,
            _ => false,
        }
    }
}

/// The comparisons are exactly `==`, `<`, `<=`, `!=`, `>=` and `>`; the
/// arithmetic, bitwise and shift operators are not comparisons.
pub proof fn lemma_comparisons_are_the_relations(op: AluBinary)
    ensures
        spec_is_comparison(op) <==> (op == AluBinary::Eq || op == AluBinary::Lt || op
            == AluBinary::Le || op == AluBinary::Ne || op == AluBinary::Ge || op == AluBinary::Gt),
        (op == AluBinary::Add || op == AluBinary::Sub || op == AluBinary::Mul || op
            == AluBinary::BitXor || op == AluBinary::BitAnd || op == AluBinary::BitOr || op
            == AluBinary::Shl || op == AluBinary::Shr) ==> !spec_is_comparison(op),
{
}

/// The symbol that renders a binary operator.
pub open spec fn alu_binary_text(op: AluBinary) -> Seq<char> {
    match op {
        AluBinary::Add => seq!['+'],
        AluBinary::Sub => seq!['-'],
        AluBinary::Mul => seq!['*'],
        AluBinary::BitXor => seq!['^'],
        AluBinary::BitAnd => seq!['&'],
        AluBinary::BitOr => seq!['|'],
        AluBinary::Shl => seq!['<', '<'],
        AluBinary::Shr => seq!['>', '>'],
        AluBinary::Eq => seq!['=', '='],
        AluBinary::Lt => seq!['<'],
        AluBinary::Le => seq!['<', '='],
        AluBinary::Ne => seq!['!', '='],
        AluBinary::Ge => seq!['>', '='],
        AluBinary::Gt => seq!['>'],
    }
}

impl AluBinary {
    /// Appends the symbol of the operator to `out`.
    pub fn write_debug(&self, out: &mut String)
        ensures
            final(out)@ == old(out)@ + alu_binary_text(*self),
    {
        proof {
            reveal_strlit("+");
            reveal_strlit("-");
            reveal_strlit("*");
            reveal_strlit("^");
            reveal_strlit("&");
            reveal_strlit("|");
            reveal_strlit("<<");
            reveal_strlit(">>");
            reveal_strlit("==");
            reveal_strlit("<");
            reveal_strlit("<=");
            reveal_strlit("!=");
            reveal_strlit(">=");
            reveal_strlit(">");
        }
        let t: &str = match self {
            AluBinary::Add => "+",
            AluBinary::Sub => "-",
            AluBinary::Mul => "*",
            AluBinary::BitXor => "^",
            AluBinary::BitAnd => "&",
            AluBinary::BitOr => "|",
            AluBinary::Shl => "<<",
            AluBinary::Shr => ">>",
            AluBinary::Eq => "==",
            AluBinary::Lt => "<",
            AluBinary::Le => "<=",
            AluBinary::Ne => "!=",
            AluBinary::Ge => ">=",
            AluBinary::Gt => ">",
        };
        push_str(out, t);
    }
}

/// One-operand operators of the arithmetic/logic unit.
#[derive(Clone, Copy, PartialEq, Eq, Structural, Debug)]
pub enum AluUnary {
    Neg,
    Not,
    All,
    Any,
    Xor,
    Signed,
    Unsigned,
    Val,
}

/// The prefix that renders a unary operator.
pub open spec fn alu_unary_text(op: AluUnary) -> Seq<char> {
    match op {
        AluUnary::Neg => seq!['-'],
        AluUnary::Not => seq!['!'],
        AluUnary::All => seq!['&'],
        AluUnary::Any => seq!['|'],
        AluUnary::Xor => seq!['^'],
        AluUnary::Signed => seq!['s', 'i', 'g', 'n', 'e', 'd', ' '],
        AluUnary::Unsigned => seq!['u', 'n', 's', 'i', 'g', 'n', 'e', 'd', ' '],
        AluUnary::Val => seq!['v', 'a', 'l', ' '],
    }
}

impl AluUnary {
    /// Appends the prefix of the operator to `out`.
    pub fn write_debug(&self, out: &mut String)
        ensures
            final(out)@ == old(out)@ + alu_unary_text(*self),
    {
        proof {
            reveal_strlit("-");
            reveal_strlit("!");
            reveal_strlit("&");
            reveal_strlit("|");
            reveal_strlit("^");
            reveal_strlit("signed ");
            reveal_strlit("unsigned ");
            reveal_strlit("val ");
        }
        let t: &str = match self {
            AluUnary::Neg => "-",
            AluUnary::Not => "!",
            AluUnary::All => "&",
            AluUnary::Any => "|",
            AluUnary::Xor => "^",
            AluUnary::Signed => "signed ",
            AluUnary::Unsigned => "unsigned ",
            AluUnary::Val => "val ",
        };
        push_str(out, t);
    }
}

/// A value in the intermediate form: a literal, a register, or nothing.
#[derive(Clone, Copy, PartialEq, Eq, Structural, Hash, PartialOrd, Ord, Debug)]
pub enum Slot {
    Literal(usize),
    Register(usize),
    Empty,
}

/// The error of asking a slot that is not a register for its register.
#[derive(Clone, Copy, PartialEq, Eq, Structural, Debug)]
pub enum SlotError {
    NotARegister,
}

/// The message that reports a slot error.
pub open spec fn slot_error_text(e: SlotError) -> Seq<char> {
    match e {
        SlotError::NotARegister => "Not a register"@,
    }
}

impl SlotError {
    /// The message that reports this error.
    pub fn message(&self) -> (m: String)
        ensures
            m@ == slot_error_text(*self),
    {
        match self {
            SlotError::NotARegister => String::from_str("Not a register"),
        }
    }
}

/// The debug rendering of a slot: `l<n>`, `r<n>` or `()`.
pub open spec fn slot_text(s: Slot) -> Seq<char> {
    match s {
        Slot::Literal(l) => seq!['l'] + decimal(l as nat),
        Slot::Register(r) => seq!['r'] + decimal(r as nat),
        Slot::Empty => seq!['(', ')'],
    }
}

/// Different slots print differently: a literal, a register and the
/// empty slot are told apart, and so are different numbers.
pub proof fn lemma_slot_text_injective(a: Slot, b: Slot)
    requires
        slot_text(a) == slot_text(b),
    ensures
        a == b,
{
    match (a, b) {
        (Slot::Literal(x), Slot::Literal(y)) => {
            lemma_tagged_decimal_injective('l', x as nat, 'l', y as nat);
        },
        (Slot::Register(x), Slot::Register(y)) => {
            lemma_tagged_decimal_injective('r', x as nat, 'r', y as nat);
        },
        (Slot::Literal(x), Slot::Register(y)) => {
            lemma_tagged_decimal_injective('l', x as nat, 'r', y as nat);
        },
        (Slot::Register(x), Slot::Literal(y)) => {
            lemma_tagged_decimal_injective('r', x as nat, 'l', y as nat);
        },
        (Slot::Empty, Slot::Empty) => {},
        (Slot::Empty, _) => {
            assert(slot_text(a)[0] == '(');
            assert(slot_text(b)[0] != '(');
        },
        (_, Slot::Empty) => {
            assert(slot_text(b)[0] == '(');
            assert(slot_text(a)[0] != '(');
        },
    }
}

/// The slot `s` after every occurrence of `old` in it is replaced by `new`.
pub open spec fn spec_rename(s: Slot, old: Slot, new: Slot) -> Slot {
    if s == old {
        new
    } else {
        s
    }
}

impl Slot {
    /// The register number, or `NotARegister` for literals and the empty slot.
    pub fn reg(&self) -> (r: Result<usize, SlotError>)
        ensures
            match *self {
                Slot::Register(n) => r == Ok::<usize, SlotError>(n),
                _ => r == Err::<usize, SlotError>(SlotError::NotARegister),
            },
    {
        match self {
            Slot::Register(r) => Ok(*r),
            _ => Err(SlotError::NotARegister),
        }
    }

    pub fn is_literal(&self) -> (r: bool)
        ensures
            r == (*self is Literal),
    {
        matches!(self, Slot::Literal(_))
    }

    pub fn is_empty(&self) -> (r: bool)
        ensures
            r == (*self is Empty),
    {
        matches!(self, Slot::Empty)
    }

    pub fn is_reg(&self) -> (r: bool)
        ensures
            r == (*self is Register),
    {
        matches!(self, Slot::Register(_))
    }

    /// `new` if this slot is `old`, else this slot unchanged.
    pub fn rename(&self, old: Slot, new: Slot) -> (r: Slot)
        ensures
            r == spec_rename(*self, old, new),
    {
        if *self == old {
            new
        } else {
            *self
        }
    }

    /// Appends the debug rendering of this slot to `out`.
    pub fn write_debug(&self, out: &mut String)
        ensures
            final(out)@ == old(out)@ + slot_text(*self),
    {
        proof {
            reveal_strlit("l");
            reveal_strlit("r");
            reveal_strlit("()");
        }
        match self {
            Slot::Literal(l) => {
                push_str(out, "l");
                push_decimal(out, *l);
            },
            Slot::Register(r) => {
                push_str(out, "r");
                push_decimal(out, *r);
            },
            Slot::Empty => {
                push_str(out, "()");
            },
        }
    }

    /// The debug rendering of this slot: `l<n>`, `r<n>` or `()`.
    pub fn debug_string(&self) -> (s: String)
        ensures
            s@ == slot_text(*self),
    {
        let mut s = String::new();
        self.write_debug(&mut s);
        assert(s@ =~= slot_text(*self));
        s
    }
}

/// Every slot is exactly one of a literal, a register or the empty slot.
pub proof fn lemma_slot_kinds_partition(s: Slot)
    ensures
        (s is Literal) || (s is Register) || (s is Empty),
        !((s is Literal) && (s is Register)),
        !((s is Literal) && (s is Empty)),
        !((s is Register) && (s is Empty)),
{
}

/// Renaming a slot to itself changes nothing.
pub proof fn lemma_rename_to_itself(s: Slot, a: Slot)
    ensures
        spec_rename(s, a, a) == s,
{
}

/// Renaming twice with the same pair is renaming once.
pub proof fn lemma_rename_idempotent(s: Slot, old: Slot, new: Slot)
    ensures
        spec_rename(spec_rename(s, old, new), old, new) == spec_rename(s, old, new),
{
}

/// Renaming `old` to `new` and then `new` back to `old` restores every
/// slot that was not already `new`.
pub proof fn lemma_rename_undone(s: Slot, old: Slot, new: Slot)
    requires
        s != new,
    ensures
        spec_rename(spec_rename(s, old, new), new, old) == s,
{
}

/// A member of a struct or tuple: a field name or a position.
#[derive(Clone, PartialEq, Debug)]
pub enum Member {
    Named(String),
    Unnamed(u32),
}

/// The identifier of a function called by an `Exec` opcode.
#[derive(Copy, Clone, PartialEq, Eq, Structural, PartialOrd, Ord, Hash, Debug)]
pub struct FuncId(usize);

/// The debug rendering of a function id: `fid(<n>)`.
pub open spec fn func_id_text(f: FuncId) -> Seq<char> {
    seq!['f', 'i', 'd', '('] + decimal(f.id() as nat) + seq![')']
}

impl FuncId {
    /// The number that identifies the function.
    pub closed spec fn id(self) -> usize {
        self.0
    }

    /// The number that identifies the function.
    pub fn raw(&self) -> (r: usize)
        ensures
            r == self.id(),
    {
        self.0
    }

    /// The debug rendering: `fid(<n>)`.
    pub fn debug_string(&self) -> (s: String)
        ensures
            s@ == func_id_text(*self),
    {
        proof {
            reveal_strlit("fid(");
            reveal_strlit(")");
        }
        let mut s = String::new();
        push_str(&mut s, "fid(");
        push_decimal(&mut s, self.0);
        push_str(&mut s, ")");
        assert(s@ =~= func_id_text(*self));
        s
    }
}

/// The function id that holds the number `id`.
pub closed spec fn func_id(id: usize) -> FuncId {
    FuncId(id)
}

/// The id of a function is the number it was made from, and the number
/// determines the id.
pub proof fn lemma_func_id_roundtrip(id: usize, f: FuncId)
    ensures
        func_id(id).id() == id,
        func_id(f.id()) == f,
{
}

impl From<usize> for FuncId {
    fn from(id: usize) -> (r: FuncId) {
        FuncId(id)
    }
}

impl vstd::std_specs::convert::FromSpecImpl<usize> for FuncId {
    open spec fn obeys_from_spec() -> bool {
        true
    }

    open spec fn from_spec(id: usize) -> FuncId {
        func_id(id)
    }
}

#[derive(Debug, Clone, PartialEq)]
pub struct Enum {
    pub lhs: Slot,
    pub fields: Vec<FieldValue>,
    pub template: TypedBits,
}

#[derive(Debug, Clone, PartialEq)]
pub struct Cast {
    pub lhs: Slot,
    pub arg: Slot,
    pub len: Option<usize>,
}

#[derive(Debug, Clone, PartialEq)]
pub struct Retime {
    pub lhs: Slot,
    pub arg: Slot,
    pub color: Option<Color>,
}

} // verus!

//! Register-transfer level opcodes and their textual rendering.
use vstd::prelude::*;
use std::ops::Range;
use crate::rhif::{AluBinary, AluUnary, alu_binary_text, alu_unary_text};
use crate::text::{decimal, lemma_tagged_decimal_injective, push_decimal, push_str};

verus! {

/// An operand of a register-transfer opcode.
#[derive(Clone, Copy, PartialEq, Eq, Structural, Debug)]
pub enum Operand {
    Literal(usize),
    Register(usize),
}

/// A key of a case table: a literal, or the wildcard.
#[derive(Clone, Copy, PartialEq, Eq, Structural, Debug)]
pub enum CaseArgument {
    Literal(usize),
    Wild,
}

#[derive(Clone, Debug)]
pub struct Assign {
    pub lhs: Operand,
    pub rhs: Operand,
}

#[derive(Clone, Debug)]
pub struct Binary {
    pub op: AluBinary,
    pub lhs: Operand,
    pub arg1: Operand,
    pub arg2: Operand,
}

#[derive(Clone, Debug)]
pub struct Case {
    pub lhs: Operand,
    pub discriminant: Operand,
    pub table: Vec<(CaseArgument, Operand)>,
}

#[derive(Clone, Debug)]
pub struct Cast {
    pub lhs: Operand,
    pub arg: Operand,
    pub len: usize,
    pub signed: bool,
}

#[derive(Clone, Debug)]
pub struct Concat {
    pub lhs: Operand,
    pub args: Vec<Operand>,
}

#[derive(Clone, Debug)]
pub struct DynamicIndex {
    pub lhs: Operand,
    pub arg: Operand,
    pub offset: Operand,
    pub len: usize,
}

#[derive(Clone, Debug)]
pub struct DynamicSplice {
    pub lhs: Operand,
    pub arg: Operand,
    pub offset: Operand,
    pub len: usize,
    pub value: Operand,
}

#[derive(Debug)]
pub struct Index {
    pub lhs: Operand,
    pub arg: Operand,
    pub bit_range: Range<usize>,
}

#[derive(Clone, Debug)]
pub struct Select {
    pub lhs: Operand,
    pub cond: Operand,
    pub true_value: Operand,
    pub false_value: Operand,
}

#[derive(Debug)]
pub struct Splice {
    pub lhs: Operand,
    pub orig: Operand,
    pub bit_range: Range<usize>,
    pub value: Operand,
}

#[derive(Clone, Debug)]
pub struct Unary {
    pub op: AluUnary,
    pub lhs: Operand,
    pub arg1: Operand,
}

/// One register-transfer instruction.
#[derive(Debug)]
pub enum OpCode {
    Assign(Assign),
    Binary(Binary),
    Case(Case),
    Cast(Cast),
    Comment(String),
    Concat(Concat),
    DynamicIndex(DynamicIndex),
    DynamicSplice(DynamicSplice),
    Index(Index),
    Select(Select),
    Splice(Splice),
    Unary(Unary),
}

/// `l<n>` for a literal, `r<n>` for a register.
pub open spec fn operand_text(o: Operand) -> Seq<char> {
    match o {
        Operand::Literal(l) => seq!['l'] + decimal(l as nat),
        Operand::Register(r) => seq!['r'] + decimal(r as nat),
    }
}

/// Different operands print differently: literals and registers are told
/// apart, and so are different numbers.
pub proof fn lemma_operand_text_injective(a: Operand, b: Operand)
    requires
        operand_text(a) == operand_text(b),
    ensures
        a == b,
{
    let (ca, x) = match a {
        Operand::Literal(l) => ('l', l),
        Operand::Register(r) => ('r', r),
    };
    let (cb, y) = match b {
        Operand::Literal(l) => ('l', l),
        Operand::Register(r) => ('r', r),
    };
    lemma_tagged_decimal_injective(ca, x as nat, cb, y as nat);
}

/// `l<n>` for a literal key, `_` for the wildcard.
pub open spec fn case_argument_text(c: CaseArgument) -> Seq<char> {
    match c {
        CaseArgument::Literal(l) => seq!['l'] + decimal(l as nat),
        CaseArgument::Wild => seq!['_'],
    }
}

/// `<start>..<end>`.
pub open spec fn range_text(r: Range<usize>) -> Seq<char> {
    decimal(r.start as nat) + seq!['.', '.'] + decimal(r.end as nat)
}

/// The operands rendered one after the other, separated by `, `.
pub open spec fn operands_joined(s: Seq<Operand>) -> Seq<char>
    decreases s.len(),
{
    if s.len() == 0 {
        seq![]
    } else if s.len() == 1 {
        operand_text(s[0])
    } else {
        operands_joined(s.drop_last()) + seq![',', ' '] + operand_text(s.last())
    }
}

/// One line of a case table: nine spaces, the key, ` => `, the value and a newline.
pub open spec fn case_line(entry: (CaseArgument, Operand)) -> Seq<char> {
    seq![' ', ' ', ' ', ' ', ' ', ' ', ' ', ' ', ' '] + case_argument_text(entry.0) + seq![
        ' ',
        '=',
        '>',
        ' ',
    ] + operand_text(entry.1) + seq!['\n']
}

/// The lines of a case table, in order.
pub open spec fn case_lines(t: Seq<(CaseArgument, Operand)>) -> Seq<char>
    decreases t.len(),
{
    if t.len() == 0 {
        seq![]
    } else {
        case_lines(t.drop_last()) + case_line(t.last())
    }
}

/// ` <- `
pub open spec fn arrow() -> Seq<char> {
    seq![' ', '<', '-', ' ']
}

/// ` <lhs> <- <rhs>`
pub open spec fn assign_text(a: Assign) -> Seq<char> {
    seq![' '] + operand_text(a.lhs) + arrow() + operand_text(a.rhs)
}

/// ` <lhs> <- <arg1> <op> <arg2>`
pub open spec fn binary_text(b: Binary) -> Seq<char> {
    seq![' '] + operand_text(b.lhs) + arrow() + operand_text(b.arg1) + seq![' '] + alu_binary_text(
        b.op,
    ) + seq![' '] + operand_text(b.arg2)
}

/// ` <lhs> <- case <discriminant> {` on its own line, one line per table
/// entry, then `}`.
pub open spec fn case_text(c: Case) -> Seq<char> {
    seq![' '] + operand_text(c.lhs) + arrow() + seq!['c', 'a', 's', 'e', ' '] + operand_text(
        c.discriminant,
    ) + seq![' ', '{', '\n'] + case_lines(c.table@) + seq!['}']
}

/// ` <lhs> <- <arg> as s<len>` for a signed cast, `u<len>` for an unsigned one.
pub open spec fn cast_text(c: Cast) -> Seq<char> {
    seq![' '] + operand_text(c.lhs) + arrow() + operand_text(c.arg) + seq![' ', 'a', 's', ' '] + (
    if c.signed {
        seq!['s']
    } else {
        seq!['u']
    }) + decimal(c.len as nat)
}

/// ` <lhs> <- { <arg>, <arg>, ... }`
pub open spec fn concat_text(c: Concat) -> Seq<char> {
    seq![' '] + operand_text(c.lhs) + arrow() + seq!['{', ' '] + operands_joined(c.args@) + seq![
        ' ',
        '}',
    ]
}

/// ` <lhs> <- <arg>[<offset> +: <len>]`
pub open spec fn dynamic_index_text(d: DynamicIndex) -> Seq<char> {
    seq![' '] + operand_text(d.lhs) + arrow() + operand_text(d.arg) + seq!['['] + operand_text(
        d.offset,
    ) + seq![' ', '+', ':', ' '] + decimal(d.len as nat) + seq![']']
}

/// ` <lhs> <- <arg>; <lhs>[<offset> +: <len>] <- <value>`
pub open spec fn dynamic_splice_text(d: DynamicSplice) -> Seq<char> {
    seq![' '] + operand_text(d.lhs) + arrow() + operand_text(d.arg) + seq![';', ' '] + operand_text(
        d.lhs,
    ) + seq!['['] + operand_text(d.offset) + seq![' ', '+', ':', ' '] + decimal(d.len as nat)
        + seq![']'] + arrow() + operand_text(d.value)
}

/// ` <lhs> <- <arg>[<start>..<end>]`
pub open spec fn index_text(i: Index) -> Seq<char> {
    seq![' '] + operand_text(i.lhs) + arrow() + operand_text(i.arg) + seq!['['] + range_text(
        i.bit_range,
    ) + seq![']']
}

/// ` <lhs> <- <cond> ? <true_value> : <false_value>`
pub open spec fn select_text(s: Select) -> Seq<char> {
    seq![' '] + operand_text(s.lhs) + arrow() + operand_text(s.cond) + seq![' ', '?', ' ']
        + operand_text(s.true_value) + seq![' ', ':', ' '] + operand_text(s.false_value)
}

/// ` <lhs> <- <value>/<start>..<end>/<orig>`
pub open spec fn splice_text(s: Splice) -> Seq<char> {
    seq![' '] + operand_text(s.lhs) + arrow() + operand_text(s.value) + seq!['/'] + range_text(
        s.bit_range,
    ) + seq!['/'] + operand_text(s.orig)
}

/// ` <lhs> <- <op><arg1>`
pub open spec fn unary_text(u: Unary) -> Seq<char> {
    seq![' '] + operand_text(u.lhs) + arrow() + alu_unary_text(u.op) + operand_text(u.arg1)
}

/// The text of an opcode: a leading space, the destination, ` <- ` and
/// the operation in a notation of its own per opcode; comments are
/// rendered as `// <comment>`.
pub open spec fn opcode_text(op: OpCode) -> Seq<char> {
    match op {
        OpCode::Assign(a) => assign_text(a),
        OpCode::Binary(b) => binary_text(b),
        OpCode::Case(c) => case_text(c),
        OpCode::Cast(c) => cast_text(c),
        OpCode::Comment(s) => seq!['/', '/', ' '] + s@,
        OpCode::Concat(c) => concat_text(c),
        OpCode::DynamicIndex(d) => dynamic_index_text(d),
        OpCode::DynamicSplice(d) => dynamic_splice_text(d),
        OpCode::Index(i) => index_text(i),
        OpCode::Select(s) => select_text(s),
        OpCode::Splice(s) => splice_text(s),
        OpCode::Unary(u) => unary_text(u),
    }
}

impl Operand {
    /// Appends `l<n>` or `r<n>` to `out`.
    pub fn write_debug(&self, out: &mut String)
        ensures
            final(out)@ == old(out)@ + operand_text(*self),
    {
        proof {
            reveal_strlit("l");
            reveal_strlit("r");
        }
        match self {
            Operand::Literal(l) => {
                push_str(out, "l");
                push_decimal(out, *l);
            },
            Operand::Register(r) => {
                push_str(out, "r");
                push_decimal(out, *r);
            },
        }
        assert(out@ =~= old(out)@ + operand_text(*self));
    }
}

impl CaseArgument {
    /// Appends `l<n>` or `_` to `out`.
    pub fn write_debug(&self, out: &mut String)
        ensures
            final(out)@ == old(out)@ + case_argument_text(*self),
    {
        proof {
            reveal_strlit("l");
            reveal_strlit("_");
        }
        match self {
            CaseArgument::Literal(l) => {
                push_str(out, "l");
                push_decimal(out, *l);
            },
            CaseArgument::Wild => {
                push_str(out, "_");
            },
        }
        assert(out@ =~= old(out)@ + case_argument_text(*self));
    }
}

fn write_range(r: &Range<usize>, out: &mut String)
    ensures
        final(out)@ == old(out)@ + range_text(*r),
{
    proof {
        reveal_strlit("..");
    }
    push_decimal(out, r.start);
    push_str(out, "..");
    push_decimal(out, r.end);
    assert(out@ =~= old(out)@ + range_text(*r));
}

fn write_joined(args: &Vec<Operand>, out: &mut String)
    ensures
        final(out)@ == old(out)@ + operands_joined(args@),
{
    proof {
        reveal_strlit(", ");
    }
    let ghost start = out@;
    let n = args.len();
    let mut i: usize = 0;
    while i < n
        invariant
            n == args@.len(),
            i <= n,
            out@ == start + operands_joined(args@.take(i as int)),
        decreases n - i,
    {
        proof {
            reveal_strlit(", ");
        }
        let ghost before = out@;
        if i > 0 {
            push_str(out, ", ");
        }
        args[i].write_debug(out);
        proof {
            let t = args@.take(i + 1);
            assert(t.drop_last() =~= args@.take(i as int));
            assert(t.last() == args@[i as int]);
            if i == 0 {
                assert(operands_joined(t) == operand_text(args@[0]));
                assert(args@.take(0) =~= Seq::<Operand>::empty());
                assert(out@ =~= before + operand_text(args@[0]));
            } else {
                assert(operands_joined(t) == operands_joined(args@.take(i as int)) + seq![',', ' ']
                    + operand_text(args@[i as int]));
                assert(out@ =~= before + seq![',', ' '] + operand_text(args@[i as int]));
            }
            assert(out@ =~= start + operands_joined(t));
        }
        i = i + 1;
    }
    assert(args@.take(n as int) =~= args@);
}

fn write_case_lines(table: &Vec<(CaseArgument, Operand)>, out: &mut String)
    ensures
        final(out)@ == old(out)@ + case_lines(table@),
{
    proof {
        reveal_strlit("         ");
        reveal_strlit(" => ");
        reveal_strlit("\n");
    }
    let ghost start = out@;
    let n = table.len();
    let mut i: usize = 0;
    while i < n
        invariant
            n == table@.len(),
            i <= n,
            out@ == start + case_lines(table@.take(i as int)),
        decreases n - i,
    {
        proof {
            reveal_strlit("         ");
            reveal_strlit(" => ");
            reveal_strlit("\n");
        }
        let ghost before = out@;
        push_str(out, "         ");
        table[i].0.write_debug(out);
        push_str(out, " => ");
        table[i].1.write_debug(out);
        push_str(out, "\n");
        proof {
            let t = table@.take(i + 1);
            assert(t.drop_last() =~= table@.take(i as int));
            assert(t.last() == table@[i as int]);
            assert(case_lines(t) == case_lines(table@.take(i as int)) + case_line(table@[i as int]));
            assert(out@ =~= before + case_line(table@[i as int]));
            assert(out@ =~= start + case_lines(t));
        }
        i = i + 1;
    }
    assert(table@.take(n as int) =~= table@);
}

fn write_prefix(lhs: &Operand, out: &mut String)
    ensures
        final(out)@ == old(out)@ + seq![' '] + operand_text(*lhs) + arrow(),
{
    proof {
        reveal_strlit(" ");
        reveal_strlit(" <- ");
    }
    let ghost start = out@;
    push_str(out, " ");
    lhs.write_debug(out);
    push_str(out, " <- ");
    assert(out@ =~= start + seq![' '] + operand_text(*lhs) + arrow());
}

impl Assign {
    pub fn write_debug(&self, out: &mut String)
        ensures
            final(out)@ == old(out)@ + assign_text(*self),
    {
        let ghost start = out@;
        write_prefix(&self.lhs, out);
        self.rhs.write_debug(out);
        assert(out@ =~= start + assign_text(*self));
    }
}

impl Binary {
    pub fn write_debug(&self, out: &mut String)
        ensures
            final(out)@ == old(out)@ + binary_text(*self),
    {
        proof {
            reveal_strlit(" ");
        }
        let ghost start = out@;
        write_prefix(&self.lhs, out);
        self.arg1.write_debug(out);
        push_str(out, " ");
        self.op.write_debug(out);
        push_str(out, " ");
        self.arg2.write_debug(out);
        assert(out@ =~= start + binary_text(*self));
    }
}

impl Case {
    pub fn write_debug(&self, out: &mut String)
        ensures
            final(out)@ == old(out)@ + case_text(*self),
    {
        proof {
            reveal_strlit("case ");
            reveal_strlit(" {\n");
            reveal_strlit("}");
        }
        let ghost start = out@;
        write_prefix(&self.lhs, out);
        push_str(out, "case ");
        self.discriminant.write_debug(out);
        push_str(out, " {\n");
        write_case_lines(&self.table, out);
        push_str(out, "}");
        assert(out@ =~= start + case_text(*self));
    }
}

impl Cast {
    pub fn write_debug(&self, out: &mut String)
        ensures
            final(out)@ == old(out)@ + cast_text(*self),
    {
        proof {
            reveal_strlit(" as ");
            reveal_strlit("s");
            reveal_strlit("u");
        }
        let ghost start = out@;
        write_prefix(&self.lhs, out);
        self.arg.write_debug(out);
        push_str(out, " as ");
        if self.signed {
            push_str(out, "s");
        } else {
            push_str(out, "u");
        }
        push_decimal(out, self.len);
        assert(out@ =~= start + cast_text(*self));
    }
}

impl Concat {
    pub fn write_debug(&self, out: &mut String)
        ensures
            final(out)@ == old(out)@ + concat_text(*self),
    {
        proof {
            reveal_strlit("{ ");
            reveal_strlit(" }");
        }
        let ghost start = out@;
        write_prefix(&self.lhs, out);
        push_str(out, "{ ");
        write_joined(&self.args, out);
        push_str(out, " }");
        assert(out@ =~= start + concat_text(*self));
    }
}

impl DynamicIndex {
    pub fn write_debug(&self, out: &mut String)
        ensures
            final(out)@ == old(out)@ + dynamic_index_text(*self),
    {
        proof {
            reveal_strlit("[");
            reveal_strlit(" +: ");
            reveal_strlit("]");
        }
        let ghost start = out@;
        write_prefix(&self.lhs, out);
        self.arg.write_debug(out);
        push_str(out, "[");
        self.offset.write_debug(out);
        push_str(out, " +: ");
        push_decimal(out, self.len);
        push_str(out, "]");
        assert(out@ =~= start + dynamic_index_text(*self));
    }
}

impl DynamicSplice {
    pub fn write_debug(&self, out: &mut String)
        ensures
            final(out)@ == old(out)@ + dynamic_splice_text(*self),
    {
        proof {
            reveal_strlit("; ");
            reveal_strlit("[");
            reveal_strlit(" +: ");
            reveal_strlit("]");
            reveal_strlit(" <- ");
        }
        let ghost start = out@;
        write_prefix(&self.lhs, out);
        self.arg.write_debug(out);
        push_str(out, "; ");
        self.lhs.write_debug(out);
        push_str(out, "[");
        self.offset.write_debug(out);
        push_str(out, " +: ");
        push_decimal(out, self.len);
        push_str(out, "]");
        push_str(out, " <- ");
        self.value.write_debug(out);
        assert(out@ =~= start + dynamic_splice_text(*self));
    }
}

impl Index {
    pub fn write_debug(&self, out: &mut String)
        ensures
            final(out)@ == old(out)@ + index_text(*self),
    {
        proof {
            reveal_strlit("[");
            reveal_strlit("]");
        }
        let ghost start = out@;
        write_prefix(&self.lhs, out);
        self.arg.write_debug(out);
        push_str(out, "[");
        write_range(&self.bit_range, out);
        push_str(out, "]");
        assert(out@ =~= start + index_text(*self));
    }
}

impl Select {
    pub fn write_debug(&self, out: &mut String)
        ensures
            final(out)@ == old(out)@ + select_text(*self),
    {
        proof {
            reveal_strlit(" ? ");
            reveal_strlit(" : ");
        }
        let ghost start = out@;
        write_prefix(&self.lhs, out);
        self.cond.write_debug(out);
        push_str(out, " ? ");
        self.true_value.write_debug(out);
        push_str(out, " : ");
        self.false_value.write_debug(out);
        assert(out@ =~= start + select_text(*self));
    }
}

impl Splice {
    pub fn write_debug(&self, out: &mut String)
        ensures
            final(out)@ == old(out)@ + splice_text(*self),
    {
        proof {
            reveal_strlit("/");
        }
        let ghost start = out@;
        write_prefix(&self.lhs, out);
        self.value.write_debug(out);
        push_str(out, "/");
        write_range(&self.bit_range, out);
        push_str(out, "/");
        self.orig.write_debug(out);
        assert(out@ =~= start + splice_text(*self));
    }
}

impl Unary {
    pub fn write_debug(&self, out: &mut String)
        ensures
            final(out)@ == old(out)@ + unary_text(*self),
    {
        let ghost start = out@;
        write_prefix(&self.lhs, out);
        self.op.write_debug(out);
        self.arg1.write_debug(out);
        assert(out@ =~= start + unary_text(*self));
    }
}

impl OpCode {
    /// Appends the text of this opcode to `out`.
    pub fn write_debug(&self, out: &mut String)
        ensures
            final(out)@ == old(out)@ + opcode_text(*self),
    {
        proof {
            reveal_strlit("// ");
        }
        match self {
            OpCode::Assign(a) => a.write_debug(out),
            OpCode::Binary(b) => b.write_debug(out),
            OpCode::Case(c) => c.write_debug(out),
            OpCode::Cast(c) => c.write_debug(out),
            OpCode::Comment(s) => {
                let ghost start = out@;
                push_str(out, "// ");
                push_str(out, s.as_str());
                assert(out@ =~= start + opcode_text(*self));
            },
            OpCode::Concat(c) => c.write_debug(out),
            OpCode::DynamicIndex(d) => d.write_debug(out),
            OpCode::DynamicSplice(d) => d.write_debug(out),
            OpCode::Index(i) => i.write_debug(out),
            OpCode::Select(s) => s.write_debug(out),
            OpCode::Splice(s) => s.write_debug(out),
            OpCode::Unary(u) => u.write_debug(out),
        }
    }

    /// The text of this opcode (see `opcode_text`).
    pub fn debug_string(&self) -> (s: String)
        ensures
            s@ == opcode_text(*self),
    {
        let mut s = String::new();
        self.write_debug(&mut s);
        assert(s@ =~= opcode_text(*self));
        s
    }
}

} // verus!

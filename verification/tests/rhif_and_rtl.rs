use rhdl::rhif::{AluBinary, AluUnary, FuncId, Slot, SlotError};
use rhdl::rtl::{
    Assign, Binary, Case, CaseArgument, Cast, Concat, DynamicIndex, DynamicSplice, Index, OpCode,
    Operand, Select, Splice, Unary,
};

#[test]
fn comparisons_are_exactly_the_relational_operators() {
    let comparisons = [AluBinary::Eq, AluBinary::Lt, AluBinary::Le, AluBinary::Ne, AluBinary::Ge, AluBinary::Gt];
    let others = [
        AluBinary::Add,
        AluBinary::Sub,
        AluBinary::Mul,
        AluBinary::BitXor,
        AluBinary::BitAnd,
        AluBinary::BitOr,
        AluBinary::Shl,
        AluBinary::Shr,
    ];
    for op in comparisons {
        assert!(op.is_comparison());
    }
    for op in others {
        assert!(!op.is_comparison());
    }
}

#[test]
fn slot_kinds() {
    assert!(Slot::Literal(3).is_literal());
    assert!(!Slot::Literal(3).is_reg());
    assert!(Slot::Register(4).is_reg());
    assert!(Slot::Empty.is_empty());
    assert!(!Slot::Register(4).is_empty());
}

#[test]
fn reg_of_register_only() {
    assert_eq!(Slot::Register(7).reg(), Ok(7));
    assert_eq!(Slot::Literal(7).reg(), Err(SlotError::NotARegister));
    assert_eq!(Slot::Empty.reg(), Err(SlotError::NotARegister));
}

#[test]
fn rename_replaces_only_the_old_slot() {
    let a = Slot::Register(1);
    let b = Slot::Register(2);
    assert_eq!(a.rename(a, b), b);
    assert_eq!(Slot::Literal(1).rename(a, b), Slot::Literal(1));
    // renaming back restores the slot
    assert_eq!(a.rename(a, b).rename(b, a), a);
    // renaming twice is renaming once
    assert_eq!(a.rename(a, b).rename(a, b), b);
}

#[test]
fn slot_debug_text() {
    assert_eq!(Slot::Literal(0).debug_string(), "l0");
    assert_eq!(Slot::Register(1234).debug_string(), "r1234");
    assert_eq!(Slot::Empty.debug_string(), "()");
}

#[test]
fn func_id_from_number() {
    let f: FuncId = FuncId::from(17);
    assert_eq!(f.raw(), 17);
    assert_eq!(f.debug_string(), "fid(17)");
    assert_eq!(FuncId::from(0).debug_string(), "fid(0)");
}

fn r(n: usize) -> Operand {
    Operand::Register(n)
}

fn l(n: usize) -> Operand {
    Operand::Literal(n)
}

#[test]
fn opcode_text_assign_binary_unary() {
    assert_eq!(OpCode::Assign(Assign { lhs: r(1), rhs: l(2) }).debug_string(), " r1 <- l2");
    assert_eq!(
        OpCode::Binary(Binary { op: AluBinary::Add, lhs: r(3), arg1: r(1), arg2: l(0) }).debug_string(),
        " r3 <- r1 + l0"
    );
    assert_eq!(
        OpCode::Binary(Binary { op: AluBinary::Shl, lhs: r(3), arg1: r(1), arg2: l(10) }).debug_string(),
        " r3 <- r1 << l10"
    );
    assert_eq!(OpCode::Unary(Unary { op: AluUnary::Not, lhs: r(5), arg1: r(4) }).debug_string(), " r5 <- !r4");
    assert_eq!(
        OpCode::Unary(Unary { op: AluUnary::Signed, lhs: r(5), arg1: r(4) }).debug_string(),
        " r5 <- signed r4"
    );
}

#[test]
fn opcode_text_case() {
    let op = OpCode::Case(Case {
        lhs: r(9),
        discriminant: r(1),
        table: vec![(CaseArgument::Literal(0), r(2)), (CaseArgument::Wild, r(3))],
    });
    assert_eq!(op.debug_string(), " r9 <- case r1 {\n         l0 => r2\n         _ => r3\n}");
    let empty = OpCode::Case(Case { lhs: r(9), discriminant: r(1), table: vec![] });
    assert_eq!(empty.debug_string(), " r9 <- case r1 {\n}");
}

#[test]
fn opcode_text_cast_comment_concat() {
    assert_eq!(OpCode::Cast(Cast { lhs: r(2), arg: r(1), len: 8, signed: true }).debug_string(), " r2 <- r1 as s8");
    assert_eq!(OpCode::Cast(Cast { lhs: r(2), arg: r(1), len: 16, signed: false }).debug_string(), " r2 <- r1 as u16");
    assert_eq!(OpCode::Comment("hello".to_string()).debug_string(), "// hello");
    assert_eq!(OpCode::Concat(Concat { lhs: r(4), args: vec![r(1), l(2), r(3)] }).debug_string(), " r4 <- { r1, l2, r3 }");
    assert_eq!(OpCode::Concat(Concat { lhs: r(4), args: vec![] }).debug_string(), " r4 <- {  }");
}

#[test]
fn opcode_text_indexing_and_splicing() {
    assert_eq!(
        OpCode::DynamicIndex(DynamicIndex { lhs: r(2), arg: r(1), offset: r(0), len: 4 }).debug_string(),
        " r2 <- r1[r0 +: 4]"
    );
    assert_eq!(
        OpCode::DynamicSplice(DynamicSplice { lhs: r(2), arg: r(1), offset: r(0), len: 4, value: l(3) }).debug_string(),
        " r2 <- r1; r2[r0 +: 4] <- l3"
    );
    assert_eq!(OpCode::Index(Index { lhs: r(2), arg: r(1), bit_range: 0..4 }).debug_string(), " r2 <- r1[0..4]");
    assert_eq!(
        OpCode::Splice(Splice { lhs: r(2), orig: r(1), bit_range: 4..8, value: r(7) }).debug_string(),
        " r2 <- r7/4..8/r1"
    );
    assert_eq!(
        OpCode::Select(Select { lhs: r(4), cond: r(1), true_value: r(2), false_value: l(3) }).debug_string(),
        " r4 <- r1 ? r2 : l3"
    );
}

#[test]
fn write_debug_appends() {
    let mut s = String::from("x:");
    OpCode::Assign(Assign { lhs: r(1), rhs: r(2) }).write_debug(&mut s);
    assert_eq!(s, "x: r1 <- r2");
}

#[test]
fn slot_error_message() {
    let e = Slot::Literal(5).reg().unwrap_err();
    assert_eq!(e, SlotError::NotARegister);
    assert_eq!(e.message(), "Not a register");
    assert_eq!(Slot::Empty.reg().unwrap_err().message(), "Not a register");
    assert_eq!(Slot::Register(5).reg().unwrap(), 5);
}

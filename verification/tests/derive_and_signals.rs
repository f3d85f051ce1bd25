use rhdl::synchronous::{
    define_descriptor_fn, define_hdl_fn, define_init_fn, define_sim_fn, derive_synchronous_struct, Data,
    DeriveError, DeriveInput, Field, FieldSet, Fields, Generics,
};
use rhdl::bits::{bits, Bits};
use rhdl::timed::{Blue, ClockType, Red, Sig, Timed};
use rhdl::types::{Color, Kind};

fn field(name: &str, ty: &str) -> Field {
    Field { name: name.to_string(), ty: ty.to_string() }
}

fn generics(impl_generics: &str, ty_generics: &str, where_clause: &str) -> Generics {
    Generics {
        impl_generics: impl_generics.to_string(),
        ty_generics: ty_generics.to_string(),
        where_clause: where_clause.to_string(),
    }
}

#[test]
fn test_template_synchronous_derive() {
    // pub struct Strobe<const N: usize> { strobe: DFF<Bits<N>>, value: Constant<Bits<N>> }
    let decl = DeriveInput {
        ident: "Strobe".to_string(),
        generics: generics("< const N : usize >", "< N >", ""),
        data: Data::Struct(Fields::Named(vec![field("strobe", "DFF < Bits < N > >"), field("value", "Constant < Bits < N > >")])),
    };
    let output = derive_synchronous_struct(&decl).unwrap();
    let expected = r#"impl < const N : usize > rhdl :: core :: Synchronous for Strobe < N > { type S = (Self :: Q , < DFF < Bits < N > > as rhdl :: core :: Synchronous > :: S , < Constant < Bits < N > > as rhdl :: core :: Synchronous > :: S) ; fn init (& self) -> Self :: S { (<< Self as rhdl :: core :: SynchronousDQ > :: Q as rhdl :: core :: Digital > :: dont_care () , self . strobe . init () , self . value . init () ,) } fn descriptor (& self , name : & str) -> Result < rhdl :: core :: CircuitDescriptor , rhdl :: core :: RHDLError > { use std :: collections :: BTreeMap ; let mut children : BTreeMap < String , CircuitDescriptor > = BTreeMap :: new () ; children . insert (stringify ! (strobe) . to_string () , self . strobe . descriptor (& format ! ("{name}_{}" , stringify ! (strobe))) ?) ; children . insert (stringify ! (value) . to_string () , self . value . descriptor (& format ! ("{name}_{}" , stringify ! (value))) ?) ; rhdl :: core :: build_synchronous_descriptor :: < Self > (name , children) } fn hdl (& self , name : & str) -> Result < rhdl :: core :: HDLDescriptor , rhdl :: core :: RHDLError > { use std :: collections :: BTreeMap ; let mut children : BTreeMap < String , HDLDescriptor > = BTreeMap :: new () ; children . insert (stringify ! (strobe) . to_string () , self . strobe . hdl (& format ! ("{name}_{}" , stringify ! (strobe))) ?) ; children . insert (stringify ! (value) . to_string () , self . value . hdl (& format ! ("{name}_{}" , stringify ! (value))) ?) ; rhdl :: core :: build_synchronous_hdl (self , name , children) } fn sim (& self , clock_reset : rhdl :: core :: ClockReset , input : < Self as SynchronousIO > :: I , state : & mut Self :: S) -> < Self as SynchronousIO > :: O { let update_fn = << Self as SynchronousIO > :: Kernel as DigitalFn3 > :: func () ; rhdl :: core :: trace ("input" , & input) ; for _ in 0 .. rhdl :: core :: MAX_ITERS { let prev_state = state . clone () ; let (outputs , internal_inputs) = update_fn (clock_reset , input , state . 0) ; rhdl :: core :: trace_push_path (stringify ! (strobe)) ; state . 0. strobe = self . strobe . sim (clock_reset , internal_inputs . strobe , & mut state . 1) ; rhdl :: core :: trace_pop_path () ; rhdl :: core :: trace_push_path (stringify ! (value)) ; state . 0. value = self . value . sim (clock_reset , internal_inputs . value , & mut state . 2) ; rhdl :: core :: trace_pop_path () ; if state == & prev_state { rhdl :: core :: trace ("outputs" , & outputs) ; return outputs ; } } panic ! ("Simulation did not converge") ; } }"#;
    assert_eq!(output, expected);
}

#[test]
fn test_synchronous_derive() {
    let decl = DeriveInput {
        ident: "Push".to_string(),
        generics: generics("", "", ""),
        data: Data::Struct(Fields::Named(vec![
            field("strobe", "Strobe < 32 >"),
            field("value", "Constant < Bits < 8 > >"),
            field("buf_z", "ZDriver < 8 >"),
            field("side", "DFF < Side >"),
            field("latch", "DFF < Bits < 8 > >"),
        ])),
    };
    let output = derive_synchronous_struct(&decl).unwrap();
    let expected = r#"impl rhdl :: core :: Synchronous for Push { type S = (Self :: Q , < Strobe < 32 > as rhdl :: core :: Synchronous > :: S , < Constant < Bits < 8 > > as rhdl :: core :: Synchronous > :: S , < ZDriver < 8 > as rhdl :: core :: Synchronous > :: S , < DFF < Side > as rhdl :: core :: Synchronous > :: S , < DFF < Bits < 8 > > as rhdl :: core :: Synchronous > :: S) ; fn init (& self) -> Self :: S { (<< Self as rhdl :: core :: SynchronousDQ > :: Q as rhdl :: core :: Digital > :: dont_care () , self . strobe . init () , self . value . init () , self . buf_z . init () , self . side . init () , self . latch . init () ,) } fn descriptor (& self , name : & str) -> Result < rhdl :: core :: CircuitDescriptor , rhdl :: core :: RHDLError > { use std :: collections :: BTreeMap ; let mut children : BTreeMap < String , CircuitDescriptor > = BTreeMap :: new () ; children . insert (stringify ! (strobe) . to_string () , self . strobe . descriptor (& format ! ("{name}_{}" , stringify ! (strobe))) ?) ; children . insert (stringify ! (value) . to_string () , self . value . descriptor (& format ! ("{name}_{}" , stringify ! (value))) ?) ; children . insert (stringify ! (buf_z) . to_string () , self . buf_z . descriptor (& format ! ("{name}_{}" , stringify ! (buf_z))) ?) ; children . insert (stringify ! (side) . to_string () , self . side . descriptor (& format ! ("{name}_{}" , stringify ! (side))) ?) ; children . insert (stringify ! (latch) . to_string () , self . latch . descriptor (& format ! ("{name}_{}" , stringify ! (latch))) ?) ; rhdl :: core :: build_synchronous_descriptor :: < Self > (name , children) } fn hdl (& self , name : & str) -> Result < rhdl :: core :: HDLDescriptor , rhdl :: core :: RHDLError > { use std :: collections :: BTreeMap ; let mut children : BTreeMap < String , HDLDescriptor > = BTreeMap :: new () ; children . insert (stringify ! (strobe) . to_string () , self . strobe . hdl (& format ! ("{name}_{}" , stringify ! (strobe))) ?) ; children . insert (stringify ! (value) . to_string () , self . value . hdl (& format ! ("{name}_{}" , stringify ! (value))) ?) ; children . insert (stringify ! (buf_z) . to_string () , self . buf_z . hdl (& format ! ("{name}_{}" , stringify ! (buf_z))) ?) ; children . insert (stringify ! (side) . to_string () , self . side . hdl (& format ! ("{name}_{}" , stringify ! (side))) ?) ; children . insert (stringify ! (latch) . to_string () , self . latch . hdl (& format ! ("{name}_{}" , stringify ! (latch))) ?) ; rhdl :: core :: build_synchronous_hdl (self , name , children) } fn sim (& self , clock_reset : rhdl :: core :: ClockReset , input : < Self as SynchronousIO > :: I , state : & mut Self :: S) -> < Self as SynchronousIO > :: O { let update_fn = << Self as SynchronousIO > :: Kernel as DigitalFn3 > :: func () ; rhdl :: core :: trace ("input" , & input) ; for _ in 0 .. rhdl :: core :: MAX_ITERS { let prev_state = state . clone () ; let (outputs , internal_inputs) = update_fn (clock_reset , input , state . 0) ; rhdl :: core :: trace_push_path (stringify ! (strobe)) ; state . 0. strobe = self . strobe . sim (clock_reset , internal_inputs . strobe , & mut state . 1) ; rhdl :: core :: trace_pop_path () ; rhdl :: core :: trace_push_path (stringify ! (value)) ; state . 0. value = self . value . sim (clock_reset , internal_inputs . value , & mut state . 2) ; rhdl :: core :: trace_pop_path () ; rhdl :: core :: trace_push_path (stringify ! (buf_z)) ; state . 0. buf_z = self . buf_z . sim (clock_reset , internal_inputs . buf_z , & mut state . 3) ; rhdl :: core :: trace_pop_path () ; rhdl :: core :: trace_push_path (stringify ! (side)) ; state . 0. side = self . side . sim (clock_reset , internal_inputs . side , & mut state . 4) ; rhdl :: core :: trace_pop_path () ; rhdl :: core :: trace_push_path (stringify ! (latch)) ; state . 0. latch = self . latch . sim (clock_reset , internal_inputs . latch , & mut state . 5) ; rhdl :: core :: trace_pop_path () ; if state == & prev_state { rhdl :: core :: trace ("outputs" , & outputs) ; return outputs ; } } panic ! ("Simulation did not converge") ; } }"#;
    assert_eq!(output, expected);
}

#[test]
fn synchronous_needs_named_fields() {
    for data in [Data::Enum, Data::Union, Data::Struct(Fields::Unnamed), Data::Struct(Fields::Unit)] {
        let decl = DeriveInput { ident: "X".to_string(), generics: generics("", "", ""), data };
        let err = derive_synchronous_struct(&decl).unwrap_err();
        assert_eq!(err, DeriveError::NotAStructWithNamedFields);
        assert_eq!(err.message(), "Synchronous can only be derived for structs with named fields");
    }
}

#[test]
fn synchronous_without_components() {
    let decl = DeriveInput {
        ident: "E".to_string(),
        generics: generics("< T >", "< T >", "where T : Copy"),
        data: Data::Struct(Fields::Named(vec![])),
    };
    let output = derive_synchronous_struct(&decl).unwrap();
    assert!(output.starts_with(
        "impl < T > rhdl :: core :: Synchronous for E < T > where T : Copy { type S = (Self :: Q ,) ; fn init (& self) -> Self :: S { (<< Self as rhdl :: core :: SynchronousDQ > :: Q as rhdl :: core :: Digital > :: dont_care () ,) } "
    ));
    assert!(output.contains("BTreeMap :: new () ; rhdl :: core :: build_synchronous_descriptor"));
    assert!(output.contains("update_fn (clock_reset , input , state . 0) ; if state == & prev_state"));
}

#[test]
fn each_method_names_every_component() {
    let fs = FieldSet::from_fields(&vec![field("a", "A"), field("b", "B < 2 >")]);
    assert_eq!(fs.component_name, vec!["a".to_string(), "b".to_string()]);
    assert_eq!(fs.component_ty, vec!["A".to_string(), "B < 2 >".to_string()]);
    assert_eq!(
        define_init_fn(&fs),
        "fn init (& self) -> Self :: S { (<< Self as rhdl :: core :: SynchronousDQ > :: Q as rhdl :: core :: Digital > :: dont_care () , self . a . init () , self . b . init () ,) }"
    );
    assert!(define_descriptor_fn(&fs).contains("self . b . descriptor (& format ! (\"{name}_{}\" , stringify ! (b))) ?) ; rhdl"));
    assert!(define_hdl_fn(&fs).contains("children . insert (stringify ! (a) . to_string () , self . a . hdl ("));
    let sim = define_sim_fn(&fs);
    assert!(sim.contains("state . 0. a = self . a . sim (clock_reset , internal_inputs . a , & mut state . 1) ;"));
    assert!(sim.contains("state . 0. b = self . b . sim (clock_reset , internal_inputs . b , & mut state . 2) ;"));
}

#[test]
fn state_positions_go_past_nine() {
    let fields: Vec<Field> = (0..12).map(|i| field(&format!("c{}", i), "X")).collect();
    let sim = define_sim_fn(&FieldSet::from_fields(&fields));
    assert!(sim.contains("internal_inputs . c11 , & mut state . 12) ;"));
}

#[test]
fn signal_carries_its_value() {
    let s: Sig<u8, Red> = Sig::signal(42);
    assert_eq!(s.val(), 42);
}

fn sig8(v: u128) -> Sig<Bits<8>, Red> {
    Sig::signal(bits::<8>(v))
}

#[test]
fn signal_arithmetic_wraps_at_the_width() {
    assert_eq!(sig8(200).add(sig8(100)).val().raw(), 44);
    assert_eq!(sig8(3).sub(sig8(5)).val().raw(), 254);
    assert_eq!(sig8(9).sub(sig8(5)).val().raw(), 4);
    assert_eq!(sig8(0b1010_0000).not().val().raw(), 0b0101_1111);
}

#[test]
fn signal_bitwise_operators() {
    assert_eq!(sig8(0b1100).bitand(sig8(0b1010)).val().raw(), 0b1000);
    assert_eq!(sig8(0b1100).bitor(sig8(0b1010)).val().raw(), 0b1110);
    assert_eq!(sig8(0b1100).bitxor(sig8(0b1010)).val().raw(), 0b0110);
    assert!(sig8(7).equals(&sig8(7)));
    assert!(!sig8(7).equals(&sig8(8)));
}

#[test]
fn full_width_vectors() {
    let max = bits::<128>(u128::MAX);
    assert_eq!(max.wrapping_add(bits::<128>(1)).raw(), 0);
    assert_eq!(bits::<128>(0).wrapping_sub(bits::<128>(1)).raw(), u128::MAX);
    assert_eq!(max.not().raw(), 0);
}

#[test]
fn kinds_of_timed_values() {
    assert_eq!(format!("{:?}", <Bits<8> as Timed>::static_kind()), "Bits(8)");
    assert_eq!(format!("{:?}", true.kind()), "Bits(1)");
    assert_eq!(format!("{:?}", <Sig<Bits<4>, Blue> as Timed>::static_kind()), "Signal(Bits(4), Blue)");
    assert_eq!(format!("{:?}", sig8(1).kind()), "Signal(Bits(8), Red)");
    assert_eq!(Red::color(), Color::Red);
    assert!(matches!(Kind::make_signal(Kind::Empty, Color::Green), Kind::Signal(b, Color::Green) if matches!(*b, Kind::Empty)));
}

#[test]
fn signal_shifts_and_ordering() {
    assert_eq!(sig8(0b0000_0011).shl(sig8(2)).val().raw(), 0b0000_1100);
    assert_eq!(sig8(0b1100_0001).shl(sig8(1)).val().raw(), 0b1000_0010);
    assert_eq!(sig8(200).shl(sig8(9)).val().raw(), 0);
    assert_eq!(sig8(0b1100_0000).shr(sig8(6)).val().raw(), 0b11);
    assert_eq!(sig8(255).shr(sig8(100)).val().raw(), 0);
    assert!(sig8(3).lt(&sig8(4)) && !sig8(4).lt(&sig8(4)));
    assert!(sig8(4).le(&sig8(4)) && !sig8(5).le(&sig8(4)));
    assert!(sig8(5).gt(&sig8(4)) && !sig8(4).gt(&sig8(4)));
    assert!(sig8(4).ge(&sig8(4)) && !sig8(3).ge(&sig8(4)));
    assert_eq!(bits::<128>(1).shl(127).raw(), 1u128 << 127);
    assert_eq!(bits::<128>(u128::MAX).shr(127).raw(), 1);
}

#[test]
fn boolean_signals() {
    let t: Sig<bool, Red> = Sig::signal(true);
    let f: Sig<bool, Red> = Sig::signal(false);
    assert!(!Sig::<bool, Red>::signal(true).not().val());
    assert!(Sig::<bool, Red>::signal(false).not().val());
    assert!(!Sig::<bool, Red>::signal(true).bitand(Sig::signal(false)).val());
    assert!(Sig::<bool, Red>::signal(true).bitor(Sig::signal(false)).val());
    assert!(Sig::<bool, Red>::signal(true).bitxor(Sig::signal(false)).val());
    assert!(!Sig::<bool, Red>::signal(true).bitxor(Sig::signal(true)).val());
    assert!(t.equals(&Sig::signal(true)) && !t.equals(&f));
    assert_eq!(format!("{:?}", t.kind()), "Signal(Bits(1), Red)");
}

//! The derived `Synchronous` implementation of a circuit struct: which
//! components the struct has, where each keeps its state, and the text of
//! the implementation, token by token, as a token stream prints it.
use vstd::prelude::*;
use crate::text::{decimal, push_decimal, push_str};

verus! {

/// A named field of a struct: its name and the printed tokens of its type.
#[derive(Clone, Debug)]
pub struct Field {
    pub name: String,
    pub ty: String,
}

/// The fields of a struct.
#[derive(Clone, Debug)]
pub enum Fields {
    Named(Vec<Field>),
    Unnamed,
    Unit,
}

/// What a derive is applied to.
#[derive(Clone, Debug)]
pub enum Data {
    Struct(Fields),
    Enum,
    Union,
}

/// The printed generics of an item, split for an `impl`: the parameters
/// after `impl`, the arguments after the type's name, and the `where`
/// clause. Each is empty where the item has none.
#[derive(Clone, Debug)]
pub struct Generics {
    pub impl_generics: String,
    pub ty_generics: String,
    pub where_clause: String,
}

/// The item a derive is applied to: its name, its generics and its body.
#[derive(Clone, Debug)]
pub struct DeriveInput {
    pub ident: String,
    pub generics: Generics,
    pub data: Data,
}

/// A derive was applied to something other than a struct with named
/// fields.
#[derive(Clone, Copy, PartialEq, Eq, Structural, Debug)]
pub enum DeriveError {
    NotAStructWithNamedFields,
}

/// The message that reports a refused derive.
pub open spec fn derive_error_text(e: DeriveError) -> Seq<char> {
    match e {
        DeriveError::NotAStructWithNamedFields => "Synchronous can only be derived for structs with named fields"@,
    }
}

impl DeriveError {
    /// The message that reports this refusal.
    pub fn message(&self) -> (m: String)
        ensures
            m@ == derive_error_text(*self),
    {
        match self {
            DeriveError::NotAStructWithNamedFields => String::from_str(
                "Synchronous can only be derived for structs with named fields",
            ),
        }
    }
}

/// The components of a circuit struct, in the order of its fields: the
/// name of each and the printed tokens of its type. Component `i` keeps
/// its state at position `i + 1` of the state tuple; position 0 holds the
/// circuit's own register state.
#[derive(Clone, Debug)]
pub struct FieldSet {
    pub component_name: Vec<String>,
    pub component_ty: Vec<String>,
}

/// The names of `fields`, in order.
pub open spec fn field_names(fields: Seq<Field>) -> Seq<String> {
    Seq::new(fields.len(), |i: int| fields[i].name)
}

/// The types of `fields`, in order.
pub open spec fn field_types(fields: Seq<Field>) -> Seq<String> {
    Seq::new(fields.len(), |i: int| fields[i].ty)
}

impl FieldSet {
    /// The components named by the fields `fields`.
    pub fn from_fields(fields: &Vec<Field>) -> (fs: FieldSet)
        ensures
            fs.component_name@ == field_names(fields@),
            fs.component_ty@ == field_types(fields@),
    {
        let mut component_name: Vec<String> = Vec::new();
        let mut component_ty: Vec<String> = Vec::new();
        let mut i: usize = 0;
        while i < fields.len()
            invariant
                i <= fields@.len(),
                component_name@.len() == i,
                component_ty@.len() == i,
                forall|j: int| 0 <= j < i ==> #[trigger] component_name@[j] == fields@[j].name,
                forall|j: int| 0 <= j < i ==> #[trigger] component_ty@[j] == fields@[j].ty,
            decreases fields@.len() - i,
        {
            component_name.push(fields[i].name.clone());
            component_ty.push(fields[i].ty.clone());
            i = i + 1;
        }
        FieldSet { component_name, component_ty }
    }
}

/// The methods of the implementation that repeat a statement per
/// component.
#[derive(Clone, Copy, PartialEq, Eq, Structural, Debug)]
pub enum Section {
    Init,
    Descriptor,
    Hdl,
    Sim,
}

/// The statement of method `section` for the component `name`, whose state
/// sits at position `index` of the state tuple.
pub open spec fn item_text(section: Section, name: Seq<char>, index: nat) -> Seq<char> {
    match section {
        Section::Init => " self . "@ + name + " . init () ,"@,
        Section::Descriptor => "children . insert (stringify ! ("@ + name + ") . to_string () , self . "@
            + name + " . descriptor (& format ! (\"{name}_{}\" , stringify ! ("@ + name + "))) ?) ; "@,
        Section::Hdl => "children . insert (stringify ! ("@ + name + ") . to_string () , self . "@ + name
            + " . hdl (& format ! (\"{name}_{}\" , stringify ! ("@ + name + "))) ?) ; "@,
        Section::Sim => "rhdl :: core :: trace_push_path (stringify ! ("@ + name + ")) ; state . 0. "@
            + name + " = self . "@ + name + " . sim (clock_reset , internal_inputs . "@ + name
            + " , & mut state . "@ + decimal(index) + ") ; rhdl :: core :: trace_pop_path () ; "@,
    }
}

/// The statements of method `section` for the components `names`, the
/// `k`-th of them (from 1) with its state at position `k`.
pub open spec fn items_text(section: Section, names: Seq<String>) -> Seq<char>
    decreases names.len(),
{
    if names.len() == 0 {
        seq![]
    } else {
        items_text(section, names.drop_last()) + item_text(section, names.last()@, names.len())
    }
}

/// The state type of a component of type `ty`, as it stands in the state
/// tuple.
pub open spec fn state_type_text(ty: Seq<char>) -> Seq<char> {
    " < "@ + ty + " as rhdl :: core :: Synchronous > :: S"@
}

/// The state types of components of types `tys`, separated by commas.
pub open spec fn state_types_text(tys: Seq<String>) -> Seq<char>
    decreases tys.len(),
{
    if tys.len() == 0 {
        seq![]
    } else if tys.len() == 1 {
        state_type_text(tys[0]@)
    } else {
        state_types_text(tys.drop_last()) + " ,"@ + state_type_text(tys.last()@)
    }
}

/// The state tuple: the circuit's own register state, then the state of
/// each component in turn.
pub open spec fn state_tuple_text(tys: Seq<String>) -> Seq<char> {
    "(Self :: Q ,"@ + state_types_text(tys) + ")"@
}

/// The `init` method: the registers start from "don't care", each
/// component from its own initial state.
pub open spec fn init_fn_text(names: Seq<String>) -> Seq<char> {
    "fn init (& self) -> Self :: S { (<< Self as rhdl :: core :: SynchronousDQ > :: Q as rhdl :: core :: Digital > :: dont_care () ,"@
        + items_text(Section::Init, names) + ") }"@
}

/// The `descriptor` method: one child descriptor per component, named
/// after its field.
pub open spec fn descriptor_fn_text(names: Seq<String>) -> Seq<char> {
    "fn descriptor (& self , name : & str) -> Result < rhdl :: core :: CircuitDescriptor , rhdl :: core :: RHDLError > { use std :: collections :: BTreeMap ; let mut children : BTreeMap < String , CircuitDescriptor > = BTreeMap :: new () ; "@
        + items_text(Section::Descriptor, names)
        + "rhdl :: core :: build_synchronous_descriptor :: < Self > (name , children) }"@
}

/// The `hdl` method: one child HDL descriptor per component, named after
/// its field.
pub open spec fn hdl_fn_text(names: Seq<String>) -> Seq<char> {
    "fn hdl (& self , name : & str) -> Result < rhdl :: core :: HDLDescriptor , rhdl :: core :: RHDLError > { use std :: collections :: BTreeMap ; let mut children : BTreeMap < String , HDLDescriptor > = BTreeMap :: new () ; "@
        + items_text(Section::Hdl, names) + "rhdl :: core :: build_synchronous_hdl (self , name , children) }"@
}

/// The `sim` method: run the update kernel, then each component on its
/// own state, until the state no longer changes.
pub open spec fn sim_fn_text(names: Seq<String>) -> Seq<char> {
    "fn sim (& self , clock_reset : rhdl :: core :: ClockReset , input : < Self as SynchronousIO > :: I , state : & mut Self :: S) -> < Self as SynchronousIO > :: O { let update_fn = << Self as SynchronousIO > :: Kernel as DigitalFn3 > :: func () ; rhdl :: core :: trace (\"input\" , & input) ; for _ in 0 .. rhdl :: core :: MAX_ITERS { let prev_state = state . clone () ; let (outputs , internal_inputs) = update_fn (clock_reset , input , state . 0) ; "@
        + items_text(Section::Sim, names)
        + "if state == & prev_state { rhdl :: core :: trace (\"outputs\" , & outputs) ; return outputs ; } } panic ! (\"Simulation did not converge\") ; }"@
}

/// `t` preceded by a space, or nothing where `t` is empty.
pub open spec fn spaced(t: Seq<char>) -> Seq<char> {
    if t.len() == 0 {
        seq![]
    } else {
        seq![' '] + t
    }
}

/// The whole implementation of `Synchronous` for the struct `name` with
/// generics `g` and components `names` of types `tys`.
pub open spec fn synchronous_impl_text(
    name: Seq<char>,
    g: Generics,
    names: Seq<String>,
    tys: Seq<String>,
) -> Seq<char> {
    "impl"@ + spaced(g.impl_generics@) + " rhdl :: core :: Synchronous for "@ + name + spaced(
        g.ty_generics@,
    ) + spaced(g.where_clause@) + " { type S = "@ + state_tuple_text(tys) + " ; "@ + init_fn_text(
        names,
    ) + seq![' '] + descriptor_fn_text(names) + seq![' '] + hdl_fn_text(names) + seq![' ']
        + sim_fn_text(names) + " }"@
}

fn push_item(s: &mut String, section: Section, name: &String, index: usize)
    ensures
        final(s)@ == old(s)@ + item_text(section, name@, index as nat),
{
    let n = name.as_str();
    match section {
        Section::Init => {
            push_str(s, " self . ");
            push_str(s, n);
            push_str(s, " . init () ,");
        },
        Section::Descriptor => {
            push_str(s, "children . insert (stringify ! (");
            push_str(s, n);
            push_str(s, ") . to_string () , self . ");
            push_str(s, n);
            push_str(s, " . descriptor (& format ! (\"{name}_{}\" , stringify ! (");
            push_str(s, n);
            push_str(s, "))) ?) ; ");
        },
        Section::Hdl => {
            push_str(s, "children . insert (stringify ! (");
            push_str(s, n);
            push_str(s, ") . to_string () , self . ");
            push_str(s, n);
            push_str(s, " . hdl (& format ! (\"{name}_{}\" , stringify ! (");
            push_str(s, n);
            push_str(s, "))) ?) ; ");
        },
        Section::Sim => {
            push_str(s, "rhdl :: core :: trace_push_path (stringify ! (");
            push_str(s, n);
            push_str(s, ")) ; state . 0. ");
            push_str(s, n);
            push_str(s, " = self . ");
            push_str(s, n);
            push_str(s, " . sim (clock_reset , internal_inputs . ");
            push_str(s, n);
            push_str(s, " , & mut state . ");
            push_decimal(s, index);
            push_str(s, ") ; rhdl :: core :: trace_pop_path () ; ");
        },
    }
}

fn push_items(s: &mut String, section: Section, names: &Vec<String>)
    ensures
        final(s)@ == old(s)@ + items_text(section, names@),
{
    let ghost start = s@;
    let mut i: usize = 0;
    while i < names.len()
        invariant
            i <= names@.len(),
            s@ == start + items_text(section, names@.subrange(0, i as int)),
        decreases names@.len() - i,
    {
        proof {
            let next = names@.subrange(0, i + 1);
            assert(next.drop_last() =~= names@.subrange(0, i as int));
            assert(next.last() == names@[i as int]);
        }
        push_item(s, section, &names[i], i + 1);
        i = i + 1;
    }
    proof {
        assert(names@.subrange(0, names@.len() as int) =~= names@);
    }
}

fn push_state_types(s: &mut String, tys: &Vec<String>)
    ensures
        final(s)@ == old(s)@ + state_types_text(tys@),
{
    let ghost start = s@;
    let mut i: usize = 0;
    while i < tys.len()
        invariant
            i <= tys@.len(),
            s@ == start + state_types_text(tys@.subrange(0, i as int)),
        decreases tys@.len() - i,
    {
        proof {
            let next = tys@.subrange(0, i + 1);
            assert(next.drop_last() =~= tys@.subrange(0, i as int));
            assert(next.last() == tys@[i as int]);
            assert(next[0] == tys@[0]);
        }
        if i > 0 {
            push_str(s, " ,");
        }
        push_str(s, " < ");
        push_str(s, tys[i].as_str());
        push_str(s, " as rhdl :: core :: Synchronous > :: S");
        i = i + 1;
    }
    proof {
        assert(tys@.subrange(0, tys@.len() as int) =~= tys@);
    }
}

/// The `init` method of the implementation.
pub fn define_init_fn(field_set: &FieldSet) -> (r: String)
    ensures
        r@ == init_fn_text(field_set.component_name@),
{
    let mut s = String::from_str(
        "fn init (& self) -> Self :: S { (<< Self as rhdl :: core :: SynchronousDQ > :: Q as rhdl :: core :: Digital > :: dont_care () ,",
    );
    push_items(&mut s, Section::Init, &field_set.component_name);
    push_str(&mut s, ") }");
    s
}

/// The `descriptor` method of the implementation.
pub fn define_descriptor_fn(field_set: &FieldSet) -> (r: String)
    ensures
        r@ == descriptor_fn_text(field_set.component_name@),
{
    let mut s = String::from_str(
        "fn descriptor (& self , name : & str) -> Result < rhdl :: core :: CircuitDescriptor , rhdl :: core :: RHDLError > { use std :: collections :: BTreeMap ; let mut children : BTreeMap < String , CircuitDescriptor > = BTreeMap :: new () ; ",
    );
    push_items(&mut s, Section::Descriptor, &field_set.component_name);
    push_str(&mut s, "rhdl :: core :: build_synchronous_descriptor :: < Self > (name , children) }");
    s
}

/// The `hdl` method of the implementation.
pub fn define_hdl_fn(field_set: &FieldSet) -> (r: String)
    ensures
        r@ == hdl_fn_text(field_set.component_name@),
{
    let mut s = String::from_str(
        "fn hdl (& self , name : & str) -> Result < rhdl :: core :: HDLDescriptor , rhdl :: core :: RHDLError > { use std :: collections :: BTreeMap ; let mut children : BTreeMap < String , HDLDescriptor > = BTreeMap :: new () ; ",
    );
    push_items(&mut s, Section::Hdl, &field_set.component_name);
    push_str(&mut s, "rhdl :: core :: build_synchronous_hdl (self , name , children) }");
    s
}

/// The `sim` method of the implementation.
pub fn define_sim_fn(field_set: &FieldSet) -> (r: String)
    ensures
        r@ == sim_fn_text(field_set.component_name@),
{
    let mut s = String::from_str(
        "fn sim (& self , clock_reset : rhdl :: core :: ClockReset , input : < Self as SynchronousIO > :: I , state : & mut Self :: S) -> < Self as SynchronousIO > :: O { let update_fn = << Self as SynchronousIO > :: Kernel as DigitalFn3 > :: func () ; rhdl :: core :: trace (\"input\" , & input) ; for _ in 0 .. rhdl :: core :: MAX_ITERS { let prev_state = state . clone () ; let (outputs , internal_inputs) = update_fn (clock_reset , input , state . 0) ; ",
    );
    push_items(&mut s, Section::Sim, &field_set.component_name);
    push_str(
        &mut s,
        "if state == & prev_state { rhdl :: core :: trace (\"outputs\" , & outputs) ; return outputs ; } } panic ! (\"Simulation did not converge\") ; }",
    );
    s
}

fn push_spaced(s: &mut String, t: &String)
    ensures
        final(s)@ == old(s)@ + spaced(t@),
{
    proof {
        reveal_strlit(" ");
    }
    if !t.as_str().is_empty() {
        push_str(s, " ");
        push_str(s, t.as_str());
    }
}

/// The `Synchronous` implementation of the struct `decl`, which must have
/// named fields.
pub fn derive_synchronous_struct(decl: &DeriveInput) -> (r: Result<String, DeriveError>)
    ensures
        match decl.data {
            Data::Struct(Fields::Named(fields)) => r matches Ok(text) && text@ == synchronous_impl_text(
                decl.ident@,
                decl.generics,
                field_names(fields@),
                field_types(fields@),
            ),
            _ => r == Err::<String, DeriveError>(DeriveError::NotAStructWithNamedFields),
        },
{
    let fields = match &decl.data {
        Data::Struct(Fields::Named(fields)) => fields,
        _ => {
            return Err(DeriveError::NotAStructWithNamedFields);
        },
    };
    let field_set = FieldSet::from_fields(fields);
    let init_fn = define_init_fn(&field_set);
    let descriptor_fn = define_descriptor_fn(&field_set);
    let hdl_fn = define_hdl_fn(&field_set);
    let sim_fn = define_sim_fn(&field_set);
    let mut s = String::from_str("impl");
    push_spaced(&mut s, &decl.generics.impl_generics);
    push_str(&mut s, " rhdl :: core :: Synchronous for ");
    push_str(&mut s, decl.ident.as_str());
    push_spaced(&mut s, &decl.generics.ty_generics);
    push_spaced(&mut s, &decl.generics.where_clause);
    push_str(&mut s, " { type S = ");
    push_str(&mut s, "(Self :: Q ,");
    push_state_types(&mut s, &field_set.component_ty);
    push_str(&mut s, ")");
    push_str(&mut s, " ; ");
    push_str(&mut s, init_fn.as_str());
    push_str(&mut s, " ");
    push_str(&mut s, descriptor_fn.as_str());
    push_str(&mut s, " ");
    push_str(&mut s, hdl_fn.as_str());
    push_str(&mut s, " ");
    push_str(&mut s, sim_fn.as_str());
    push_str(&mut s, " }");
    proof {
        reveal_strlit(" ");
        assert(field_set.component_name@ == field_names(fields@));
        assert(field_set.component_ty@ == field_types(fields@));
    }
    Ok(s)
}

} // verus!

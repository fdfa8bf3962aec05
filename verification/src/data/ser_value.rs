//! A value as a serialiser sees it, and its mathematical model.

use vstd::prelude::*;

verus! {

/// One node of the serde data model, with its children. Floats are held by their
/// IEEE bit patterns.
pub enum SerValue {
    Bool(bool),
    I8(i8),
    I16(i16),
    I32(i32),
    I64(i64),
    U8(u8),
    U16(u16),
    U32(u32),
    U64(u64),
    F32(u32),
    F64(u64),
    Char(char),
    Str(String),
    Bytes(Vec<u8>),
    /// serde's `none`.
    Nothing,
    /// serde's `some`.
    Something(Box<SerValue>),
    Unit,
    UnitStruct,
    /// A unit variant, by its name.
    UnitVariant(String),
    NewtypeStruct(Box<SerValue>),
    NewtypeVariant(String, Box<SerValue>),
    /// A sequence or tuple, with the length announced before its elements.
    List(Option<usize>, Vec<SerValue>),
    TupleStruct(Vec<SerValue>),
    TupleVariant(String, Vec<SerValue>),
    /// A map, entry by entry.
    Dict(Vec<MapEntry>),
    Struct(Vec<Field>),
    StructVariant(String, Vec<Field>),
}

/// One entry of a map.
pub struct MapEntry {
    pub key: SerValue,
    pub value: SerValue,
}

/// One field of a struct.
pub struct Field {
    pub name: String,
    pub value: SerValue,
}

/// The model of a `SerValue`: strings as character sequences, children as sequences.
pub enum ValueModel {
    Bool(bool),
    I8(i8),
    I16(i16),
    I32(i32),
    I64(i64),
    U8(u8),
    U16(u16),
    U32(u32),
    U64(u64),
    F32(u32),
    F64(u64),
    Char(char),
    Str(Seq<char>),
    Bytes(Seq<u8>),
    Nothing,
    Something(Box<ValueModel>),
    Unit,
    UnitStruct,
    UnitVariant(Seq<char>),
    NewtypeStruct(Box<ValueModel>),
    NewtypeVariant(Seq<char>, Box<ValueModel>),
    List(Option<usize>, Seq<ValueModel>),
    TupleStruct(Seq<ValueModel>),
    TupleVariant(Seq<char>, Seq<ValueModel>),
    Dict(Seq<(ValueModel, ValueModel)>),
    Struct(Seq<(Seq<char>, ValueModel)>),
    StructVariant(Seq<char>, Seq<(Seq<char>, ValueModel)>),
}

pub open spec fn value_model(v: SerValue) -> ValueModel
    decreases v,
{
    match v {
        SerValue::Bool(b) => ValueModel::Bool(b),
        SerValue::I8(x) => ValueModel::I8(x),
        SerValue::I16(x) => ValueModel::I16(x),
        SerValue::I32(x) => ValueModel::I32(x),
        SerValue::I64(x) => ValueModel::I64(x),
        SerValue::U8(x) => ValueModel::U8(x),
        SerValue::U16(x) => ValueModel::U16(x),
        SerValue::U32(x) => ValueModel::U32(x),
        SerValue::U64(x) => ValueModel::U64(x),
        SerValue::F32(x) => ValueModel::F32(x),
        SerValue::F64(x) => ValueModel::F64(x),
        SerValue::Char(c) => ValueModel::Char(c),
        SerValue::Str(s) => ValueModel::Str(s@),
        SerValue::Bytes(b) => ValueModel::Bytes(b@),
        SerValue::Nothing => ValueModel::Nothing,
        SerValue::Something(b) => ValueModel::Something(Box::new(value_model(*b))),
        SerValue::Unit => ValueModel::Unit,
        SerValue::UnitStruct => ValueModel::UnitStruct,
        SerValue::UnitVariant(n) => ValueModel::UnitVariant(n@),
        SerValue::NewtypeStruct(b) => ValueModel::NewtypeStruct(Box::new(value_model(*b))),
        SerValue::NewtypeVariant(n, b) => ValueModel::NewtypeVariant(
            n@,
            Box::new(value_model(*b)),
        ),
        SerValue::List(len, items) => ValueModel::List(len, values_model(items@)),
        SerValue::TupleStruct(items) => ValueModel::TupleStruct(values_model(items@)),
        SerValue::TupleVariant(n, items) => ValueModel::TupleVariant(n@, values_model(items@)),
        SerValue::Dict(entries) => ValueModel::Dict(entries_model(entries@)),
        SerValue::Struct(fields) => ValueModel::Struct(fields_model(fields@)),
        SerValue::StructVariant(n, fields) => ValueModel::StructVariant(
            n@,
            fields_model(fields@),
        ),
    }
}

pub open spec fn values_model(s: Seq<SerValue>) -> Seq<ValueModel>
    decreases s,
{
    if s.len() == 0 {
        Seq::empty()
    } else {
        seq![value_model(s[0])] + values_model(s.drop_first())
    }
}

pub open spec fn entries_model(s: Seq<MapEntry>) -> Seq<(ValueModel, ValueModel)>
    decreases s,
{
    if s.len() == 0 {
        Seq::empty()
    } else {
        seq![(value_model(s[0].key), value_model(s[0].value))] + entries_model(s.drop_first())
    }
}

pub open spec fn fields_model(s: Seq<Field>) -> Seq<(Seq<char>, ValueModel)>
    decreases s,
{
    if s.len() == 0 {
        Seq::empty()
    } else {
        seq![(s[0].name@, value_model(s[0].value))] + fields_model(s.drop_first())
    }
}

impl View for SerValue {
    type V = ValueModel;

    open spec fn view(&self) -> ValueModel {
        value_model(*self)
    }
}

/// The model of a sequence of values is taken element by element.
pub proof fn lemma_values_model(s: Seq<SerValue>)
    ensures
        values_model(s).len() == s.len(),
        forall|i: int| 0 <= i < s.len() ==> #[trigger] values_model(s)[i] == value_model(s[i]),
        forall|k: int| 0 <= k <= s.len() ==> #[trigger] values_model(s.skip(k)) == values_model(s).skip(k),
    decreases s.len(),
{
    if s.len() > 0 {
        lemma_values_model(s.drop_first());
        assert forall|k: int| 0 <= k <= s.len() implies #[trigger] values_model(s.skip(k)) == values_model(s).skip(k) by {
            if k == 0 {
                assert(s.skip(0) =~= s);
                assert(values_model(s).skip(0) =~= values_model(s));
            } else {
                assert(s.skip(k) =~= s.drop_first().skip(k - 1));
                assert(values_model(s).skip(k) =~= values_model(s.drop_first()).skip(k - 1));
            }
        }
    } else {
        assert forall|k: int| 0 <= k <= s.len() implies #[trigger] values_model(s.skip(k)) == values_model(s).skip(k) by {
            assert(s.skip(k) =~= s);
            assert(values_model(s).skip(k) =~= values_model(s));
        }
    }
}

/// The model of a sequence of map entries is taken entry by entry.
pub proof fn lemma_entries_model(s: Seq<MapEntry>)
    ensures
        entries_model(s).len() == s.len(),
        forall|i: int| 0 <= i < s.len() ==> #[trigger] entries_model(s)[i] == (value_model(s[i].key), value_model(s[i].value)),
        forall|k: int| 0 <= k <= s.len() ==> #[trigger] entries_model(s.skip(k)) == entries_model(s).skip(k),
    decreases s.len(),
{
    if s.len() > 0 {
        lemma_entries_model(s.drop_first());
        assert forall|k: int| 0 <= k <= s.len() implies #[trigger] entries_model(s.skip(k)) == entries_model(s).skip(k) by {
            if k == 0 {
                assert(s.skip(0) =~= s);
                assert(entries_model(s).skip(0) =~= entries_model(s));
            } else {
                assert(s.skip(k) =~= s.drop_first().skip(k - 1));
                assert(entries_model(s).skip(k) =~= entries_model(s.drop_first()).skip(k - 1));
            }
        }
    } else {
        assert forall|k: int| 0 <= k <= s.len() implies #[trigger] entries_model(s.skip(k)) == entries_model(s).skip(k) by {
            assert(s.skip(k) =~= s);
            assert(entries_model(s).skip(k) =~= entries_model(s));
        }
    }
}

/// The model of a sequence of struct fields is taken field by field.
pub proof fn lemma_fields_model(s: Seq<Field>)
    ensures
        fields_model(s).len() == s.len(),
        forall|i: int| 0 <= i < s.len() ==> #[trigger] fields_model(s)[i] == (s[i].name@, value_model(s[i].value)),
        forall|k: int| 0 <= k <= s.len() ==> #[trigger] fields_model(s.skip(k)) == fields_model(s).skip(k),
    decreases s.len(),
{
    if s.len() > 0 {
        lemma_fields_model(s.drop_first());
        assert forall|k: int| 0 <= k <= s.len() implies #[trigger] fields_model(s.skip(k)) == fields_model(s).skip(k) by {
            if k == 0 {
                assert(s.skip(0) =~= s);
                assert(fields_model(s).skip(0) =~= fields_model(s));
            } else {
                assert(s.skip(k) =~= s.drop_first().skip(k - 1));
                assert(fields_model(s).skip(k) =~= fields_model(s.drop_first()).skip(k - 1));
            }
        }
    } else {
        assert forall|k: int| 0 <= k <= s.len() implies #[trigger] fields_model(s.skip(k)) == fields_model(s).skip(k) by {
            assert(s.skip(k) =~= s);
            assert(fields_model(s).skip(k) =~= fields_model(s));
        }
    }
}

/// Appends a struct field, keeping the fields' model in step.
pub fn push_field(fields: &mut Vec<Field>, name: &str, value: SerValue)
    ensures
        fields_model(final(fields)@) == fields_model(old(fields)@).push((name@, value@)),
{
    let ghost before = fields@;
    let ghost v = value@;
    fields.push(Field { name: name.to_owned(), value });
    proof {
        lemma_fields_model(before);
        lemma_fields_model(fields@);
        assert(fields_model(fields@) =~= fields_model(before).push((name@, v)));
    }
}

/// Appends a field where there is a value, as serde does for a field skipped when
/// `None`: the value wrapped in `some`.
pub open spec fn opt_field(
    fields: Seq<(Seq<char>, ValueModel)>,
    name: Seq<char>,
    v: Option<ValueModel>,
) -> Seq<(Seq<char>, ValueModel)> {
    match v {
        Option::Some(x) => fields.push((name, ValueModel::Something(Box::new(x)))),
        Option::None => fields,
    }
}

/// A struct made of the given fields.
pub fn struct_value(fields: Vec<Field>) -> (r: SerValue)
    ensures
        r@ == ValueModel::Struct(fields_model(fields@)),
{
    SerValue::Struct(fields)
}

/// An empty list of fields.
pub fn no_fields() -> (r: Vec<Field>)
    ensures
        fields_model(r@) == Seq::<(Seq<char>, ValueModel)>::empty(),
{
    Vec::new()
}

} // verus!

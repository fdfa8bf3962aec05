//! The network form of NBT, written from a serialised value.
//!
//! The root value is written as its tag byte followed by its payload, with no name.
//! Map and struct entries are written as tag, name and payload and closed by an end
//! tag. A list announces the tag of its first element and its announced length, and
//! then holds the payloads of its elements.

use vstd::prelude::*;
use crate::data::ser_value::{
    SerValue, MapEntry, Field, ValueModel, lemma_values_model, lemma_entries_model,
    lemma_fields_model,
};
use crate::data::strings::char_to_string;
use crate::data::codec::{be16, be32, be64, push_be16, push_be32, push_be64};

verus! {

pub const TAG_END: u8 = 0;
pub const TAG_BYTE: u8 = 1;
pub const TAG_SHORT: u8 = 2;
pub const TAG_INT: u8 = 3;
pub const TAG_LONG: u8 = 4;
pub const TAG_FLOAT: u8 = 5;
pub const TAG_DOUBLE: u8 = 6;
pub const TAG_STRING: u8 = 8;
pub const TAG_LIST: u8 = 9;
pub const TAG_COMPOUND: u8 = 10;

/// Three bytes encoding a UTF-16 surrogate `u` (from `0xD800` to `0xDFFF`) the way
/// UTF-8 encodes a character of that value.
pub open spec fn java_surrogate(u: int) -> Seq<u8> {
    seq![(0xE0 + u / 0x1000) as u8, (0x80 + u / 0x40 % 0x40) as u8, (0x80 + u % 0x40) as u8]
}

/// One character in Java's modified UTF-8: NUL as the two bytes `C0 80`, a character
/// up to U+FFFF as its UTF-8 bytes, and a character above U+FFFF as its UTF-16
/// surrogate pair, each surrogate in three bytes.
pub open spec fn java_char(c: char) -> Seq<u8> {
    if c == '\0' {
        seq![0xC0u8, 0x80u8]
    } else if (c as u32) < 0x10000 {
        vstd::utf8::encode_scalar(c as u32)
    } else {
        java_surrogate(0xD800 + (c as u32 - 0x10000) / 0x400) + java_surrogate(
            0xDC00 + (c as u32 - 0x10000) % 0x400,
        )
    }
}

/// Java's modified UTF-8 form of a string: its characters' forms one after another.
pub open spec fn java_cesu8(s: Seq<char>) -> Seq<u8>
    decreases s.len(),
{
    if s.len() == 0 {
        Seq::empty()
    } else {
        java_char(s[0]) + java_cesu8(s.drop_first())
    }
}

/// Calls `cesu8::to_java_cesu8`, which the crate documents and implements as Java's
/// modified UTF-8: a string without NUL and without characters above U+FFFF comes back
/// as its own bytes; otherwise NUL becomes `C0 80`, each character above U+FFFF
/// becomes its surrogate pair with each surrogate encoded in three bytes, and every
/// other character keeps its UTF-8 bytes.
#[verifier::external_body]
fn to_java_cesu8(s: &str) -> (r: Vec<u8>)
    ensures
        r@ == java_cesu8(s@),
{
    cesu8::to_java_cesu8(s).into_owned()
}

/// A string with no NUL and no character above U+FFFF has its UTF-8 bytes as its
/// modified UTF-8 form.
pub proof fn lemma_java_cesu8_plain(s: Seq<char>)
    requires
        forall|i: int| 0 <= i < s.len() ==> #[trigger] s[i] != '\0' && (s[i] as u32) < 0x10000,
    ensures
        java_cesu8(s) == vstd::utf8::encode_utf8(s),
    decreases s.len(),
{
    if s.len() > 0 {
        assert forall|i: int| 0 <= i < s.drop_first().len() implies #[trigger] s.drop_first()[i]
            != '\0' && (s.drop_first()[i] as u32) < 0x10000 by {
            assert(s.drop_first()[i] == s[i + 1]);
        }
        lemma_java_cesu8_plain(s.drop_first());
        assert(s[0] != '\0');
    }
}

/// A string as NBT holds it: its modified UTF-8 length as a big-endian `u16`, then
/// the bytes.
pub open spec fn java_string(s: Seq<char>) -> Seq<u8> {
    be16(java_cesu8(s).len() as int) + java_cesu8(s)
}

/// Whether the modified UTF-8 form of `s` fits a `u16` length.
pub open spec fn java_string_fits(s: Seq<char>) -> bool {
    java_cesu8(s).len() <= 0xFFFF
}

/// What is written in front of a payload.
pub enum TagWrite<'l> {
    /// Nothing: the payload of a list element after the first.
    NoTag,
    /// The tag alone: the root value.
    Tag,
    /// The tag and a big-endian length: the first element of a list.
    TagAndU32(u32),
    /// The tag and a name: an entry of a compound.
    TagAndString(&'l str),
}

pub open spec fn tag_write_fits(tw: TagWrite) -> bool {
    match tw {
        TagWrite::TagAndString(s) => java_string_fits(s@),
        _ => true,
    }
}

pub open spec fn tag_prefix(tw: TagWrite, tag: u8) -> Seq<u8> {
    match tw {
        TagWrite::NoTag => Seq::empty(),
        TagWrite::Tag => seq![tag],
        TagWrite::TagAndU32(n) => seq![tag] + be32(n as int),
        TagWrite::TagAndString(s) => seq![tag] + java_string(s@),
    }
}

/// The NBT tag that a value is written with.
pub open spec fn tag_of(v: ValueModel) -> u8 {
    match v {
        ValueModel::Bool(_) | ValueModel::I8(_) | ValueModel::U8(_) => TAG_BYTE,
        ValueModel::I16(_) | ValueModel::U16(_) => TAG_SHORT,
        ValueModel::I32(_) | ValueModel::U32(_) => TAG_INT,
        ValueModel::I64(_) | ValueModel::U64(_) => TAG_LONG,
        ValueModel::F32(_) => TAG_FLOAT,
        ValueModel::F64(_) => TAG_DOUBLE,
        ValueModel::Char(_) | ValueModel::Str(_) | ValueModel::UnitVariant(_) => TAG_STRING,
        ValueModel::List(_, _) => TAG_LIST,
        ValueModel::Dict(_) | ValueModel::Struct(_) => TAG_COMPOUND,
        _ => TAG_END,
    }
}

/// Whether the serialiser writes the value rather than panicking on it: every string
/// fits its `u16` length, every list announces a length that fits a `u32`, every map
/// key is a string, and nothing is an option, unit, byte array, newtype or a tuple
/// struct or enum variant with data.
pub open spec fn nbt_supported(v: ValueModel) -> bool
    decreases v,
{
    match v {
        ValueModel::Bool(_) | ValueModel::I8(_) | ValueModel::U8(_) | ValueModel::I16(_)
        | ValueModel::U16(_) | ValueModel::I32(_) | ValueModel::U32(_) | ValueModel::I64(_)
        | ValueModel::U64(_) | ValueModel::F32(_) | ValueModel::F64(_) => true,
        ValueModel::Char(c) => java_string_fits(seq![c]),
        ValueModel::Str(s) => java_string_fits(s),
        ValueModel::UnitVariant(name) => java_string_fits(name),
        ValueModel::List(len, items) => match len {
            Option::Some(n) => n <= u32::MAX && items_supported(items),
            Option::None => false,
        },
        ValueModel::Dict(entries) => entries_supported(entries),
        ValueModel::Struct(fields) => fields_supported(fields),
        _ => false,
    }
}

pub open spec fn items_supported(s: Seq<ValueModel>) -> bool
    decreases s,
{
    s.len() == 0 || (nbt_supported(s[0]) && items_supported(s.drop_first()))
}

pub open spec fn entries_supported(s: Seq<(ValueModel, ValueModel)>) -> bool
    decreases s,
{
    s.len() == 0 || (match s[0].0 {
        ValueModel::Str(k) => java_string_fits(k) && nbt_supported(s[0].1),
        _ => false,
    } && entries_supported(s.drop_first()))
}

pub open spec fn fields_supported(s: Seq<(Seq<char>, ValueModel)>) -> bool
    decreases s,
{
    s.len() == 0 || (java_string_fits(s[0].0) && nbt_supported(s[0].1) && fields_supported(
        s.drop_first(),
    ))
}

/// The payload of a value: what follows its tag.
pub open spec fn nbt_payload(v: ValueModel) -> Seq<u8>
    decreases v,
{
    match v {
        ValueModel::Bool(b) => seq![if b { 1u8 } else { 0u8 }],
        ValueModel::I8(x) => seq![x as u8],
        ValueModel::U8(x) => seq![x],
        ValueModel::I16(x) => be16((x as u16) as int),
        ValueModel::U16(x) => be16(x as int),
        ValueModel::I32(x) => be32((x as u32) as int),
        ValueModel::U32(x) => be32(x as int),
        ValueModel::I64(x) => be64((x as u64) as int),
        ValueModel::U64(x) => be64(x as int),
        ValueModel::F32(bits) => be32(bits as int),
        ValueModel::F64(bits) => be64(bits as int),
        ValueModel::Char(c) => java_string(seq![c]),
        ValueModel::Str(s) => java_string(s),
        ValueModel::UnitVariant(name) => java_string(name),
        ValueModel::List(len, items) => if items.len() == 0 {
            seq![TAG_END] + be32(0)
        } else {
            seq![tag_of(items[0])] + be32(len.unwrap() as int) + items_payload(items)
        },
        ValueModel::Dict(entries) => entries_payload(entries) + seq![TAG_END],
        ValueModel::Struct(fields) => fields_payload(fields) + seq![TAG_END],
        _ => Seq::empty(),
    }
}

/// The payloads of list elements, one after the other.
pub open spec fn items_payload(s: Seq<ValueModel>) -> Seq<u8>
    decreases s,
{
    if s.len() == 0 {
        Seq::empty()
    } else {
        nbt_payload(s[0]) + items_payload(s.drop_first())
    }
}

/// The name a map key is written under.
pub open spec fn key_name(k: ValueModel) -> Seq<char> {
    match k {
        ValueModel::Str(k) => k,
        _ => Seq::empty(),
    }
}

/// Compound entries: tag, name and payload of each.
pub open spec fn entries_payload(s: Seq<(ValueModel, ValueModel)>) -> Seq<u8>
    decreases s,
{
    if s.len() == 0 {
        Seq::empty()
    } else {
        seq![tag_of(s[0].1)] + java_string(key_name(s[0].0)) + nbt_payload(s[0].1)
            + entries_payload(s.drop_first())
    }
}

pub open spec fn fields_payload(s: Seq<(Seq<char>, ValueModel)>) -> Seq<u8>
    decreases s,
{
    if s.len() == 0 {
        Seq::empty()
    } else {
        seq![tag_of(s[0].1)] + java_string(s[0].0) + nbt_payload(s[0].1) + fields_payload(
            s.drop_first(),
        )
    }
}

/// A value written after what `tw` asks for.
pub open spec fn nbt_bytes(v: ValueModel, tw: TagWrite) -> Seq<u8> {
    tag_prefix(tw, tag_of(v)) + nbt_payload(v)
}

/// Writes `s` as an NBT string.
fn write_java_string(out: &mut Vec<u8>, s: &str)
    requires
        java_string_fits(s@),
    ensures
        final(out)@ == old(out)@ + java_string(s@),
{
    let mut bytes = to_java_cesu8(s);
    let len = bytes.len();
    push_be16(out, len as u16);
    out.append(&mut bytes);
}

/// Whether the modified UTF-8 form of `s` fits a `u16` length.
fn java_string_fits_exec(s: &str) -> (b: bool)
    ensures
        b == java_string_fits(s@),
{
    let bytes = to_java_cesu8(s);
    bytes.len() <= 0xFFFF
}

fn write_tag(out: &mut Vec<u8>, tw: &TagWrite, tag: u8)
    requires
        tag_write_fits(*tw),
    ensures
        final(out)@ == old(out)@ + tag_prefix(*tw, tag),
{
    match tw {
        TagWrite::NoTag => {
            assert(old(out)@ + Seq::<u8>::empty() =~= old(out)@);
        },
        TagWrite::Tag => {
            out.push(tag);
        },
        TagWrite::TagAndU32(n) => {
            out.push(tag);
            push_be32(out, *n);
            assert(final(out)@ =~= old(out)@ + (seq![tag] + be32(*n as int)));
        },
        TagWrite::TagAndString(s) => {
            out.push(tag);
            write_java_string(out, s);
            assert(final(out)@ =~= old(out)@ + (seq![tag] + java_string(s@)));
        },
    }
}

fn tag_of_exec(v: &SerValue) -> (t: u8)
    ensures
        t == tag_of(v@),
{
    match v {
        SerValue::Bool(_) | SerValue::I8(_) | SerValue::U8(_) => TAG_BYTE,
        SerValue::I16(_) | SerValue::U16(_) => TAG_SHORT,
        SerValue::I32(_) | SerValue::U32(_) => TAG_INT,
        SerValue::I64(_) | SerValue::U64(_) => TAG_LONG,
        SerValue::F32(_) => TAG_FLOAT,
        SerValue::F64(_) => TAG_DOUBLE,
        SerValue::Char(_) | SerValue::Str(_) | SerValue::UnitVariant(_) => TAG_STRING,
        SerValue::List(_, _) => TAG_LIST,
        SerValue::Dict(_) | SerValue::Struct(_) => TAG_COMPOUND,
        _ => TAG_END,
    }
}


/// Writes the payload of a supported value.
fn write_payload(out: &mut Vec<u8>, v: &SerValue)
    requires
        nbt_supported(v@),
    ensures
        final(out)@ == old(out)@ + nbt_payload(v@),
    decreases v, 1int,
{
    match v {
        SerValue::Bool(b) => {
            out.push(if *b { 1u8 } else { 0u8 });
        },
        SerValue::I8(x) => {
            out.push(#[verifier::truncate] (*x as u8));
        },
        SerValue::U8(x) => {
            out.push(*x);
        },
        SerValue::I16(x) => {
            push_be16(out, #[verifier::truncate] (*x as u16));
        },
        SerValue::U16(x) => {
            push_be16(out, *x);
        },
        SerValue::I32(x) => {
            push_be32(out, #[verifier::truncate] (*x as u32));
        },
        SerValue::U32(x) => {
            push_be32(out, *x);
        },
        SerValue::I64(x) => {
            push_be64(out, #[verifier::truncate] (*x as u64));
        },
        SerValue::U64(x) => {
            push_be64(out, *x);
        },
        SerValue::F32(bits) => {
            push_be32(out, *bits);
        },
        SerValue::F64(bits) => {
            push_be64(out, *bits);
        },
        SerValue::Char(c) => {
            let s = char_to_string(*c);
            write_java_string(out, s.as_str());
        },
        SerValue::Str(s) => {
            write_java_string(out, s.as_str());
        },
        SerValue::UnitVariant(name) => {
            write_java_string(out, name.as_str());
        },
        SerValue::List(_, _) => {
            write_list_payload(out, v);
        },
        SerValue::Dict(_) => {
            write_dict_payload(out, v);
        },
        SerValue::Struct(_) => {
            write_struct_payload(out, v);
        },
        _ => {
            assert(false);
        },
    }
}

#[verifier::loop_isolation(false)]
fn write_list_payload(out: &mut Vec<u8>, v: &SerValue)
    requires
        v is List,
        nbt_supported(v@),
    ensures
        final(out)@ == old(out)@ + nbt_payload(v@),
    decreases v, 0int,
{
    match v {
        SerValue::List(len, items) => {
            let ghost m = crate::data::ser_value::values_model(items@);
            proof {
                lemma_values_model(items@);
            }
            if items.len() == 0 {
                out.push(TAG_END);
                push_be32(out, 0);
                assert(final(out)@ =~= old(out)@ + (seq![TAG_END] + be32(0)));
            } else {
                let n = match len {
                    Option::Some(n) => *n,
                    Option::None => 0,
                };
                out.push(tag_of_exec(&items[0]));
                push_be32(out, n as u32);
                let ghost mid = out@;
                let mut i: usize = 0;
                assert(m.skip(0) =~= m);
                while i < items.len()
                    invariant
                        i <= items@.len(),
                        items_supported(m.skip(i as int)),
                        items_payload(m) =~= (out@.skip(mid.len() as int)) + items_payload(
                            m.skip(i as int),
                        ),
                        mid.len() <= out@.len(),
                        out@.take(mid.len() as int) == mid,
                    decreases items@.len() - i,
                {
                    let ghost rest = m.skip(i as int);
                    assert(rest.drop_first() =~= m.skip(i + 1));
                    assert(rest[0] == items@[i as int]@);
                    let ghost before = out@;
                    proof {
                        assert(decreases_to!(*v => (*v)->List_1));
                        assert(decreases_to!(*items => items@));
                        assert(decreases_to!(items@ => items@[i as int]));
                    }
                    write_payload(out, &items[i]);
                    i += 1;
                    assert(out@.skip(mid.len() as int) =~= before.skip(mid.len() as int)
                        + nbt_payload(rest[0]));
                    assert(out@.take(mid.len() as int) =~= mid);
                }
                assert(m.skip(i as int) =~= Seq::<ValueModel>::empty());
                assert(out@ =~= mid + items_payload(m));
                assert(final(out)@ =~= old(out)@ + (seq![tag_of(m[0])] + be32(n as int)
                    + items_payload(m)));
            }
        },
        _ => {},
    }
}

#[verifier::loop_isolation(false)]
fn write_dict_payload(out: &mut Vec<u8>, v: &SerValue)
    requires
        v is Dict,
        nbt_supported(v@),
    ensures
        final(out)@ == old(out)@ + nbt_payload(v@),
    decreases v, 0int,
{
    match v {
        SerValue::Dict(entries) => {
            let ghost m = crate::data::ser_value::entries_model(entries@);
            proof {
                lemma_entries_model(entries@);
            }
            let ghost mid = out@;
            let mut i: usize = 0;
            assert(m.skip(0) =~= m);
            while i < entries.len()
                invariant
                    i <= entries@.len(),
                    entries_supported(m.skip(i as int)),
                    entries_payload(m) =~= (out@.skip(mid.len() as int)) + entries_payload(
                        m.skip(i as int),
                    ),
                    mid.len() <= out@.len(),
                    out@.take(mid.len() as int) == mid,
                decreases entries@.len() - i,
            {
                let ghost rest = m.skip(i as int);
                assert(rest.drop_first() =~= m.skip(i + 1));
                assert(rest[0] == (entries@[i as int].key@, entries@[i as int].value@));
                let ghost before = out@;
                let entry = &entries[i];
                match &entry.key {
                    SerValue::Str(k) => {
                        proof {
                            assert(decreases_to!(*v => (*v)->Dict_0));
                            assert(decreases_to!(*entries => entries@));
                            assert(decreases_to!(entries@ => entries@[i as int]));
                            assert(decreases_to!(entries@[i as int] => entries@[i as int].value));
                        }
                        let tw = TagWrite::TagAndString(k.as_str());
                        write_tag(out, &tw, tag_of_exec(&entry.value));
                        write_payload(out, &entry.value);
                    },
                    _ => {
                        assert(false);
                    },
                }
                i += 1;
                assert(out@.skip(mid.len() as int) =~= before.skip(mid.len() as int) + (seq![
                    tag_of(rest[0].1),
                ] + java_string(key_name(rest[0].0)) + nbt_payload(rest[0].1)));
                assert(out@.take(mid.len() as int) =~= mid);
            }
            assert(m.skip(i as int) =~= Seq::<(ValueModel, ValueModel)>::empty());
            assert(out@ =~= mid + entries_payload(m));
            out.push(TAG_END);
            assert(final(out)@ =~= old(out)@ + (entries_payload(m) + seq![TAG_END]));
        },
        _ => {},
    }
}

#[verifier::loop_isolation(false)]
fn write_struct_payload(out: &mut Vec<u8>, v: &SerValue)
    requires
        v is Struct,
        nbt_supported(v@),
    ensures
        final(out)@ == old(out)@ + nbt_payload(v@),
    decreases v, 0int,
{
    match v {
        SerValue::Struct(fields) => {
            let ghost m = crate::data::ser_value::fields_model(fields@);
            proof {
                lemma_fields_model(fields@);
            }
            let ghost mid = out@;
            let mut i: usize = 0;
            assert(m.skip(0) =~= m);
            while i < fields.len()
                invariant
                    i <= fields@.len(),
                    fields_supported(m.skip(i as int)),
                    fields_payload(m) =~= (out@.skip(mid.len() as int)) + fields_payload(
                        m.skip(i as int),
                    ),
                    mid.len() <= out@.len(),
                    out@.take(mid.len() as int) == mid,
                decreases fields@.len() - i,
            {
                let ghost rest = m.skip(i as int);
                assert(rest.drop_first() =~= m.skip(i + 1));
                assert(rest[0] == (fields@[i as int].name@, fields@[i as int].value@));
                let ghost before = out@;
                proof {
                    assert(decreases_to!(*v => (*v)->Struct_0));
                    assert(decreases_to!(*fields => fields@));
                    assert(decreases_to!(fields@ => fields@[i as int]));
                    assert(decreases_to!(fields@[i as int] => fields@[i as int].value));
                }
                let field = &fields[i];
                let tw = TagWrite::TagAndString(field.name.as_str());
                write_tag(out, &tw, tag_of_exec(&field.value));
                write_payload(out, &field.value);
                i += 1;
                assert(out@.skip(mid.len() as int) =~= before.skip(mid.len() as int) + (seq![
                    tag_of(rest[0].1),
                ] + java_string(rest[0].0) + nbt_payload(rest[0].1)));
                assert(out@.take(mid.len() as int) =~= mid);
            }
            assert(m.skip(i as int) =~= Seq::<(Seq<char>, ValueModel)>::empty());
            assert(out@ =~= mid + fields_payload(m));
            out.push(TAG_END);
            assert(final(out)@ =~= old(out)@ + (fields_payload(m) + seq![TAG_END]));
        },
        _ => {},
    }
}

/// Writes what `tw` asks for, then the value.
fn write_payload_tagged(out: &mut Vec<u8>, v: &SerValue, tw: &TagWrite)
    requires
        nbt_supported(v@),
        tag_write_fits(*tw),
    ensures
        final(out)@ == old(out)@ + nbt_bytes(v@, *tw),
{
    write_tag(out, tw, tag_of_exec(v));
    write_payload(out, v);
    assert(final(out)@ =~= old(out)@ + nbt_bytes(v@, *tw));
}

/// Whether the serialiser writes `v` rather than panicking on it.
pub fn is_nbt_supported(v: &SerValue) -> (b: bool)
    ensures
        b == nbt_supported(v@),
    decreases v, 1int,
{
    match v {
        SerValue::Char(c) => {
            let s = char_to_string(*c);
            java_string_fits_exec(s.as_str())
        },
        SerValue::Str(s) => java_string_fits_exec(s.as_str()),
        SerValue::UnitVariant(name) => java_string_fits_exec(name.as_str()),
        SerValue::List(_, _) => list_supported(v),
        SerValue::Dict(_) => dict_supported(v),
        SerValue::Struct(_) => struct_supported(v),
        SerValue::Bool(_) | SerValue::I8(_) | SerValue::U8(_) | SerValue::I16(_)
        | SerValue::U16(_) | SerValue::I32(_) | SerValue::U32(_) | SerValue::I64(_)
        | SerValue::U64(_) | SerValue::F32(_) | SerValue::F64(_) => true,
        _ => false,
    }
}

#[verifier::loop_isolation(false)]
fn list_supported(v: &SerValue) -> (b: bool)
    requires
        v is List,
    ensures
        b == nbt_supported(v@),
    decreases v, 0int,
{
    match v {
        SerValue::List(len, items) => {
            match len {
                Option::Some(n) => {
                    if *n > 0xFFFF_FFFFusize {
                        return false;
                    }
                },
                Option::None => {
                    return false;
                },
            }
            let ghost m = crate::data::ser_value::values_model(items@);
            proof {
                lemma_values_model(items@);
            }
            let mut i: usize = 0;
            assert(m.skip(0) =~= m);
            while i < items.len()
                invariant
                    i <= items@.len(),
                    items_supported(m) == items_supported(m.skip(i as int)),
                decreases items@.len() - i,
            {
                let ghost rest = m.skip(i as int);
                assert(rest.drop_first() =~= m.skip(i + 1));
                assert(rest[0] == items@[i as int]@);
                proof {
                    assert(decreases_to!(*v => (*v)->List_1));
                    assert(decreases_to!(*items => items@));
                    assert(decreases_to!(items@ => items@[i as int]));
                }
                if !is_nbt_supported(&items[i]) {
                    return false;
                }
                i += 1;
            }
            assert(m.skip(i as int) =~= Seq::<ValueModel>::empty());
            true
        },
        _ => false,
    }
}

#[verifier::loop_isolation(false)]
fn dict_supported(v: &SerValue) -> (b: bool)
    requires
        v is Dict,
    ensures
        b == nbt_supported(v@),
    decreases v, 0int,
{
    match v {
        SerValue::Dict(entries) => {
            let ghost m = crate::data::ser_value::entries_model(entries@);
            proof {
                lemma_entries_model(entries@);
            }
            let mut i: usize = 0;
            assert(m.skip(0) =~= m);
            while i < entries.len()
                invariant
                    i <= entries@.len(),
                    entries_supported(m) == entries_supported(m.skip(i as int)),
                decreases entries@.len() - i,
            {
                let ghost rest = m.skip(i as int);
                assert(rest.drop_first() =~= m.skip(i + 1));
                assert(rest[0] == (entries@[i as int].key@, entries@[i as int].value@));
                proof {
                    assert(decreases_to!(*v => (*v)->Dict_0));
                    assert(decreases_to!(*entries => entries@));
                    assert(decreases_to!(entries@ => entries@[i as int]));
                    assert(decreases_to!(entries@[i as int] => entries@[i as int].value));
                }
                let entry = &entries[i];
                match &entry.key {
                    SerValue::Str(k) => {
                        if !java_string_fits_exec(k.as_str()) {
                            return false;
                        }
                    },
                    _ => {
                        return false;
                    },
                }
                if !is_nbt_supported(&entry.value) {
                    return false;
                }
                i += 1;
            }
            assert(m.skip(i as int) =~= Seq::<(ValueModel, ValueModel)>::empty());
            true
        },
        _ => false,
    }
}

#[verifier::loop_isolation(false)]
fn struct_supported(v: &SerValue) -> (b: bool)
    requires
        v is Struct,
    ensures
        b == nbt_supported(v@),
    decreases v, 0int,
{
    match v {
        SerValue::Struct(fields) => {
            let ghost m = crate::data::ser_value::fields_model(fields@);
            proof {
                lemma_fields_model(fields@);
            }
            let mut i: usize = 0;
            assert(m.skip(0) =~= m);
            while i < fields.len()
                invariant
                    i <= fields@.len(),
                    fields_supported(m) == fields_supported(m.skip(i as int)),
                decreases fields@.len() - i,
            {
                let ghost rest = m.skip(i as int);
                assert(rest.drop_first() =~= m.skip(i + 1));
                assert(rest[0] == (fields@[i as int].name@, fields@[i as int].value@));
                proof {
                    assert(decreases_to!(*v => (*v)->Struct_0));
                    assert(decreases_to!(*fields => fields@));
                    assert(decreases_to!(fields@ => fields@[i as int]));
                    assert(decreases_to!(fields@[i as int] => fields@[i as int].value));
                }
                let field = &fields[i];
                if !java_string_fits_exec(field.name.as_str()) {
                    return false;
                }
                if !is_nbt_supported(&field.value) {
                    return false;
                }
                i += 1;
            }
            assert(m.skip(i as int) =~= Seq::<(Seq<char>, ValueModel)>::empty());
            true
        },
        _ => false,
    }
}

/// Writes `value` as network NBT: its tag, then its payload, with no name. Where the
/// serialiser would panic on the value (see `nbt_supported`), writes nothing and
/// returns false.
pub fn to_network(out: &mut Vec<u8>, value: &SerValue) -> (ok: bool)
    ensures
        ok == nbt_supported(value@),
        ok ==> final(out)@ == old(out)@ + nbt_bytes(value@, TagWrite::Tag),
        !ok ==> final(out)@ == old(out)@,
{
    if !is_nbt_supported(value) {
        return false;
    }
    write_payload_tagged(out, value, &TagWrite::Tag);
    true
}


/// The tag in front of a value announces the size of its payload, as NBT readers take
/// it: a byte (tag 1) has one byte, a short (2) two, an int (3) and a float (5) four,
/// a long (4) and a double (6) eight. A float's bits are tagged 5 and a double's 6.
pub proof fn lemma_tag_announces_payload(v: ValueModel)
    ensures
        tag_of(v) == 1u8 ==> nbt_payload(v).len() == 1,
        tag_of(v) == 2u8 ==> nbt_payload(v).len() == 2,
        tag_of(v) == 3u8 ==> nbt_payload(v).len() == 4,
        tag_of(v) == 4u8 ==> nbt_payload(v).len() == 8,
        tag_of(v) == 5u8 ==> nbt_payload(v).len() == 4,
        tag_of(v) == 6u8 ==> nbt_payload(v).len() == 8,
        v is F32 <==> tag_of(v) == 5u8,
        v is F64 <==> tag_of(v) == 6u8,
{
}

/// A float written as the root of network NBT is the byte 5 followed by its four bits
/// big-endian; a double is the byte 6 followed by its eight bits big-endian.
pub proof fn lemma_float_bytes(f: u32, d: u64)
    ensures
        nbt_bytes(ValueModel::F32(f), TagWrite::Tag) == seq![5u8] + be32(f as int),
        nbt_bytes(ValueModel::F64(d), TagWrite::Tag) == seq![6u8] + be64(d as int),
        nbt_bytes(ValueModel::F32(f), TagWrite::Tag).len() == 5,
        nbt_bytes(ValueModel::F64(d), TagWrite::Tag).len() == 9,
{
}

} // verus!

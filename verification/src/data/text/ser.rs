//! How text serialises: a list of components, each a map wrapping its content and
//! style in a single `extra` entry.

use vstd::prelude::*;
use crate::data::action::{Action, action_model};
use crate::data::colour::{Rgb, Argb, rgb_packed, argb_packed};
use crate::data::ser_value::{
    SerValue, MapEntry, ValueModel, values_model, entries_model, lemma_values_model,
    lemma_entries_model,
};
use crate::data::strings::char_to_string;
use super::{
    Text, TextComponent, TextContent, TextStyle, ComponentModel, ContentModel, StyleModel,
    text_model, texts_model, component_model, components_model, content_model, style_model,
    lemma_components_model, lemma_texts_model,
};

verus! {

/// The lower-case hexadecimal digit of `d`, for `d < 16`.
pub open spec fn hex_digit(d: int) -> char {
    if d < 10 {
        (d + 48) as char
    } else {
        (d + 87) as char
    }
}

/// `#rrggbb`: the colour in six lower-case hexadecimal digits.
pub open spec fn hex_colour(c: Rgb) -> Seq<char> {
    let v = rgb_packed(c);
    seq![
        '#',
        hex_digit(v / 0x100000 % 16),
        hex_digit(v / 0x10000 % 16),
        hex_digit(v / 0x1000 % 16),
        hex_digit(v / 0x100 % 16),
        hex_digit(v / 0x10 % 16),
        hex_digit(v % 16),
    ]
}

pub open spec fn str_value(s: Seq<char>) -> ValueModel {
    ValueModel::Str(s)
}

/// A one-entry map fragment.
pub open spec fn entry(key: Seq<char>, value: ValueModel) -> Seq<(ValueModel, ValueModel)> {
    seq![(str_value(key), value)]
}

/// A text: the list of its components.
pub open spec fn text_value(t: Seq<ComponentModel>) -> ValueModel
    decreases t, 2int,
{
    ValueModel::List(Option::Some(#[verifier::truncate] (t.len() as usize)), components_value(t))
}

pub open spec fn components_value(s: Seq<ComponentModel>) -> Seq<ValueModel>
    decreases s, 1int,
{
    if s.len() == 0 {
        Seq::empty()
    } else {
        seq![component_value(s[0])] + components_value(s.drop_first())
    }
}

pub open spec fn texts_value(s: Seq<Seq<ComponentModel>>) -> Seq<ValueModel>
    decreases s, 1int,
{
    if s.len() == 0 {
        Seq::empty()
    } else {
        seq![text_value(s[0])] + texts_value(s.drop_first())
    }
}

/// A component: a plain empty text whose `extra` list holds the component itself.
pub open spec fn component_value(c: ComponentModel) -> ValueModel
    decreases c, 3int,
{
    ValueModel::Dict(
        entry("type"@, str_value("text"@)) + entry("text"@, str_value(Seq::empty())) + entry(
            "extra"@,
            ValueModel::List(Option::Some(1), seq![extra_value(c)]),
        ),
    )
}

/// The component inside `extra`: its content, then its style.
pub open spec fn extra_value(c: ComponentModel) -> ValueModel
    decreases c, 2int,
{
    ValueModel::Dict(content_entries(c.content) + style_entries(c.style))
}

pub open spec fn content_entries(c: ContentModel) -> Seq<(ValueModel, ValueModel)>
    decreases c, 0int,
{
    match c {
        ContentModel::Literal(text) => entry("type"@, str_value("text"@)) + entry(
            "text"@,
            str_value(text),
        ),
        ContentModel::Translate(key, fallback, with) => entry(
            "type"@,
            str_value("translatable"@),
        ) + entry("translate"@, str_value(key)) + match fallback {
            Option::Some(f) => entry("fallback"@, str_value(f)),
            Option::None => Seq::empty(),
        } + if with.len() == 0 {
            Seq::empty()
        } else {
            entry("with"@, ValueModel::List(Option::Some(with.len() as usize), texts_value(with)))
        },
        ContentModel::Keybind(id) => entry("type"@, str_value("keybind"@)) + entry(
            "keybind"@,
            str_value(id),
        ),
    }
}

pub open spec fn flag_entry(set: bool, key: Seq<char>) -> Seq<(ValueModel, ValueModel)> {
    if set {
        entry(key, ValueModel::Bool(true))
    } else {
        Seq::empty()
    }
}

pub open spec fn opt_str_entry(key: Seq<char>, v: Option<Seq<char>>) -> Seq<(ValueModel, ValueModel)> {
    match v {
        Option::Some(x) => entry(key, str_value(x)),
        Option::None => Seq::empty(),
    }
}

pub open spec fn shadow_entry(v: Option<Argb>) -> Seq<(ValueModel, ValueModel)> {
    match v {
        Option::Some(a) => entry("shadow_color"@, ValueModel::U32(argb_packed(a) as u32)),
        Option::None => Seq::empty(),
    }
}

pub open spec fn click_entry(v: Option<Action>) -> Seq<(ValueModel, ValueModel)> {
    match v {
        Option::Some(a) => entry("click_event"@, action_model(a)),
        Option::None => Seq::empty(),
    }
}

/// The tooltip, as a `show_text` hover event.
pub open spec fn hover_entry(v: Option<Seq<ComponentModel>>) -> Seq<(ValueModel, ValueModel)>
    decreases v, 0int,
{
    match v {
        Option::Some(t) => entry(
            "hover_event"@,
            ValueModel::Dict(
                entry("action"@, str_value("show_text"@)) + entry("value"@, text_value(t)),
            ),
        ),
        Option::None => Seq::empty(),
    }
}

/// The entries of a style: the colour always, the rest only where set.
pub open spec fn style_entries(s: StyleModel) -> Seq<(ValueModel, ValueModel)>
    decreases s, 0int,
{
    entry("color"@, str_value(hex_colour(s.colour))) + opt_str_entry("font"@, s.font)
        + flag_entry(s.bold, "bold"@) + flag_entry(s.italic, "italic"@) + flag_entry(
        s.underline,
        "underlined"@,
    ) + flag_entry(s.strike, "strikethrough"@) + flag_entry(s.obfuscate, "obfuscated"@)
        + shadow_entry(s.shadow) + opt_str_entry("insertion"@, s.insertion) + click_entry(
        s.on_click,
    ) + hover_entry(s.tooltip)
}

/// The value of a style on its own: a map of its entries.
pub open spec fn style_value(s: StyleModel) -> ValueModel {
    ValueModel::Dict(style_entries(s))
}

/// The hexadecimal digit of `d`.
fn hex_digit_exec(d: u32) -> (c: char)
    requires
        d < 16,
    ensures
        c == hex_digit(d as int),
{
    let b: u8 = if d < 10 {
        (d + 48) as u8
    } else {
        (d + 87) as u8
    };
    b as char
}

/// `#rrggbb` for the colour.
pub fn hex_colour_string(c: Rgb) -> (s: String)
    ensures
        s@ == hex_colour(c),
{
    let v = c.to_u32();
    let mut s = char_to_string('#');
    s.push(hex_digit_exec(v / 0x100000 % 16));
    s.push(hex_digit_exec(v / 0x10000 % 16));
    s.push(hex_digit_exec(v / 0x1000 % 16));
    s.push(hex_digit_exec(v / 0x100 % 16));
    s.push(hex_digit_exec(v / 0x10 % 16));
    s.push(hex_digit_exec(v % 16));
    assert(s@ =~= hex_colour(c));
    s
}

/// A map entry with a string key.
fn str_entry(key: &str, value: SerValue) -> (e: MapEntry)
    ensures
        e.key@ == str_value(key@),
        e.value == value,
{
    MapEntry { key: SerValue::Str(key.to_owned()), value }
}

/// Appends an entry, keeping the entries' model in step.
fn push_entry(entries: &mut Vec<MapEntry>, key: &str, value: SerValue)
    ensures
        entries_model(final(entries)@) == entries_model(old(entries)@) + entry(key@, value@),
{
    let ghost before = entries@;
    entries.push(str_entry(key, value));
    proof {
        lemma_entries_model(before);
        lemma_entries_model(entries@);
        assert(entries_model(entries@) =~= entries_model(before) + entry(key@, value@));
    }
}

/// A fresh list of entries holding one entry.
fn first_entry(key: &str, value: SerValue) -> (r: Vec<MapEntry>)
    ensures
        entries_model(r@) == entry(key@, value@),
{
    let mut entries: Vec<MapEntry> = Vec::new();
    let ghost v = value@;
    push_entry(&mut entries, key, value);
    assert(Seq::<(ValueModel, ValueModel)>::empty() + entry(key@, v) =~= entry(key@, v));
    entries
}

fn push_opt_str(entries: &mut Vec<MapEntry>, key: &str, v: &Option<String>)
    ensures
        entries_model(final(entries)@) == entries_model(old(entries)@) + opt_str_entry(
            key@,
            match *v {
                Option::Some(x) => Option::Some(x@),
                Option::None => Option::None,
            },
        ),
{
    match v {
        Some(x) => {
            push_entry(entries, key, SerValue::Str(x.clone()));
        },
        None => {
            assert(entries_model(entries@) + Seq::<(ValueModel, ValueModel)>::empty() =~= entries_model(entries@));
        },
    }
}

fn push_flag(entries: &mut Vec<MapEntry>, set: bool, key: &str)
    ensures
        entries_model(final(entries)@) == entries_model(old(entries)@) + flag_entry(set, key@),
{
    if set {
        push_entry(entries, key, SerValue::Bool(true));
    } else {
        assert(entries_model(entries@) + flag_entry(set, key@) =~= entries_model(entries@));
    }
}

fn push_shadow(entries: &mut Vec<MapEntry>, v: &Option<Argb>)
    ensures
        entries_model(final(entries)@) == entries_model(old(entries)@) + shadow_entry(*v),
{
    match v {
        Some(a) => {
            push_entry(entries, "shadow_color", SerValue::U32(a.to_u32()));
        },
        None => {
            assert(entries_model(entries@) + shadow_entry(*v) =~= entries_model(entries@));
        },
    }
}

fn push_click(entries: &mut Vec<MapEntry>, v: &Option<Action>)
    ensures
        entries_model(final(entries)@) == entries_model(old(entries)@) + click_entry(*v),
{
    match v {
        Some(a) => {
            push_entry(entries, "click_event", a.to_value());
        },
        None => {
            assert(entries_model(entries@) + click_entry(*v) =~= entries_model(entries@));
        },
    }
}

/// The value of a text.
pub fn text_to_value(t: &Text) -> (r: SerValue)
    ensures
        r@ == text_value(t@),
    decreases t, 2int,
{
    let items = components_to_values(&t.components);
    proof {
        lemma_components_model(t.components@);
        lemma_values_model(items@);
        lemma_components_value(t@);
        assert(t@ == components_model(t.components@));
        assert forall|j: int| 0 <= j < items@.len() implies values_model(items@)[j] == components_value(t@)[j] by {
            assert(items@[j]@ == component_value(component_model(t.components@[j])));
            assert(t@[j] == component_model(t.components@[j]));
        }
        assert(values_model(items@) =~= components_value(t@));
    }
    SerValue::List(Some(t.components.len()), items)
}

/// The values of components, one by one.
fn components_to_values(cs: &Vec<TextComponent>) -> (r: Vec<SerValue>)
    ensures
        r@.len() == cs@.len(),
        forall|j: int| 0 <= j < cs@.len() ==> #[trigger] r@[j]@ == component_value(component_model(cs@[j])),
    decreases cs, 2int,
{
    let mut items: Vec<SerValue> = Vec::new();
    let mut i: usize = 0;
    while i < cs.len()
        invariant
            i <= cs@.len(),
            items@.len() == i,
            forall|j: int| 0 <= j < i ==> #[trigger] items@[j]@ == component_value(component_model(cs@[j])),
        decreases cs@.len() - i,
    {
        proof {
            assert(decreases_to!(*cs => cs@));
            assert(decreases_to!(cs@ => cs@[i as int]));
        }
        let v = component_to_value(&cs[i]);
        items.push(v);
        i += 1;
    }
    items
}

/// The value of a component.
pub fn component_to_value(c: &TextComponent) -> (r: SerValue)
    ensures
        r@ == component_value(c@),
    decreases c, 3int,
{
    let extra = extra_to_value(c);
    let mut list: Vec<SerValue> = Vec::new();
    list.push(extra);
    proof {
        lemma_values_model(list@);
        assert(values_model(list@) =~= seq![extra_value(c@)]);
    }
    let mut entries = first_entry("type", SerValue::Str("text".to_owned()));
    push_entry(&mut entries, "text", SerValue::Str(String::new()));
    push_entry(&mut entries, "extra", SerValue::List(Some(1), list));
    SerValue::Dict(entries)
}

/// The map inside `extra`.
fn extra_to_value(c: &TextComponent) -> (r: SerValue)
    ensures
        r@ == extra_value(c@),
    decreases c, 2int,
{
    let mut entries = content_entries_vec(&c.content);
    let mut style = style_entries_vec(&c.style);
    let ghost a = entries@;
    let ghost b = style@;
    entries.append(&mut style);
    proof {
        lemma_entries_model_concat(a, b);
        assert(entries@ =~= a + b);
    }
    SerValue::Dict(entries)
}

fn content_entries_vec(c: &TextContent) -> (r: Vec<MapEntry>)
    ensures
        entries_model(r@) == content_entries(content_model(*c)),
    decreases c, 1int,
{
    match c {
        TextContent::Literal { text } => {
            let mut entries = first_entry("type", SerValue::Str("text".to_owned()));
            push_entry(&mut entries, "text", SerValue::Str(text.clone()));
            entries
        },
        TextContent::Keybind { id } => {
            let mut entries = first_entry("type", SerValue::Str("keybind".to_owned()));
            push_entry(&mut entries, "keybind", SerValue::Str(id.clone()));
            entries
        },
        TextContent::Translate { key, fallback, with } => {
            let mut entries = first_entry("type", SerValue::Str("translatable".to_owned()));
            push_entry(&mut entries, "translate", SerValue::Str(key.clone()));
            push_opt_str(&mut entries, "fallback", fallback);
            if with.len() != 0 {
                let items = texts_to_values(with);
                proof {
                    lemma_texts_model(with@);
                    lemma_values_model(items@);
                    lemma_texts_value(texts_model(with@));
                    assert forall|j: int| 0 <= j < items@.len() implies values_model(items@)[j] == texts_value(texts_model(with@))[j] by {
                        assert(items@[j]@ == text_value(text_model(with@[j])));
                    }
                    assert(values_model(items@) =~= texts_value(texts_model(with@)));
                }
                push_entry(&mut entries, "with", SerValue::List(Some(with.len()), items));
            } else {
                assert(entries_model(entries@) + Seq::<(ValueModel, ValueModel)>::empty() =~= entries_model(entries@));
            }
            entries
        },
    }
}

/// The values of texts, one by one.
fn texts_to_values(ts: &Vec<Text>) -> (r: Vec<SerValue>)
    ensures
        r@.len() == ts@.len(),
        forall|j: int| 0 <= j < ts@.len() ==> #[trigger] r@[j]@ == text_value(text_model(ts@[j])),
    decreases ts, 2int,
{
    let mut items: Vec<SerValue> = Vec::new();
    let mut i: usize = 0;
    while i < ts.len()
        invariant
            i <= ts@.len(),
            items@.len() == i,
            forall|j: int| 0 <= j < i ==> #[trigger] items@[j]@ == text_value(text_model(ts@[j])),
        decreases ts@.len() - i,
    {
        proof {
            assert(decreases_to!(*ts => ts@));
            assert(decreases_to!(ts@ => ts@[i as int]));
        }
        let v = text_to_value(&ts[i]);
        items.push(v);
        i += 1;
    }
    items
}

fn push_hover(entries: &mut Vec<MapEntry>, v: &Option<Text>)
    ensures
        entries_model(final(entries)@) == entries_model(old(entries)@) + hover_entry(
            match *v {
                Option::Some(t) => Option::Some(t@),
                Option::None => Option::None,
            },
        ),
    decreases v, 1int,
{
    match v {
        Some(t) => {
            let value = text_to_value(t);
            let mut hover = first_entry("action", SerValue::Str("show_text".to_owned()));
            push_entry(&mut hover, "value", value);
            push_entry(entries, "hover_event", SerValue::Dict(hover));
        },
        None => {
            assert(entries_model(entries@) + Seq::<(ValueModel, ValueModel)>::empty() =~= entries_model(entries@));
        },
    }
}

fn style_entries_vec(s: &TextStyle) -> (r: Vec<MapEntry>)
    ensures
        entries_model(r@) == style_entries(style_model(*s)),
    decreases s, 2int,
{
    let mut entries = first_entry("color", SerValue::Str(hex_colour_string(s.colour)));
    match &s.font {
        Some(f) => {
            push_entry(&mut entries, "font", f.to_value());
        },
        None => {
            assert(entries_model(entries@) + Seq::<(ValueModel, ValueModel)>::empty() =~= entries_model(entries@));
        },
    }
    push_flag(&mut entries, s.bold, "bold");
    push_flag(&mut entries, s.italic, "italic");
    push_flag(&mut entries, s.underline, "underlined");
    push_flag(&mut entries, s.strike, "strikethrough");
    push_flag(&mut entries, s.obfuscate, "obfuscated");
    push_shadow(&mut entries, &s.shadow);
    push_opt_str(&mut entries, "insertion", &s.insertion);
    push_click(&mut entries, &s.on_click);
    proof {
        assert(decreases_to!(*s => s.tooltip));
    }
    push_hover(&mut entries, &s.tooltip);
    entries
}

/// The value of a style on its own.
pub fn style_to_value(s: &TextStyle) -> (r: SerValue)
    ensures
        r@ == style_value(style_model(*s)),
{
    let entries = style_entries_vec(s);
    SerValue::Dict(entries)
}

/// The model of concatenated entries is the concatenation of their models.
pub proof fn lemma_entries_model_concat(a: Seq<MapEntry>, b: Seq<MapEntry>)
    ensures
        entries_model(a + b) == entries_model(a) + entries_model(b),
{
    lemma_entries_model(a);
    lemma_entries_model(b);
    lemma_entries_model(a + b);
    assert(entries_model(a + b) =~= entries_model(a) + entries_model(b));
}

/// The values of components are taken component by component.
pub proof fn lemma_components_value(s: Seq<ComponentModel>)
    ensures
        components_value(s).len() == s.len(),
        forall|i: int| 0 <= i < s.len() ==> #[trigger] components_value(s)[i] == component_value(s[i]),
    decreases s.len(),
{
    if s.len() > 0 {
        lemma_components_value(s.drop_first());
    }
}

/// The values of texts are taken text by text.
pub proof fn lemma_texts_value(s: Seq<Seq<ComponentModel>>)
    ensures
        texts_value(s).len() == s.len(),
        forall|i: int| 0 <= i < s.len() ==> #[trigger] texts_value(s)[i] == text_value(s[i]),
    decreases s.len(),
{
    if s.len() > 0 {
        lemma_texts_value(s.drop_first());
    }
}


/// The two lower-case hexadecimal digits of a byte, high digit first.
pub open spec fn hex_byte(b: u8) -> Seq<char> {
    seq![hex_digit(b as int / 16), hex_digit(b as int % 16)]
}

/// A digit below 10 is its decimal character; from 10 to 15 it is `a` to `f`.
pub proof fn lemma_hex_digit_chars(d: int)
    requires
        0 <= d < 16,
    ensures
        d < 10 ==> hex_digit(d) as int == '0' as int + d,
        d >= 10 ==> hex_digit(d) as int == 'a' as int + (d - 10),
{
}

/// A colour is written as `#`, then red, green and blue, each as two lower-case
/// hexadecimal digits, high digit first.
pub proof fn lemma_hex_colour_order(c: Rgb)
    ensures
        hex_colour(c) == seq!['#'] + hex_byte(c.r) + hex_byte(c.g) + hex_byte(c.b),
{
    let r = c.r as u32;
    let g = c.g as u32;
    let b = c.b as u32;
    assert(r < 256 && g < 256 && b < 256 ==> (r * 0x10000 + g * 0x100 + b) / 0x100000 % 16 == r / 16
        && (r * 0x10000 + g * 0x100 + b) / 0x10000 % 16 == r % 16 && (r * 0x10000 + g * 0x100 + b)
        / 0x1000 % 16 == g / 16 && (r * 0x10000 + g * 0x100 + b) / 0x100 % 16 == g % 16 && (r
        * 0x10000 + g * 0x100 + b) / 0x10 % 16 == b / 16 && (r * 0x10000 + g * 0x100 + b) % 16 == b
        % 16) by (bit_vector);
    assert(hex_colour(c) =~= seq!['#'] + hex_byte(c.r) + hex_byte(c.g) + hex_byte(c.b));
}

} // verus!

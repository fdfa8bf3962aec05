//! Chat types: how a chat message is decorated when shown and when narrated.

use vstd::prelude::*;
use super::{RegistryEntryType, write_entry_nbt};
use crate::data::ident::Ident;
use crate::data::ser_value::{
    SerValue, ValueModel, Field, push_field, no_fields, struct_value, fields_model, opt_field,
    values_model, lemma_values_model,
};
use crate::data::text::{TextStyle, style_model};
use crate::data::text::ser::{style_to_value, style_value};

verus! {

/// A chat type: the decoration of the message in chat and in narration.
pub struct ChatTypeRegistryEntry {
    pub chat: ChatTypeDecoration,
    pub narration: ChatTypeDecoration,
}

/// A decoration: a translation key, an optional style, and what fills the key's slots.
pub struct ChatTypeDecoration {
    pub translation_key: String,
    pub style: Option<TextStyle>,
    pub parameters: Vec<ChatTypeDecoParam>,
}

/// What fills one slot of a decoration.
#[derive(Clone, Copy, PartialEq, Eq, Structural, Debug)]
pub enum ChatTypeDecoParam {
    Sender,
    Target,
    Content,
}

/// The name a parameter serialises as.
pub open spec fn deco_param_name(p: ChatTypeDecoParam) -> Seq<char> {
    match p {
        ChatTypeDecoParam::Sender => "sender"@,
        ChatTypeDecoParam::Target => "target"@,
        ChatTypeDecoParam::Content => "content"@,
    }
}

pub open spec fn deco_params_value(s: Seq<ChatTypeDecoParam>) -> Seq<ValueModel> {
    s.map_values(|p: ChatTypeDecoParam| ValueModel::UnitVariant(deco_param_name(p)))
}

impl ChatTypeDecoParam {
    pub fn to_value(&self) -> (r: SerValue)
        ensures
            r@ == ValueModel::UnitVariant(deco_param_name(*self)),
    {
        match self {
            ChatTypeDecoParam::Sender => SerValue::UnitVariant("sender".to_owned()),
            ChatTypeDecoParam::Target => SerValue::UnitVariant("target".to_owned()),
            ChatTypeDecoParam::Content => SerValue::UnitVariant("content".to_owned()),
        }
    }
}

impl ChatTypeDecoration {
    /// How the decoration serialises: `translation_key`, `style` where there is one,
    /// then `parameters` as a list.
    pub open spec fn value(&self) -> ValueModel {
        ValueModel::Struct(
            opt_field(
                seq![("translation_key"@, ValueModel::Str(self.translation_key@))],
                "style"@,
                match self.style {
                    Option::Some(s) => Option::Some(style_value(style_model(s))),
                    Option::None => Option::None,
                },
            ).push(
                (
                    "parameters"@,
                    ValueModel::List(
                        Option::Some(self.parameters@.len() as usize),
                        deco_params_value(self.parameters@),
                    ),
                ),
            ),
        )
    }

    fn params_to_value(&self) -> (r: SerValue)
        ensures
            r@ == ValueModel::List(
                Option::Some(self.parameters@.len() as usize),
                deco_params_value(self.parameters@),
            ),
    {
        let mut items: Vec<SerValue> = Vec::new();
        let n = self.parameters.len();
        let mut i: usize = 0;
        while i < n
            invariant
                i <= n,
                n == self.parameters@.len(),
                items@.len() == i,
                forall|j: int| 0 <= j < i ==> #[trigger] items@[j]@ == ValueModel::UnitVariant(
                    deco_param_name(self.parameters@[j]),
                ),
            decreases n - i,
        {
            items.push(self.parameters[i].to_value());
            i += 1;
        }
        proof {
            lemma_values_model(items@);
            assert forall|j: int| 0 <= j < n implies #[trigger] values_model(items@)[j]
                == deco_params_value(self.parameters@)[j] by {
                assert(items@[j]@ == ValueModel::UnitVariant(deco_param_name(self.parameters@[j])));
            }
            assert(values_model(items@) =~= deco_params_value(self.parameters@));
        }
        SerValue::List(Some(n), items)
    }

    pub fn to_value(&self) -> (r: SerValue)
        ensures
            r@ == self.value(),
    {
        let key = SerValue::Str(self.translation_key.clone());
        let params = self.params_to_value();
        let ghost k = key@;
        let ghost p = params@;
        let mut fields = no_fields();
        push_field(&mut fields, "translation_key", key);
        assert(fields_model(fields@) == seq![("translation_key"@, k)]);
        match &self.style {
            Some(s) => {
                let sv = SerValue::Something(Box::new(style_to_value(s)));
                push_field(&mut fields, "style", sv);
            },
            None => {},
        }
        let ghost before = fields_model(fields@);
        push_field(&mut fields, "parameters", params);
        assert(fields_model(fields@) == before.push(("parameters"@, p)));
        struct_value(fields)
    }
}

impl ChatTypeRegistryEntry {
    /// How the entry serialises: `chat`, then `narration`.
    pub open spec fn value(&self) -> ValueModel {
        ValueModel::Struct(seq![("chat"@, self.chat.value()), ("narration"@, self.narration.value())])
    }

    pub fn to_value(&self) -> (r: SerValue)
        ensures
            r@ == self.value(),
    {
        let chat = self.chat.to_value();
        let narration = self.narration.to_value();
        let ghost c = chat@;
        let ghost n = narration@;
        let mut fields = no_fields();
        push_field(&mut fields, "chat", chat);
        assert(fields_model(fields@) == seq![("chat"@, c)]);
        push_field(&mut fields, "narration", narration);
        assert(fields_model(fields@) == seq![("chat"@, c), ("narration"@, n)]);
        struct_value(fields)
    }
}

impl RegistryEntryType for ChatTypeRegistryEntry {
    open spec fn registry_id_spec() -> Seq<char> {
        "minecraft:chat_type"@
    }

    open spec fn network_value(&self) -> Option<ValueModel> {
        Option::Some(self.value())
    }

    fn registry_id() -> (r: Ident) {
        Ident::new("minecraft:chat_type")
    }

    fn to_network_nbt(&self, out: &mut Vec<u8>) -> (ok: bool) {
        let v = self.to_value();
        write_entry_nbt(out, &v)
    }
}

} // verus!

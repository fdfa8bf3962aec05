//! What clicking a piece of text does.

use vstd::prelude::*;
use crate::data::ser_value::{SerValue, ValueModel, Field};

verus! {

/// A click event of a text component.
pub enum Action {
    OpenUrl { url: String },
    RunCommand { command: String },
    SuggestCommand { command: String },
    ChangePage { page: u32 },
    CopyToClipboard { value: String },
}

impl Clone for Action {
    fn clone(&self) -> (r: Self)
        ensures
            r == *self,
    {
        match self {
            Action::OpenUrl { url } => Action::OpenUrl { url: url.clone() },
            Action::RunCommand { command } => Action::RunCommand { command: command.clone() },
            Action::SuggestCommand { command } => Action::SuggestCommand {
                command: command.clone(),
            },
            Action::ChangePage { page } => Action::ChangePage { page: *page },
            Action::CopyToClipboard { value } => Action::CopyToClipboard { value: value.clone() },
        }
    }
}

/// The serialised form of an action: a struct naming the action and holding its
/// argument.
pub open spec fn action_model(a: Action) -> ValueModel {
    match a {
        Action::OpenUrl { url } => ValueModel::Struct(
            seq![("action"@, ValueModel::Str("open_url"@)), ("url"@, ValueModel::Str(url@))],
        ),
        Action::RunCommand { command } => ValueModel::Struct(
            seq![("action"@, ValueModel::Str("run_command"@)), ("command"@, ValueModel::Str(command@))],
        ),
        Action::SuggestCommand { command } => ValueModel::Struct(
            seq![("action"@, ValueModel::Str("suggest_command"@)), ("command"@, ValueModel::Str(command@))],
        ),
        Action::ChangePage { page } => ValueModel::Struct(
            seq![("action"@, ValueModel::Str("change_page"@)), ("page"@, ValueModel::U32(page))],
        ),
        Action::CopyToClipboard { value } => ValueModel::Struct(
            seq![("action"@, ValueModel::Str("copy_to_clipboard"@)), ("value"@, ValueModel::Str(value@))],
        ),
    }
}

/// A struct field of a string value.
pub fn str_field(name: &str, value: &str) -> (f: Field)
    ensures
        f.name@ == name@,
        f.value@ == ValueModel::Str(value@),
{
    Field { name: name.to_owned(), value: SerValue::Str(value.to_owned()) }
}

impl Action {
    /// How the action serialises.
    pub fn to_value(&self) -> (r: SerValue)
        ensures
            r@ == action_model(*self),
    {
        let mut fields: Vec<Field> = Vec::new();
        match self {
            Action::OpenUrl { url } => {
                fields.push(str_field("action", "open_url"));
                fields.push(str_field("url", url.as_str()));
            },
            Action::RunCommand { command } => {
                fields.push(str_field("action", "run_command"));
                fields.push(str_field("command", command.as_str()));
            },
            Action::SuggestCommand { command } => {
                fields.push(str_field("action", "suggest_command"));
                fields.push(str_field("command", command.as_str()));
            },
            Action::ChangePage { page } => {
                fields.push(str_field("action", "change_page"));
                fields.push(Field { name: "page".to_owned(), value: SerValue::U32(*page) });
            },
            Action::CopyToClipboard { value } => {
                fields.push(str_field("action", "copy_to_clipboard"));
                fields.push(str_field("value", value.as_str()));
            },
        }
        let r = SerValue::Struct(fields);
        proof {
            crate::data::ser_value::lemma_fields_model(fields@);
            assert(crate::data::ser_value::fields_model(fields@) =~= action_model(*self)->Struct_0);
        }
        r
    }
}

} // verus!

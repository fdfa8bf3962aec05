//! Formatted chat text: a list of components, each with its content and style.

use vstd::prelude::*;
use crate::data::action::Action;
use crate::data::colour::{Rgb, Argb};
use crate::data::ident::Ident;

pub mod formatted;
pub mod ser;
pub mod fmt;

verus! {

/// A piece of formatted text: its components, one after the other.
pub struct Text {
    pub components: Vec<TextComponent>,
}

/// One run of text with a single style.
pub struct TextComponent {
    pub content: TextContent,
    pub style: TextStyle,
}

/// What a component shows.
pub enum TextContent {
    /// The text itself.
    Literal { text: String },
    /// A translation key, with a fallback and the texts to fill in.
    Translate { key: String, fallback: Option<String>, with: Vec<Text> },
    /// The key bound to a control.
    Keybind { id: String },
}

/// How a component looks and behaves.
pub struct TextStyle {
    pub colour: Rgb,
    pub font: Option<Ident>,
    pub bold: bool,
    pub italic: bool,
    pub underline: bool,
    pub strike: bool,
    pub obfuscate: bool,
    pub shadow: Option<Argb>,
    pub insertion: Option<String>,
    pub on_click: Option<Action>,
    pub tooltip: Option<Text>,
}

/// The model of a component.
pub struct ComponentModel {
    pub content: ContentModel,
    pub style: StyleModel,
}

/// The model of a component's content.
pub enum ContentModel {
    Literal(Seq<char>),
    Translate(Seq<char>, Option<Seq<char>>, Seq<Seq<ComponentModel>>),
    Keybind(Seq<char>),
}

/// The model of a style.
pub struct StyleModel {
    pub colour: Rgb,
    pub font: Option<Seq<char>>,
    pub bold: bool,
    pub italic: bool,
    pub underline: bool,
    pub strike: bool,
    pub obfuscate: bool,
    pub shadow: Option<Argb>,
    pub insertion: Option<Seq<char>>,
    pub on_click: Option<Action>,
    pub tooltip: Option<Seq<ComponentModel>>,
}

pub open spec fn text_model(t: Text) -> Seq<ComponentModel>
    decreases t,
{
    components_model(t.components@)
}

pub open spec fn components_model(s: Seq<TextComponent>) -> Seq<ComponentModel>
    decreases s,
{
    if s.len() == 0 {
        Seq::empty()
    } else {
        seq![component_model(s[0])] + components_model(s.drop_first())
    }
}

pub open spec fn texts_model(s: Seq<Text>) -> Seq<Seq<ComponentModel>>
    decreases s,
{
    if s.len() == 0 {
        Seq::empty()
    } else {
        seq![text_model(s[0])] + texts_model(s.drop_first())
    }
}

pub open spec fn component_model(c: TextComponent) -> ComponentModel
    decreases c,
{
    ComponentModel { content: content_model(c.content), style: style_model(c.style) }
}

pub open spec fn content_model(c: TextContent) -> ContentModel
    decreases c,
{
    match c {
        TextContent::Literal { text } => ContentModel::Literal(text@),
        TextContent::Translate { key, fallback, with } => ContentModel::Translate(
            key@,
            match fallback {
                Option::Some(f) => Option::Some(f@),
                Option::None => Option::None,
            },
            texts_model(with@),
        ),
        TextContent::Keybind { id } => ContentModel::Keybind(id@),
    }
}

pub open spec fn style_model(s: TextStyle) -> StyleModel
    decreases s,
{
    StyleModel {
        colour: s.colour,
        font: match s.font {
            Option::Some(f) => Option::Some(f@),
            Option::None => Option::None,
        },
        bold: s.bold,
        italic: s.italic,
        underline: s.underline,
        strike: s.strike,
        obfuscate: s.obfuscate,
        shadow: s.shadow,
        insertion: match s.insertion {
            Option::Some(i) => Option::Some(i@),
            Option::None => Option::None,
        },
        on_click: s.on_click,
        tooltip: match s.tooltip {
            Option::Some(t) => Option::Some(text_model(t)),
            Option::None => Option::None,
        },
    }
}

impl View for Text {
    type V = Seq<ComponentModel>;

    open spec fn view(&self) -> Seq<ComponentModel> {
        text_model(*self)
    }
}

impl View for TextComponent {
    type V = ComponentModel;

    open spec fn view(&self) -> ComponentModel {
        component_model(*self)
    }
}

/// The style of a component that sets nothing: white, default font, no decoration.
pub open spec fn empty_style_model() -> StyleModel {
    StyleModel {
        colour: Rgb { r: 255, g: 255, b: 255 },
        font: Option::None,
        bold: false,
        italic: false,
        underline: false,
        strike: false,
        obfuscate: false,
        shadow: Option::None,
        insertion: Option::None,
        on_click: Option::None,
        tooltip: Option::None,
    }
}

/// The empty style as a value.
pub open spec fn empty_style() -> TextStyle {
    TextStyle {
        colour: Rgb { r: 255, g: 255, b: 255 },
        font: Option::None,
        bold: false,
        italic: false,
        underline: false,
        strike: false,
        obfuscate: false,
        shadow: Option::None,
        insertion: Option::None,
        on_click: Option::None,
        tooltip: Option::None,
    }
}

/// A component with the given content and the empty style.
pub open spec fn plain(content: ContentModel) -> ComponentModel {
    ComponentModel { content, style: empty_style_model() }
}

/// The model of a sequence of components is taken component by component.
pub proof fn lemma_components_model(s: Seq<TextComponent>)
    ensures
        components_model(s).len() == s.len(),
        forall|i: int| 0 <= i < s.len() ==> #[trigger] components_model(s)[i] == component_model(s[i]),
    decreases s.len(),
{
    if s.len() > 0 {
        lemma_components_model(s.drop_first());
    }
}

/// The model of a sequence of texts is taken text by text.
pub proof fn lemma_texts_model(s: Seq<Text>)
    ensures
        texts_model(s).len() == s.len(),
        forall|i: int| 0 <= i < s.len() ==> #[trigger] texts_model(s)[i] == text_model(s[i]),
    decreases s.len(),
{
    if s.len() > 0 {
        lemma_texts_model(s.drop_first());
    }
}

impl TextStyle {
    /// The style that sets nothing.
    pub fn empty() -> (s: Self)
        ensures
            s == empty_style(),
            style_model(s) == empty_style_model(),
    {
        TextStyle {
            colour: Rgb::white(),
            font: None,
            bold: false,
            italic: false,
            underline: false,
            strike: false,
            obfuscate: false,
            shadow: None,
            insertion: None,
            on_click: None,
            tooltip: None,
        }
    }
}

impl TextComponent {
    /// An empty literal with the empty style.
    pub fn empty() -> (c: Self)
        ensures
            c@ == plain(ContentModel::Literal(Seq::empty())),
    {
        TextComponent { content: TextContent::Literal { text: String::new() }, style: TextStyle::empty() }
    }

    /// Puts this component in front of `rhs`.
    pub fn add(self, rhs: Text) -> (r: Text)
        ensures
            r@ == seq![self@] + rhs@,
    {
        let mut components = rhs.components;
        let ghost old_components = components@;
        components.insert(0, self);
        proof {
            lemma_components_model(old_components);
            lemma_components_model(components@);
            assert(components@ =~= seq![self] + old_components);
            assert(components_model(components@) =~= seq![self@] + components_model(old_components));
        }
        Text { components }
    }
}

impl Default for TextComponent {
    fn default() -> (c: Self)
        ensures
            c@ == plain(ContentModel::Literal(Seq::empty())),
    {
        TextComponent::empty()
    }
}

impl From<String> for TextComponent {
    fn from(value: String) -> (c: Self) {
        TextComponent { content: TextContent::Literal { text: value }, style: TextStyle::empty() }
    }
}

impl vstd::std_specs::convert::FromSpecImpl<String> for TextComponent {
    open spec fn obeys_from_spec() -> bool {
        true
    }

    open spec fn from_spec(v: String) -> TextComponent {
        TextComponent { content: TextContent::Literal { text: v }, style: empty_style() }
    }
}

impl From<TextContent> for TextComponent {
    fn from(value: TextContent) -> (c: Self) {
        TextComponent { content: value, style: TextStyle::empty() }
    }
}

impl vstd::std_specs::convert::FromSpecImpl<TextContent> for TextComponent {
    open spec fn obeys_from_spec() -> bool {
        true
    }

    open spec fn from_spec(v: TextContent) -> TextComponent {
        TextComponent { content: v, style: empty_style() }
    }
}

impl Text {
    /// A text of the one component.
    pub fn from_component(c: TextComponent) -> (t: Text)
        ensures
            t@ == seq![c@],
    {
        let mut components = Vec::new();
        components.push(c);
        proof {
            lemma_components_model(components@);
            assert(components_model(components@) =~= seq![c@]);
        }
        Text { components }
    }

    /// A text of one component with the given content and the empty style.
    pub fn from_content(content: TextContent) -> (t: Text)
        ensures
            t@ == seq![plain(content_model(content))],
    {
        Text::from_component(TextComponent { content, style: TextStyle::empty() })
    }

    pub fn literal(text: &str) -> (t: Text)
        ensures
            t@ == seq![plain(ContentModel::Literal(text@))],
    {
        Text::from_content(TextContent::Literal { text: text.to_owned() })
    }

    pub fn translate(key: &str) -> (t: Text)
        ensures
            t@ == seq![plain(ContentModel::Translate(key@, Option::None, Seq::empty()))],
    {
        let with: Vec<Text> = Vec::new();
        proof {
            assert(texts_model(with@) =~= Seq::<Seq<ComponentModel>>::empty());
        }
        Text::from_content(TextContent::Translate { key: key.to_owned(), fallback: None, with })
    }

    pub fn translate_or(key: &str, fallback: &str) -> (t: Text)
        ensures
            t@ == seq![plain(ContentModel::Translate(key@, Option::Some(fallback@), Seq::empty()))],
    {
        let with: Vec<Text> = Vec::new();
        proof {
            assert(texts_model(with@) =~= Seq::<Seq<ComponentModel>>::empty());
        }
        Text::from_content(
            TextContent::Translate { key: key.to_owned(), fallback: Some(fallback.to_owned()), with },
        )
    }

    pub fn translate_with(key: &str, with: Vec<Text>) -> (t: Text)
        ensures
            t@ == seq![plain(ContentModel::Translate(key@, Option::None, texts_model(with@)))],
    {
        Text::from_content(TextContent::Translate { key: key.to_owned(), fallback: None, with })
    }

    pub fn translate_with_or(key: &str, with: Vec<Text>, fallback: &str) -> (t: Text)
        ensures
            t@ == seq![plain(ContentModel::Translate(key@, Option::Some(fallback@), texts_model(with@)))],
    {
        Text::from_content(
            TextContent::Translate { key: key.to_owned(), fallback: Some(fallback.to_owned()), with },
        )
    }

    pub fn keybind(id: &str) -> (t: Text)
        ensures
            t@ == seq![plain(ContentModel::Keybind(id@))],
    {
        Text::from_content(TextContent::Keybind { id: id.to_owned() })
    }

    /// Replaces each component `c` by `f(c)`, keeping their order.
    pub fn apply<F: Fn(TextComponent) -> TextComponent>(self, f: F) -> (r: Text)
        requires
            forall|c: TextComponent| #[trigger] f.requires((c,)),
        ensures
            r.components@.len() == self.components@.len(),
            forall|i: int|
                0 <= i < self.components@.len() ==> f.ensures(
                    (self.components@[i],),
                    #[trigger] r.components@[i],
                ),
    {
        let ghost orig = self.components@;
        let n = self.components.len();
        let mut src = self.components;
        let mut rev: Vec<TextComponent> = Vec::new();
        while src.len() > 0
            invariant
                n == orig.len(),
                src@.len() + rev@.len() == n,
                forall|j: int| 0 <= j < src@.len() ==> #[trigger] src@[j] == orig[j],
                forall|k: int| 0 <= k < rev@.len() ==> #[trigger] rev@[k] == orig[n - 1 - k],
            decreases src@.len(),
        {
            let c = src.pop().unwrap();
            rev.push(c);
        }
        let mut out: Vec<TextComponent> = Vec::new();
        while rev.len() > 0
            invariant
                forall|c: TextComponent| #[trigger] f.requires((c,)),
                n == orig.len(),
                rev@.len() + out@.len() == n,
                forall|k: int| 0 <= k < rev@.len() ==> #[trigger] rev@[k] == orig[n - 1 - k],
                forall|j: int| 0 <= j < out@.len() ==> f.ensures((orig[j],), #[trigger] out@[j]),
            decreases rev@.len(),
        {
            let c = rev.pop().unwrap();
            let d = f(c);
            out.push(d);
        }
        Text { components: out }
    }

    /// This text followed by `rhs`.
    pub fn add(self, rhs: Text) -> (r: Text)
        ensures
            r@ == self@ + rhs@,
    {
        let mut s = self;
        s.add_assign(rhs);
        s
    }

    /// Appends the components of `rhs`.
    pub fn add_assign(&mut self, rhs: Text)
        ensures
            final(self)@ == old(self)@ + rhs@,
    {
        let ghost a = self.components@;
        let ghost b = rhs.components@;
        let mut more = rhs.components;
        self.components.append(&mut more);
        proof {
            lemma_components_model(a);
            lemma_components_model(b);
            lemma_components_model(self.components@);
            assert(components_model(self.components@) =~= components_model(a) + components_model(b));
        }
    }
}

/// A copy of `t` with the same model.
fn clone_text(t: &Text) -> (r: Text)
    ensures
        text_model(r) == text_model(*t),
    decreases t, 1int,
{
    let mut out: Vec<TextComponent> = Vec::new();
    let mut i: usize = 0;
    proof {
        lemma_components_model(t.components@);
    }
    while i < t.components.len()
        invariant
            i <= t.components@.len(),
            out@.len() == i,
            forall|j: int| 0 <= j < i ==> component_model(#[trigger] out@[j]) == component_model(t.components@[j]),
        decreases t.components@.len() - i,
    {
        proof {
            assert(decreases_to!(*t => t.components));
            assert(decreases_to!(t.components => t.components@));
            assert(decreases_to!(t.components@ => t.components@[i as int]));
        }
        let c = clone_component(&t.components[i]);
        out.push(c);
        i += 1;
    }
    proof {
        lemma_components_model(out@);
        assert(components_model(out@) =~= components_model(t.components@));
    }
    Text { components: out }
}

fn clone_component(c: &TextComponent) -> (r: TextComponent)
    ensures
        component_model(r) == component_model(*c),
    decreases c, 1int,
{
    TextComponent { content: clone_content(&c.content), style: clone_style(&c.style) }
}

fn clone_content(c: &TextContent) -> (r: TextContent)
    ensures
        content_model(r) == content_model(*c),
    decreases c, 1int,
{
    match c {
        TextContent::Literal { text } => TextContent::Literal { text: text.clone() },
        TextContent::Keybind { id } => TextContent::Keybind { id: id.clone() },
        TextContent::Translate { key, fallback, with } => {
            let fallback2 = match fallback {
                Some(f) => Some(f.clone()),
                None => None,
            };
            let mut with2: Vec<Text> = Vec::new();
            let mut i: usize = 0;
            proof {
                lemma_texts_model(with@);
            }
            while i < with.len()
                invariant
                    i <= with@.len(),
                    with2@.len() == i,
                    *c == (TextContent::Translate { key: *key, fallback: *fallback, with: *with }),
                    forall|j: int| 0 <= j < i ==> text_model(#[trigger] with2@[j]) == text_model(with@[j]),
                decreases with@.len() - i,
            {
                proof {
                    assert(decreases_to!(*c => (*c)->with));
                    assert(decreases_to!(*with => with@));
                    assert(decreases_to!(with@ => with@[i as int]));
                }
                let t = clone_text(&with[i]);
                with2.push(t);
                i += 1;
            }
            proof {
                lemma_texts_model(with2@);
                assert(texts_model(with2@) =~= texts_model(with@));
            }
            TextContent::Translate { key: key.clone(), fallback: fallback2, with: with2 }
        },
    }
}

fn clone_style(s: &TextStyle) -> (r: TextStyle)
    ensures
        style_model(r) == style_model(*s),
    decreases s, 1int,
{
    let tooltip = match &s.tooltip {
        Some(t) => {
            proof {
                assert(decreases_to!(*s => s.tooltip));
            }
            Some(clone_text(t))
        },
        None => None,
    };
    TextStyle {
        colour: s.colour,
        font: match &s.font {
            Some(f) => Some(f.clone()),
            None => None,
        },
        bold: s.bold,
        italic: s.italic,
        underline: s.underline,
        strike: s.strike,
        obfuscate: s.obfuscate,
        shadow: s.shadow,
        insertion: match &s.insertion {
            Some(i) => Some(i.clone()),
            None => None,
        },
        on_click: match &s.on_click {
            Some(a) => Some(a.clone()),
            None => None,
        },
        tooltip,
    }
}

impl Clone for Text {
    fn clone(&self) -> (r: Self)
        ensures
            r@ == self@,
    {
        clone_text(self)
    }
}

impl Clone for TextComponent {
    fn clone(&self) -> (r: Self)
        ensures
            r@ == self@,
    {
        clone_component(self)
    }
}

impl Clone for TextStyle {
    fn clone(&self) -> (r: Self)
        ensures
            style_model(r) == style_model(*self),
    {
        clone_style(self)
    }
}

} // verus!

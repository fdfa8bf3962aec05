//! Styling text: the setters shared by texts and the values that become texts.

use vstd::prelude::*;
use crate::data::action::Action;
use crate::data::colour::{Rgb, Argb};
use crate::data::ident::Ident;
use super::{
    Text, TextComponent, TextContent, ComponentModel, StyleModel, content_model, component_model,
    components_model, lemma_components_model, plain,
};

verus! {

/// `s` with the style of each component replaced by `f` of it.
pub open spec fn restyle(s: Seq<ComponentModel>, f: spec_fn(StyleModel) -> StyleModel) -> Seq<ComponentModel> {
    Seq::new(s.len(), |i: int| ComponentModel { content: s[i].content, style: f(s[i].style) })
}

/// Styling a concatenation styles each part: formatting `a + b` gives the formatted
/// `a` followed by the formatted `b`, and keeps every component's content.
pub proof fn lemma_restyle_concat(a: Seq<ComponentModel>, b: Seq<ComponentModel>, f: spec_fn(StyleModel) -> StyleModel)
    ensures
        restyle(a + b, f) == restyle(a, f) + restyle(b, f),
        forall|i: int| 0 <= i < (a + b).len() ==> #[trigger] restyle(a + b, f)[i].content == (a + b)[i].content,
{
    assert(restyle(a + b, f) =~= restyle(a, f) + restyle(b, f));
}

/// A component sequence whose models are those of `s` restyled by `f` has the model
/// `restyle(s, f)`.
pub proof fn lemma_restyled(s: Seq<TextComponent>, r: Seq<TextComponent>, f: spec_fn(StyleModel) -> StyleModel)
    requires
        r.len() == s.len(),
        forall|i: int| 0 <= i < s.len() ==> #[trigger] component_model(r[i]) == (ComponentModel {
            content: component_model(s[i]).content,
            style: f(component_model(s[i]).style),
        }),
    ensures
        components_model(r) == restyle(components_model(s), f),
{
    lemma_components_model(s);
    lemma_components_model(r);
    assert(components_model(r) =~= restyle(components_model(s), f));
}

/// Values that can be styled into a `Text`: texts themselves, and anything that makes
/// a single component.
pub trait TextFormatted: Sized {
    /// The components that styling this value works on.
    spec fn formatted_model(&self) -> Seq<ComponentModel>;

    /// Sets the colour of every component.
    fn colour(self, colour: Rgb) -> (r: Text)
        ensures
            r@ == restyle(self.formatted_model(), |st: StyleModel| StyleModel { colour, ..st }),
    ;

    fn black(self) -> (r: Text)
        ensures
            r@ == restyle(self.formatted_model(), |st: StyleModel| StyleModel { colour: Rgb { r: 0, g: 0, b: 0 }, ..st }),
    {
        self.colour(Rgb::black())
    }

    fn dark_blue(self) -> (r: Text)
        ensures
            r@ == restyle(self.formatted_model(), |st: StyleModel| StyleModel { colour: Rgb { r: 0, g: 0, b: 170 }, ..st }),
    {
        self.colour(Rgb::dark_blue())
    }

    fn dark_green(self) -> (r: Text)
        ensures
            r@ == restyle(self.formatted_model(), |st: StyleModel| StyleModel { colour: Rgb { r: 0, g: 170, b: 0 }, ..st }),
    {
        self.colour(Rgb::dark_green())
    }

    fn dark_cyan(self) -> (r: Text)
        ensures
            r@ == restyle(self.formatted_model(), |st: StyleModel| StyleModel { colour: Rgb { r: 0, g: 170, b: 170 }, ..st }),
    {
        self.colour(Rgb::dark_cyan())
    }

    fn dark_red(self) -> (r: Text)
        ensures
            r@ == restyle(self.formatted_model(), |st: StyleModel| StyleModel { colour: Rgb { r: 170, g: 0, b: 0 }, ..st }),
    {
        self.colour(Rgb::dark_red())
    }

    fn purple(self) -> (r: Text)
        ensures
            r@ == restyle(self.formatted_model(), |st: StyleModel| StyleModel { colour: Rgb { r: 170, g: 0, b: 170 }, ..st }),
    {
        self.colour(Rgb::purple())
    }

    fn orange(self) -> (r: Text)
        ensures
            r@ == restyle(self.formatted_model(), |st: StyleModel| StyleModel { colour: Rgb { r: 255, g: 170, b: 0 }, ..st }),
    {
        self.colour(Rgb::orange())
    }

    fn grey(self) -> (r: Text)
        ensures
            r@ == restyle(self.formatted_model(), |st: StyleModel| StyleModel { colour: Rgb { r: 170, g: 170, b: 170 }, ..st }),
    {
        self.colour(Rgb::grey())
    }

    fn dark_grey(self) -> (r: Text)
        ensures
            r@ == restyle(self.formatted_model(), |st: StyleModel| StyleModel { colour: Rgb { r: 85, g: 85, b: 85 }, ..st }),
    {
        self.colour(Rgb::dark_grey())
    }

    fn blue(self) -> (r: Text)
        ensures
            r@ == restyle(self.formatted_model(), |st: StyleModel| StyleModel { colour: Rgb { r: 85, g: 85, b: 255 }, ..st }),
    {
        self.colour(Rgb::blue())
    }

    fn green(self) -> (r: Text)
        ensures
            r@ == restyle(self.formatted_model(), |st: StyleModel| StyleModel { colour: Rgb { r: 85, g: 255, b: 85 }, ..st }),
    {
        self.colour(Rgb::green())
    }

    fn cyan(self) -> (r: Text)
        ensures
            r@ == restyle(self.formatted_model(), |st: StyleModel| StyleModel { colour: Rgb { r: 85, g: 255, b: 255 }, ..st }),
    {
        self.colour(Rgb::cyan())
    }

    fn red(self) -> (r: Text)
        ensures
            r@ == restyle(self.formatted_model(), |st: StyleModel| StyleModel { colour: Rgb { r: 255, g: 85, b: 85 }, ..st }),
    {
        self.colour(Rgb::red())
    }

    fn pink(self) -> (r: Text)
        ensures
            r@ == restyle(self.formatted_model(), |st: StyleModel| StyleModel { colour: Rgb { r: 255, g: 85, b: 255 }, ..st }),
    {
        self.colour(Rgb::pink())
    }

    fn yellow(self) -> (r: Text)
        ensures
            r@ == restyle(self.formatted_model(), |st: StyleModel| StyleModel { colour: Rgb { r: 255, g: 255, b: 85 }, ..st }),
    {
        self.colour(Rgb::yellow())
    }

    fn white(self) -> (r: Text)
        ensures
            r@ == restyle(self.formatted_model(), |st: StyleModel| StyleModel { colour: Rgb { r: 255, g: 255, b: 255 }, ..st }),
    {
        self.colour(Rgb::white())
    }

    /// Sets the font of every component.
    fn font(self, resource: Ident) -> (r: Text)
        ensures
            r@ == restyle(self.formatted_model(), |st: StyleModel| StyleModel { font: Option::Some(resource@), ..st }),
    ;

    /// Resets the font of every component.
    fn no_font(self) -> (r: Text)
        ensures
            r@ == restyle(self.formatted_model(), |st: StyleModel| StyleModel { font: Option::None, ..st }),
    ;

    /// Makes every component bold.
    fn bold(self) -> (r: Text)
        ensures
            r@ == restyle(self.formatted_model(), |st: StyleModel| StyleModel { bold: true, ..st }),
    ;

    /// Makes every component not bold.
    fn no_bold(self) -> (r: Text)
        ensures
            r@ == restyle(self.formatted_model(), |st: StyleModel| StyleModel { bold: false, ..st }),
    ;

    /// Makes every component italic.
    fn italic(self) -> (r: Text)
        ensures
            r@ == restyle(self.formatted_model(), |st: StyleModel| StyleModel { italic: true, ..st }),
    ;

    /// Sets the italic flag of every component, as `italic` does.
    fn no_italic(self) -> (r: Text)
        ensures
            r@ == restyle(self.formatted_model(), |st: StyleModel| StyleModel { italic: true, ..st }),
    ;

    /// Underlines every component.
    fn underline(self) -> (r: Text)
        ensures
            r@ == restyle(self.formatted_model(), |st: StyleModel| StyleModel { underline: true, ..st }),
    ;

    /// Sets the underline flag of every component, as `underline` does.
    fn no_underline(self) -> (r: Text)
        ensures
            r@ == restyle(self.formatted_model(), |st: StyleModel| StyleModel { underline: true, ..st }),
    ;

    /// Strikes every component through.
    fn strike(self) -> (r: Text)
        ensures
            r@ == restyle(self.formatted_model(), |st: StyleModel| StyleModel { strike: true, ..st }),
    ;

    /// Sets the strike-through flag of every component, as `strike` does.
    fn no_strike(self) -> (r: Text)
        ensures
            r@ == restyle(self.formatted_model(), |st: StyleModel| StyleModel { strike: true, ..st }),
    ;

    /// Obfuscates every component.
    fn obfuscate(self) -> (r: Text)
        ensures
            r@ == restyle(self.formatted_model(), |st: StyleModel| StyleModel { obfuscate: true, ..st }),
    ;

    /// Sets the obfuscate flag of every component, as `obfuscate` does.
    fn no_obfuscate(self) -> (r: Text)
        ensures
            r@ == restyle(self.formatted_model(), |st: StyleModel| StyleModel { obfuscate: true, ..st }),
    ;

    /// Sets the shadow colour of every component.
    fn shadow(self, colour: Argb) -> (r: Text)
        ensures
            r@ == restyle(self.formatted_model(), |st: StyleModel| StyleModel { shadow: Option::Some(colour), ..st }),
    ;

    /// Gives every component a transparent shadow.
    fn no_shadow(self) -> (r: Text)
        ensures
            r@ == restyle(self.formatted_model(), |st: StyleModel| StyleModel { shadow: Option::Some(Argb { a: 0, r: 0, g: 0, b: 0 }), ..st }),
    {
        self.shadow(Argb::transparent())
    }

    /// Gives every component the default shadow.
    fn default_shadow(self) -> (r: Text)
        ensures
            r@ == restyle(self.formatted_model(), |st: StyleModel| StyleModel { shadow: Option::None, ..st }),
    ;

    /// Sets the text inserted on shift-click for every component.
    fn insertion(self, text: &str) -> (r: Text)
        ensures
            r@ == restyle(self.formatted_model(), |st: StyleModel| StyleModel { insertion: Option::Some(text@), ..st }),
    ;

    /// Removes the shift-click insertion of every component.
    fn no_insertion(self) -> (r: Text)
        ensures
            r@ == restyle(self.formatted_model(), |st: StyleModel| StyleModel { insertion: Option::None, ..st }),
    ;

    /// Sets the click action of every component.
    fn on_click(self, action: Action) -> (r: Text)
        ensures
            r@ == restyle(self.formatted_model(), |st: StyleModel| StyleModel { on_click: Option::Some(action), ..st }),
    ;

    /// Removes the click action of every component.
    fn no_on_click(self) -> (r: Text)
        ensures
            r@ == restyle(self.formatted_model(), |st: StyleModel| StyleModel { on_click: Option::None, ..st }),
    ;

    /// Sets the hover tooltip of every component.
    fn tooltip(self, text: Text) -> (r: Text)
        ensures
            r@ == restyle(self.formatted_model(), |st: StyleModel| StyleModel { tooltip: Option::Some(text@), ..st }),
    ;

    /// Removes the hover tooltip of every component.
    fn no_tooltip(self) -> (r: Text)
        ensures
            r@ == restyle(self.formatted_model(), |st: StyleModel| StyleModel { tooltip: Option::None, ..st }),
    ;

    /// Resets every component to the empty style, keeping its content.
    fn reset(self) -> (r: Text)
        ensures
            r@ == restyle(self.formatted_model(), |st: StyleModel| StyleModel { colour: Rgb { r: 255, g: 255, b: 255 }, font: Option::None, bold: false, italic: false, underline: false, strike: false, obfuscate: false, shadow: Option::None, insertion: Option::None, on_click: Option::None, tooltip: Option::None, ..st }),
    ;
}

impl TextFormatted for Text {
    open spec fn formatted_model(&self) -> Seq<ComponentModel> {
        self@
    }

    fn colour(self, colour: Rgb) -> (r: Text) {
        let ghost s = self.components@;
        let f = (
            |c: TextComponent| -> (d: TextComponent)
                ensures
                    d@ == (ComponentModel { content: c@.content, style: StyleModel { colour, ..c@.style } }),
                {
                    let mut c = c;
                    c.style.colour = colour;
                    c
                }
        );
        let r = self.apply(f);
        proof {
            lemma_restyled(s, r.components@, |st: StyleModel| StyleModel { colour, ..st });
        }
        r
    }

    fn font(self, resource: Ident) -> (r: Text) {
        let ghost s = self.components@;
        let f = (
            |c: TextComponent| -> (d: TextComponent)
                ensures
                    d@ == (ComponentModel { content: c@.content, style: StyleModel { font: Option::Some(resource@), ..c@.style } }),
                {
                    let mut c = c;
                    c.style.font = Some(resource.clone());
                    c
                }
        );
        let r = self.apply(f);
        proof {
            lemma_restyled(s, r.components@, |st: StyleModel| StyleModel { font: Option::Some(resource@), ..st });
        }
        r
    }

    fn no_font(self) -> (r: Text) {
        let ghost s = self.components@;
        let f = (
            |c: TextComponent| -> (d: TextComponent)
                ensures
                    d@ == (ComponentModel { content: c@.content, style: StyleModel { font: Option::None, ..c@.style } }),
                {
                    let mut c = c;
                    c.style.font = None;
                    c
                }
        );
        let r = self.apply(f);
        proof {
            lemma_restyled(s, r.components@, |st: StyleModel| StyleModel { font: Option::None, ..st });
        }
        r
    }

    fn bold(self) -> (r: Text) {
        let ghost s = self.components@;
        let f = (
            |c: TextComponent| -> (d: TextComponent)
                ensures
                    d@ == (ComponentModel { content: c@.content, style: StyleModel { bold: true, ..c@.style } }),
                {
                    let mut c = c;
                    c.style.bold = true;
                    c
                }
        );
        let r = self.apply(f);
        proof {
            lemma_restyled(s, r.components@, |st: StyleModel| StyleModel { bold: true, ..st });
        }
        r
    }

    fn no_bold(self) -> (r: Text) {
        let ghost s = self.components@;
        let f = (
            |c: TextComponent| -> (d: TextComponent)
                ensures
                    d@ == (ComponentModel { content: c@.content, style: StyleModel { bold: false, ..c@.style } }),
                {
                    let mut c = c;
                    c.style.bold = false;
                    c
                }
        );
        let r = self.apply(f);
        proof {
            lemma_restyled(s, r.components@, |st: StyleModel| StyleModel { bold: false, ..st });
        }
        r
    }

    fn italic(self) -> (r: Text) {
        let ghost s = self.components@;
        let f = (
            |c: TextComponent| -> (d: TextComponent)
                ensures
                    d@ == (ComponentModel { content: c@.content, style: StyleModel { italic: true, ..c@.style } }),
                {
                    let mut c = c;
                    c.style.italic = true;
                    c
                }
        );
        let r = self.apply(f);
        proof {
            lemma_restyled(s, r.components@, |st: StyleModel| StyleModel { italic: true, ..st });
        }
        r
    }

    fn no_italic(self) -> (r: Text) {
        let ghost s = self.components@;
        let f = (
            |c: TextComponent| -> (d: TextComponent)
                ensures
                    d@ == (ComponentModel { content: c@.content, style: StyleModel { italic: true, ..c@.style } }),
                {
                    let mut c = c;
                    c.style.italic = true;
                    c
                }
        );
        let r = self.apply(f);
        proof {
            lemma_restyled(s, r.components@, |st: StyleModel| StyleModel { italic: true, ..st });
        }
        r
    }

    fn underline(self) -> (r: Text) {
        let ghost s = self.components@;
        let f = (
            |c: TextComponent| -> (d: TextComponent)
                ensures
                    d@ == (ComponentModel { content: c@.content, style: StyleModel { underline: true, ..c@.style } }),
                {
                    let mut c = c;
                    c.style.underline = true;
                    c
                }
        );
        let r = self.apply(f);
        proof {
            lemma_restyled(s, r.components@, |st: StyleModel| StyleModel { underline: true, ..st });
        }
        r
    }

    fn no_underline(self) -> (r: Text) {
        let ghost s = self.components@;
        let f = (
            |c: TextComponent| -> (d: TextComponent)
                ensures
                    d@ == (ComponentModel { content: c@.content, style: StyleModel { underline: true, ..c@.style } }),
                {
                    let mut c = c;
                    c.style.underline = true;
                    c
                }
        );
        let r = self.apply(f);
        proof {
            lemma_restyled(s, r.components@, |st: StyleModel| StyleModel { underline: true, ..st });
        }
        r
    }

    fn strike(self) -> (r: Text) {
        let ghost s = self.components@;
        let f = (
            |c: TextComponent| -> (d: TextComponent)
                ensures
                    d@ == (ComponentModel { content: c@.content, style: StyleModel { strike: true, ..c@.style } }),
                {
                    let mut c = c;
                    c.style.strike = true;
                    c
                }
        );
        let r = self.apply(f);
        proof {
            lemma_restyled(s, r.components@, |st: StyleModel| StyleModel { strike: true, ..st });
        }
        r
    }

    fn no_strike(self) -> (r: Text) {
        let ghost s = self.components@;
        let f = (
            |c: TextComponent| -> (d: TextComponent)
                ensures
                    d@ == (ComponentModel { content: c@.content, style: StyleModel { strike: true, ..c@.style } }),
                {
                    let mut c = c;
                    c.style.strike = true;
                    c
                }
        );
        let r = self.apply(f);
        proof {
            lemma_restyled(s, r.components@, |st: StyleModel| StyleModel { strike: true, ..st });
        }
        r
    }

    fn obfuscate(self) -> (r: Text) {
        let ghost s = self.components@;
        let f = (
            |c: TextComponent| -> (d: TextComponent)
                ensures
                    d@ == (ComponentModel { content: c@.content, style: StyleModel { obfuscate: true, ..c@.style } }),
                {
                    let mut c = c;
                    c.style.obfuscate = true;
                    c
                }
        );
        let r = self.apply(f);
        proof {
            lemma_restyled(s, r.components@, |st: StyleModel| StyleModel { obfuscate: true, ..st });
        }
        r
    }

    fn no_obfuscate(self) -> (r: Text) {
        let ghost s = self.components@;
        let f = (
            |c: TextComponent| -> (d: TextComponent)
                ensures
                    d@ == (ComponentModel { content: c@.content, style: StyleModel { obfuscate: true, ..c@.style } }),
                {
                    let mut c = c;
                    c.style.obfuscate = true;
                    c
                }
        );
        let r = self.apply(f);
        proof {
            lemma_restyled(s, r.components@, |st: StyleModel| StyleModel { obfuscate: true, ..st });
        }
        r
    }

    fn shadow(self, colour: Argb) -> (r: Text) {
        let ghost s = self.components@;
        let f = (
            |c: TextComponent| -> (d: TextComponent)
                ensures
                    d@ == (ComponentModel { content: c@.content, style: StyleModel { shadow: Option::Some(colour), ..c@.style } }),
                {
                    let mut c = c;
                    c.style.shadow = Some(colour);
                    c
                }
        );
        let r = self.apply(f);
        proof {
            lemma_restyled(s, r.components@, |st: StyleModel| StyleModel { shadow: Option::Some(colour), ..st });
        }
        r
    }

    fn default_shadow(self) -> (r: Text) {
        let ghost s = self.components@;
        let f = (
            |c: TextComponent| -> (d: TextComponent)
                ensures
                    d@ == (ComponentModel { content: c@.content, style: StyleModel { shadow: Option::None, ..c@.style } }),
                {
                    let mut c = c;
                    c.style.shadow = None;
                    c
                }
        );
        let r = self.apply(f);
        proof {
            lemma_restyled(s, r.components@, |st: StyleModel| StyleModel { shadow: Option::None, ..st });
        }
        r
    }

    fn insertion(self, text: &str) -> (r: Text) {
        let ghost s = self.components@;
        let f = (
            |c: TextComponent| -> (d: TextComponent)
                ensures
                    d@ == (ComponentModel { content: c@.content, style: StyleModel { insertion: Option::Some(text@), ..c@.style } }),
                {
                    let mut c = c;
                    c.style.insertion = Some(text.to_owned());
                    c
                }
        );
        let r = self.apply(f);
        proof {
            lemma_restyled(s, r.components@, |st: StyleModel| StyleModel { insertion: Option::Some(text@), ..st });
        }
        r
    }

    fn no_insertion(self) -> (r: Text) {
        let ghost s = self.components@;
        let f = (
            |c: TextComponent| -> (d: TextComponent)
                ensures
                    d@ == (ComponentModel { content: c@.content, style: StyleModel { insertion: Option::None, ..c@.style } }),
                {
                    let mut c = c;
                    c.style.insertion = None;
                    c
                }
        );
        let r = self.apply(f);
        proof {
            lemma_restyled(s, r.components@, |st: StyleModel| StyleModel { insertion: Option::None, ..st });
        }
        r
    }

    fn on_click(self, action: Action) -> (r: Text) {
        let ghost s = self.components@;
        let action = &action;
        let f = (
            |c: TextComponent| -> (d: TextComponent)
                ensures
                    d@ == (ComponentModel { content: c@.content, style: StyleModel { on_click: Option::Some(*action), ..c@.style } }),
                {
                    let mut c = c;
                    c.style.on_click = Some(action.clone());
                    c
                }
        );
        let r = self.apply(f);
        proof {
            lemma_restyled(s, r.components@, |st: StyleModel| StyleModel { on_click: Option::Some(*action), ..st });
        }
        r
    }

    fn no_on_click(self) -> (r: Text) {
        let ghost s = self.components@;
        let f = (
            |c: TextComponent| -> (d: TextComponent)
                ensures
                    d@ == (ComponentModel { content: c@.content, style: StyleModel { on_click: Option::None, ..c@.style } }),
                {
                    let mut c = c;
                    c.style.on_click = None;
                    c
                }
        );
        let r = self.apply(f);
        proof {
            lemma_restyled(s, r.components@, |st: StyleModel| StyleModel { on_click: Option::None, ..st });
        }
        r
    }

    fn tooltip(self, text: Text) -> (r: Text) {
        let ghost s = self.components@;
        let f = (
            |c: TextComponent| -> (d: TextComponent)
                ensures
                    d@ == (ComponentModel { content: c@.content, style: StyleModel { tooltip: Option::Some(text@), ..c@.style } }),
                {
                    let mut c = c;
                    c.style.tooltip = Some(text.clone());
                    c
                }
        );
        let r = self.apply(f);
        proof {
            lemma_restyled(s, r.components@, |st: StyleModel| StyleModel { tooltip: Option::Some(text@), ..st });
        }
        r
    }

    fn no_tooltip(self) -> (r: Text) {
        let ghost s = self.components@;
        let f = (
            |c: TextComponent| -> (d: TextComponent)
                ensures
                    d@ == (ComponentModel { content: c@.content, style: StyleModel { tooltip: Option::None, ..c@.style } }),
                {
                    let mut c = c;
                    c.style.tooltip = None;
                    c
                }
        );
        let r = self.apply(f);
        proof {
            lemma_restyled(s, r.components@, |st: StyleModel| StyleModel { tooltip: Option::None, ..st });
        }
        r
    }

    fn reset(self) -> (r: Text) {
        let ghost s = self.components@;
        let f = (
            |c: TextComponent| -> (d: TextComponent)
                ensures
                    d@ == (ComponentModel { content: c@.content, style: StyleModel { colour: Rgb { r: 255, g: 255, b: 255 }, font: Option::None, bold: false, italic: false, underline: false, strike: false, obfuscate: false, shadow: Option::None, insertion: Option::None, on_click: Option::None, tooltip: Option::None, ..c@.style } }),
                {
                    let mut c = c;
                    c.style.colour = Rgb::white();
            c.style.font = None;
            c.style.bold = false;
            c.style.italic = false;
            c.style.underline = false;
            c.style.strike = false;
            c.style.obfuscate = false;
            c.style.shadow = None;
            c.style.insertion = None;
            c.style.on_click = None;
            c.style.tooltip = None;
                    c
                }
        );
        let r = self.apply(f);
        proof {
            lemma_restyled(s, r.components@, |st: StyleModel| StyleModel { colour: Rgb { r: 255, g: 255, b: 255 }, font: Option::None, bold: false, italic: false, underline: false, strike: false, obfuscate: false, shadow: Option::None, insertion: Option::None, on_click: Option::None, tooltip: Option::None, ..st });
        }
        r
    }

    fn no_shadow(self) -> (r: Text) {
        let ghost s = self.components@;
        let f = (
            |c: TextComponent| -> (d: TextComponent)
                ensures
                    d@ == (ComponentModel { content: c@.content, style: StyleModel { shadow: Option::Some(Argb { a: 0, r: 0, g: 0, b: 0 }), ..c@.style } }),
                {
                    let mut c = c;
                    c.style.shadow = Some(Argb::transparent());
                    c
                }
        );
        let r = self.apply(f);
        proof {
            lemma_restyled(s, r.components@, |st: StyleModel| StyleModel { shadow: Option::Some(Argb { a: 0, r: 0, g: 0, b: 0 }), ..st });
        }
        r
    }
}

impl TextFormatted for TextComponent {
    open spec fn formatted_model(&self) -> Seq<ComponentModel> {
        seq![self@]
    }

    fn colour(self, colour: Rgb) -> (r: Text) {
        Text::from_component(self).colour(colour)
    }

    fn font(self, resource: Ident) -> (r: Text) {
        Text::from_component(self).font(resource)
    }

    fn no_font(self) -> (r: Text) {
        Text::from_component(self).no_font()
    }

    fn bold(self) -> (r: Text) {
        Text::from_component(self).bold()
    }

    fn no_bold(self) -> (r: Text) {
        Text::from_component(self).no_bold()
    }

    fn italic(self) -> (r: Text) {
        Text::from_component(self).italic()
    }

    fn no_italic(self) -> (r: Text) {
        Text::from_component(self).no_italic()
    }

    fn underline(self) -> (r: Text) {
        Text::from_component(self).underline()
    }

    fn no_underline(self) -> (r: Text) {
        Text::from_component(self).no_underline()
    }

    fn strike(self) -> (r: Text) {
        Text::from_component(self).strike()
    }

    fn no_strike(self) -> (r: Text) {
        Text::from_component(self).no_strike()
    }

    fn obfuscate(self) -> (r: Text) {
        Text::from_component(self).obfuscate()
    }

    fn no_obfuscate(self) -> (r: Text) {
        Text::from_component(self).no_obfuscate()
    }

    fn shadow(self, colour: Argb) -> (r: Text) {
        Text::from_component(self).shadow(colour)
    }

    fn default_shadow(self) -> (r: Text) {
        Text::from_component(self).default_shadow()
    }

    fn insertion(self, text: &str) -> (r: Text) {
        Text::from_component(self).insertion(text)
    }

    fn no_insertion(self) -> (r: Text) {
        Text::from_component(self).no_insertion()
    }

    fn on_click(self, action: Action) -> (r: Text) {
        Text::from_component(self).on_click(action)
    }

    fn no_on_click(self) -> (r: Text) {
        Text::from_component(self).no_on_click()
    }

    fn tooltip(self, text: Text) -> (r: Text) {
        Text::from_component(self).tooltip(text)
    }

    fn no_tooltip(self) -> (r: Text) {
        Text::from_component(self).no_tooltip()
    }

    fn reset(self) -> (r: Text) {
        Text::from_component(self).reset()
    }

    fn no_shadow(self) -> (r: Text) {
        Text::from_component(self).no_shadow()
    }
}

impl TextFormatted for TextContent {
    open spec fn formatted_model(&self) -> Seq<ComponentModel> {
        seq![plain(content_model(*self))]
    }

    fn colour(self, colour: Rgb) -> (r: Text) {
        Text::from_content(self).colour(colour)
    }

    fn font(self, resource: Ident) -> (r: Text) {
        Text::from_content(self).font(resource)
    }

    fn no_font(self) -> (r: Text) {
        Text::from_content(self).no_font()
    }

    fn bold(self) -> (r: Text) {
        Text::from_content(self).bold()
    }

    fn no_bold(self) -> (r: Text) {
        Text::from_content(self).no_bold()
    }

    fn italic(self) -> (r: Text) {
        Text::from_content(self).italic()
    }

    fn no_italic(self) -> (r: Text) {
        Text::from_content(self).no_italic()
    }

    fn underline(self) -> (r: Text) {
        Text::from_content(self).underline()
    }

    fn no_underline(self) -> (r: Text) {
        Text::from_content(self).no_underline()
    }

    fn strike(self) -> (r: Text) {
        Text::from_content(self).strike()
    }

    fn no_strike(self) -> (r: Text) {
        Text::from_content(self).no_strike()
    }

    fn obfuscate(self) -> (r: Text) {
        Text::from_content(self).obfuscate()
    }

    fn no_obfuscate(self) -> (r: Text) {
        Text::from_content(self).no_obfuscate()
    }

    fn shadow(self, colour: Argb) -> (r: Text) {
        Text::from_content(self).shadow(colour)
    }

    fn default_shadow(self) -> (r: Text) {
        Text::from_content(self).default_shadow()
    }

    fn insertion(self, text: &str) -> (r: Text) {
        Text::from_content(self).insertion(text)
    }

    fn no_insertion(self) -> (r: Text) {
        Text::from_content(self).no_insertion()
    }

    fn on_click(self, action: Action) -> (r: Text) {
        Text::from_content(self).on_click(action)
    }

    fn no_on_click(self) -> (r: Text) {
        Text::from_content(self).no_on_click()
    }

    fn tooltip(self, text: Text) -> (r: Text) {
        Text::from_content(self).tooltip(text)
    }

    fn no_tooltip(self) -> (r: Text) {
        Text::from_content(self).no_tooltip()
    }

    fn reset(self) -> (r: Text) {
        Text::from_content(self).reset()
    }

    fn no_shadow(self) -> (r: Text) {
        Text::from_content(self).no_shadow()
    }
}

} // verus!

//! Text for a terminal: each component in its colour and decorations, using ANSI
//! escape sequences.

use vstd::prelude::*;
use crate::data::colour::{Rgb, Argb};
use crate::data::strings::{decimal, push_decimal};
use super::{
    Text, TextComponent, TextContent, ComponentModel, ContentModel, StyleModel,
    lemma_components_model,
};

verus! {

/// The sequence that resets all attributes.
pub open spec fn ansi_reset() -> Seq<char> {
    "\x1b[0m"@
}

/// The sequence that sets the foreground (`kind` 38) or background (`kind` 48) colour.
pub open spec fn ansi_colour(prefix: Seq<char>, r: u8, g: u8, b: u8) -> Seq<char> {
    prefix + decimal(r) + ";"@ + decimal(g) + ";"@ + decimal(b) + "m"@
}

pub open spec fn ansi_flag(set: bool, code: Seq<char>) -> Seq<char> {
    if set {
        code
    } else {
        Seq::empty()
    }
}

/// What a component's content shows on a terminal: the literal text, the translation
/// key or the keybind identifier.
pub open spec fn content_display(c: ContentModel) -> Seq<char> {
    match c {
        ContentModel::Literal(text) => text,
        ContentModel::Translate(key, _, _) => key,
        ContentModel::Keybind(id) => id,
    }
}

/// The escape sequences of a style: its colour, its decorations and its shadow.
pub open spec fn style_ansi(
    colour: Rgb,
    bold: bool,
    italic: bool,
    underline: bool,
    strike: bool,
    obfuscate: bool,
    shadow: Option<Argb>,
) -> Seq<char> {
    ansi_colour("\x1b[38;2;"@, colour.r, colour.g, colour.b) + ansi_flag(bold, "\x1b[1m"@)
        + ansi_flag(italic, "\x1b[3m"@) + ansi_flag(underline, "\x1b[4m"@) + ansi_flag(
        strike,
        "\x1b[9m"@,
    ) + ansi_flag(obfuscate, "\x1b[5m"@) + match shadow {
        Option::Some(a) => ansi_colour("\x1b[48;2;"@, a.r, a.g, a.b),
        Option::None => Seq::empty(),
    }
}

/// A component without the resets around it.
pub open spec fn component_ansi_body(c: ComponentModel) -> Seq<char> {
    style_ansi(
        c.style.colour,
        c.style.bold,
        c.style.italic,
        c.style.underline,
        c.style.strike,
        c.style.obfuscate,
        c.style.shadow,
    ) + content_display(c.content)
}

/// A component between two resets.
pub open spec fn component_ansi(c: ComponentModel) -> Seq<char> {
    ansi_reset() + component_ansi_body(c) + ansi_reset()
}

/// The components of a text, each followed by a reset.
pub open spec fn components_ansi(s: Seq<ComponentModel>) -> Seq<char>
    decreases s.len(),
{
    if s.len() == 0 {
        Seq::empty()
    } else {
        components_ansi(s.drop_last()) + component_ansi_body(s.last()) + ansi_reset()
    }
}

/// A text: nothing when empty, otherwise a reset and then each component followed by a
/// reset.
pub open spec fn text_ansi(t: Seq<ComponentModel>) -> Seq<char> {
    if t.len() == 0 {
        Seq::empty()
    } else {
        ansi_reset() + components_ansi(t)
    }
}

fn push_colour(s: &mut String, prefix: &str, r: u8, g: u8, b: u8)
    ensures
        final(s)@ == old(s)@ + ansi_colour(prefix@, r, g, b),
{
    s.push_str(prefix);
    push_decimal(s, r);
    s.push_str(";");
    push_decimal(s, g);
    s.push_str(";");
    push_decimal(s, b);
    s.push_str("m");
    assert(final(s)@ =~= old(s)@ + ansi_colour(prefix@, r, g, b));
}

fn push_flag(s: &mut String, set: bool, code: &str)
    ensures
        final(s)@ == old(s)@ + ansi_flag(set, code@),
{
    if set {
        s.push_str(code);
    } else {
        assert(old(s)@ + ansi_flag(set, code@) =~= old(s)@);
    }
}

fn push_style(
    s: &mut String,
    colour: Rgb,
    bold: bool,
    italic: bool,
    underline: bool,
    strike: bool,
    obfuscate: bool,
    shadow: Option<Argb>,
)
    ensures
        final(s)@ == old(s)@ + style_ansi(colour, bold, italic, underline, strike, obfuscate, shadow),
{
    let ghost start = s@;
    push_colour(s, "\x1b[38;2;", colour.r, colour.g, colour.b);
    let ghost acc = ansi_colour("\x1b[38;2;"@, colour.r, colour.g, colour.b);
    push_flag(s, bold, "\x1b[1m");
    proof { lemma_add_assoc(start, acc, ansi_flag(bold, "\x1b[1m"@)); }
    let ghost acc = acc + ansi_flag(bold, "\x1b[1m"@);
    push_flag(s, italic, "\x1b[3m");
    proof { lemma_add_assoc(start, acc, ansi_flag(italic, "\x1b[3m"@)); }
    let ghost acc = acc + ansi_flag(italic, "\x1b[3m"@);
    push_flag(s, underline, "\x1b[4m");
    proof { lemma_add_assoc(start, acc, ansi_flag(underline, "\x1b[4m"@)); }
    let ghost acc = acc + ansi_flag(underline, "\x1b[4m"@);
    push_flag(s, strike, "\x1b[9m");
    proof { lemma_add_assoc(start, acc, ansi_flag(strike, "\x1b[9m"@)); }
    let ghost acc = acc + ansi_flag(strike, "\x1b[9m"@);
    push_flag(s, obfuscate, "\x1b[5m");
    proof { lemma_add_assoc(start, acc, ansi_flag(obfuscate, "\x1b[5m"@)); }
    let ghost acc = acc + ansi_flag(obfuscate, "\x1b[5m"@);
    let ghost tail = match shadow {
        Option::Some(a) => ansi_colour("\x1b[48;2;"@, a.r, a.g, a.b),
        Option::None => Seq::<char>::empty(),
    };
    match shadow {
        Some(a) => {
            push_colour(s, "\x1b[48;2;", a.r, a.g, a.b);
        },
        None => {
            assert(s@ + tail =~= s@);
        },
    }
    proof { lemma_add_assoc(start, acc, tail); }
}

/// Appending is associative.
proof fn lemma_add_assoc(a: Seq<char>, b: Seq<char>, c: Seq<char>)
    ensures
        (a + b) + c == a + (b + c),
{
    assert((a + b) + c =~= a + (b + c));
}

impl TextContent {
    /// What the content shows on a terminal.
    pub fn to_string(&self) -> (r: String)
        ensures
            r@ == content_display(super::content_model(*self)),
    {
        let mut r = String::new();
        match self {
            TextContent::Literal { text } => r.push_str(text.as_str()),
            TextContent::Translate { key, .. } => r.push_str(key.as_str()),
            TextContent::Keybind { id } => r.push_str(id.as_str()),
        }
        assert(r@ =~= content_display(super::content_model(*self)));
        r
    }
}

impl TextComponent {
    /// Appends the component's colour, decorations and content.
    fn push_unwrapped(&self, s: &mut String)
        ensures
            final(s)@ == old(s)@ + component_ansi_body(self@),
    {
        let st = &self.style;
        push_style(s, st.colour, st.bold, st.italic, st.underline, st.strike, st.obfuscate, st.shadow);
        let content = self.content.to_string();
        s.push_str(content.as_str());
        assert(final(s)@ =~= old(s)@ + component_ansi_body(self@));
    }

    /// The component for a terminal, between two resets.
    pub fn to_string(&self) -> (r: String)
        ensures
            r@ == component_ansi(self@),
    {
        let mut s = String::new();
        s.push_str("\x1b[0m");
        self.push_unwrapped(&mut s);
        s.push_str("\x1b[0m");
        assert(s@ =~= component_ansi(self@));
        s
    }
}

impl Text {
    /// The text for a terminal: empty for an empty text, otherwise a reset followed by
    /// each component and a reset after it.
    pub fn to_string(&self) -> (r: String)
        ensures
            r@ == text_ansi(self@),
    {
        let mut s = String::new();
        proof {
            lemma_components_model(self.components@);
        }
        if self.components.len() == 0 {
            return s;
        }
        s.push_str("\x1b[0m");
        let mut i: usize = 0;
        assert(self@.take(0) =~= Seq::<ComponentModel>::empty());
        while i < self.components.len()
            invariant
                i <= self.components@.len(),
                self@.len() == self.components@.len(),
                forall|j: int| 0 <= j < self.components@.len() ==> #[trigger] self@[j] == self.components@[j]@,
                s@ == ansi_reset() + components_ansi(self@.take(i as int)),
            decreases self.components@.len() - i,
        {
            self.components[i].push_unwrapped(&mut s);
            s.push_str("\x1b[0m");
            assert(self@.take(i + 1).drop_last() =~= self@.take(i as int));
            assert(self@.take(i + 1).last() == self@[i as int]);
            i += 1;
        }
        assert(self@.take(i as int) =~= self@);
        s
    }
}


/// Each decoration has its own escape sequence, after the colour and in this order:
/// bold `ESC[1m`, italic `ESC[3m`, underline `ESC[4m`, strikethrough `ESC[9m`,
/// obfuscated `ESC[5m`; a shadow comes last as a background colour.
pub proof fn lemma_decoration_codes(
    colour: Rgb,
    bold: bool,
    italic: bool,
    underline: bool,
    strike: bool,
    obfuscate: bool,
    shadow: Option<Argb>,
)
    ensures
        style_ansi(colour, bold, italic, underline, strike, obfuscate, shadow) == ansi_colour(
            seq!['\x1b', '[', '3', '8', ';', '2', ';'],
            colour.r,
            colour.g,
            colour.b,
        ) + (if bold { seq!['\x1b', '[', '1', 'm'] } else { Seq::empty() }) + (if italic {
            seq!['\x1b', '[', '3', 'm']
        } else {
            Seq::empty()
        }) + (if underline { seq!['\x1b', '[', '4', 'm'] } else { Seq::empty() }) + (if strike {
            seq!['\x1b', '[', '9', 'm']
        } else {
            Seq::empty()
        }) + (if obfuscate { seq!['\x1b', '[', '5', 'm'] } else { Seq::empty() }) + match shadow {
            Option::Some(a) => ansi_colour(seq!['\x1b', '[', '4', '8', ';', '2', ';'], a.r, a.g, a.b),
            Option::None => Seq::empty(),
        },
{
    reveal_strlit("\x1b[38;2;");
    reveal_strlit("\x1b[48;2;");
    reveal_strlit("\x1b[1m");
    reveal_strlit("\x1b[3m");
    reveal_strlit("\x1b[4m");
    reveal_strlit("\x1b[9m");
    reveal_strlit("\x1b[5m");
    assert("\x1b[38;2;"@ =~= seq!['\x1b', '[', '3', '8', ';', '2', ';']);
    assert("\x1b[48;2;"@ =~= seq!['\x1b', '[', '4', '8', ';', '2', ';']);
    assert("\x1b[1m"@ =~= seq!['\x1b', '[', '1', 'm']);
    assert("\x1b[3m"@ =~= seq!['\x1b', '[', '3', 'm']);
    assert("\x1b[4m"@ =~= seq!['\x1b', '[', '4', 'm']);
    assert("\x1b[9m"@ =~= seq!['\x1b', '[', '9', 'm']);
    assert("\x1b[5m"@ =~= seq!['\x1b', '[', '5', 'm']);
}


/// A colour sequence is its prefix, then red, green and blue in decimal separated by
/// `;`, then `m`.
pub proof fn lemma_colour_sequence_order(prefix: Seq<char>, r: u8, g: u8, b: u8)
    ensures
        ansi_colour(prefix, r, g, b) == prefix + decimal(r) + seq![';'] + decimal(g) + seq![';']
            + decimal(b) + seq!['m'],
{
    reveal_strlit(";");
    reveal_strlit("m");
    assert(";"@ =~= seq![';']);
    assert("m"@ =~= seq!['m']);
}

} // verus!

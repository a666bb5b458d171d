//! Properties of a radio group and the builder that makes them.

use vstd::prelude::*;
use crate::style::{Alignment, BorderType, Borders, Color};
use crate::strings::{copy_strings, strings_of};

verus! {

/// Border of the block that holds the radio group.
#[derive(Clone, Copy)]
pub struct BordersProps {
    /// Sides that have a border.
    pub borders: Borders,
    /// Line style of the border.
    pub variant: BorderType,
    /// Colour of the border.
    pub color: Color,
}

/// Title of the block that holds the radio group.
pub struct BlockTitle {
    /// Text of the title.
    pub text: String,
    /// Alignment of the title.
    pub alignment: Alignment,
}

impl BlockTitle {
    /// The title as its text and its alignment.
    pub open spec fn model(&self) -> (Seq<char>, Alignment) {
        (self.text@, self.alignment)
    }

    /// A title with the given text and alignment.
    pub fn new(text: &str, alignment: Alignment) -> (t: BlockTitle)
        ensures
            t.model() == (text@, alignment),
    {
        BlockTitle { text: text.to_owned(), alignment }
    }

    /// Text of the title.
    pub fn text(&self) -> (s: &str)
        ensures
            s@ == self.text@,
    {
        self.text.as_str()
    }

    /// Alignment of the title.
    pub fn alignment(&self) -> (a: Alignment)
        ensures
            a == self.alignment,
    {
        self.alignment
    }

    /// An equal title.
    pub fn duplicate(&self) -> (t: BlockTitle)
        ensures
            t.model() == self.model(),
    {
        BlockTitle { text: self.text.clone(), alignment: self.alignment }
    }
}

/// The properties of a radio group, as values.
pub struct PropsModel {
    pub visible: bool,
    pub foreground: Color,
    pub background: Color,
    pub borders: BordersProps,
    pub title: Option<(Seq<char>, Alignment)>,
    pub choices: Option<Seq<Seq<char>>>,
    pub value: Option<usize>,
    pub rewind: Option<bool>,
}

/// Properties of a radio group.
pub struct RadioProps {
    /// Whether the component is drawn.
    pub visible: bool,
    /// Colour of the selected choice when focused, of the text otherwise.
    pub foreground: Color,
    /// Background of the selected choice when focused.
    pub background: Color,
    /// Border of the block.
    pub borders: BordersProps,
    /// Title of the block, if any.
    pub title: Option<BlockTitle>,
    /// The choices, once some were given.
    pub choices: Option<Vec<String>>,
    /// Index to select, once one was given.
    pub value: Option<usize>,
    /// Whether moving past either end wraps around, once it was given.
    pub rewind: Option<bool>,
}

/// The title as values.
pub open spec fn title_model(t: Option<BlockTitle>) -> Option<(Seq<char>, Alignment)> {
    match t {
        Some(t) => Some(t.model()),
        None => None,
    }
}

/// The choices as values.
pub open spec fn choices_model(c: Option<Vec<String>>) -> Option<Seq<Seq<char>>> {
    match c {
        Some(v) => Some(v.deep_view()),
        None => None,
    }
}

impl View for RadioProps {
    type V = PropsModel;

    open spec fn view(&self) -> PropsModel {
        PropsModel {
            visible: self.visible,
            foreground: self.foreground,
            background: self.background,
            borders: self.borders,
            title: title_model(self.title),
            choices: choices_model(self.choices),
            value: self.value,
            rewind: self.rewind,
        }
    }
}

impl RadioProps {
    /// Equal properties.
    pub fn duplicate(&self) -> (r: RadioProps)
        ensures
            r@ == self@,
    {
        let title = match &self.title {
            Some(t) => Some(t.duplicate()),
            None => None,
        };
        let choices = match &self.choices {
            Some(c) => Some(copy_strings(c)),
            None => None,
        };
        RadioProps {
            visible: self.visible,
            foreground: self.foreground,
            background: self.background,
            borders: self.borders,
            title,
            choices,
            value: self.value,
            rewind: self.rewind,
        }
    }
}

/// Builder of the properties of a radio group.
///
/// Once `build` has handed out the properties, the builder holds none and
/// its setters do nothing.
pub struct RadioPropsBuilder {
    props: Option<RadioProps>,
}

impl View for RadioPropsBuilder {
    type V = Option<PropsModel>;

    closed spec fn view(&self) -> Option<PropsModel> {
        match self.props {
            Some(p) => Some(p@),
            None => None,
        }
    }
}

impl RadioPropsBuilder {
    /// Whether the builder still holds properties, which `build` needs.
    pub fn has_props(&self) -> (b: bool)
        ensures
            b == self@ is Some,
    {
        self.props.is_some()
    }

    /// Hand out the properties built so far; the builder is left empty.
    pub fn build(&mut self) -> (p: RadioProps)
        requires
            old(self)@ is Some,
        ensures
            p@ == old(self)@.unwrap(),
            final(self)@ is None,
    {
        self.props.take().unwrap()
    }

    /// Make the component hidden.
    pub fn hidden(&mut self) -> (r: &mut Self)
        ensures
            r@ == (match old(self)@ {
                Some(p) => Some(PropsModel { visible: false, ..p }),
                None => None,
            }),
            final(self)@ == final(r)@,
    {
        if let Some(props) = self.props.as_mut() {
            props.visible = false;
        }
        self
    }

    /// Make the component visible.
    pub fn visible(&mut self) -> (r: &mut Self)
        ensures
            r@ == (match old(self)@ {
                Some(p) => Some(PropsModel { visible: true, ..p }),
                None => None,
            }),
            final(self)@ == final(r)@,
    {
        if let Some(props) = self.props.as_mut() {
            props.visible = true;
        }
        self
    }

    /// Set the radio group colour.
    pub fn with_color(&mut self, color: Color) -> (r: &mut Self)
        ensures
            r@ == (match old(self)@ {
                Some(p) => Some(PropsModel { foreground: color, ..p }),
                None => None,
            }),
            final(self)@ == final(r)@,
    {
        if let Some(props) = self.props.as_mut() {
            props.foreground = color;
        }
        self
    }

    /// Set the inverted colour, the background of the selected choice.
    pub fn with_inverted_color(&mut self, color: Color) -> (r: &mut Self)
        ensures
            r@ == (match old(self)@ {
                Some(p) => Some(PropsModel { background: color, ..p }),
                None => None,
            }),
            final(self)@ == final(r)@,
    {
        if let Some(props) = self.props.as_mut() {
            props.background = color;
        }
        self
    }

    /// Set the border sides, line style and colour.
    pub fn with_borders(&mut self, borders: Borders, variant: BorderType, color: Color) -> (r:
        &mut Self)
        ensures
            r@ == (match old(self)@ {
                Some(p) => Some(
                    PropsModel { borders: BordersProps { borders, variant, color }, ..p },
                ),
                None => None,
            }),
            final(self)@ == final(r)@,
    {
        if let Some(props) = self.props.as_mut() {
            props.borders = BordersProps { borders, variant, color };
        }
        self
    }

    /// Set the choices of the radio group.
    pub fn with_options(&mut self, options: &[&str]) -> (r: &mut Self)
        ensures
            r@ == (match old(self)@ {
                Some(p) => Some(PropsModel { choices: Some(options.deep_view()), ..p }),
                None => None,
            }),
            final(self)@ == final(r)@,
    {
        if let Some(props) = self.props.as_mut() {
            props.choices = Some(strings_of(options));
        }
        self
    }

    /// Set the title of the block.
    pub fn with_title(&mut self, title: &str, alignment: Alignment) -> (r: &mut Self)
        ensures
            r@ == (match old(self)@ {
                Some(p) => Some(PropsModel { title: Some((title@, alignment)), ..p }),
                None => None,
            }),
            final(self)@ == final(r)@,
    {
        if let Some(props) = self.props.as_mut() {
            props.title = Some(BlockTitle::new(title, alignment));
        }
        self
    }

    /// Set the index of the choice selected at first.
    pub fn with_value(&mut self, index: usize) -> (r: &mut Self)
        ensures
            r@ == (match old(self)@ {
                Some(p) => Some(PropsModel { value: Some(index), ..p }),
                None => None,
            }),
            final(self)@ == final(r)@,
    {
        if let Some(props) = self.props.as_mut() {
            props.value = Some(index);
        }
        self
    }

    /// If true, moving before the first choice or beyond the last one wraps
    /// around.
    pub fn rewind(&mut self, rewind: bool) -> (r: &mut Self)
        ensures
            r@ == (match old(self)@ {
                Some(p) => Some(PropsModel { rewind: Some(rewind), ..p }),
                None => None,
            }),
            final(self)@ == final(r)@,
    {
        if let Some(props) = self.props.as_mut() {
            props.rewind = Some(rewind);
        }
        self
    }
}

/// The properties that a radio group starts from: visible, in the
/// terminal's default colours, with a plain border on every side, and no
/// title, choice, index or rewind given.
pub open spec fn default_props() -> PropsModel {
    PropsModel {
        visible: true,
        foreground: Color::Reset,
        background: Color::Reset,
        borders: BordersProps {
            borders: Borders { top: true, right: true, bottom: true, left: true },
            variant: BorderType::Plain,
            color: Color::Reset,
        },
        title: None,
        choices: None,
        value: None,
        rewind: None,
    }
}

impl Default for RadioProps {
    /// The toolkit's default properties.
    fn default() -> (p: Self)
        ensures
            p@ == default_props(),
    {
        RadioProps {
            visible: true,
            foreground: Color::Reset,
            background: Color::Reset,
            borders: BordersProps {
                borders: Borders::all(),
                variant: BorderType::Plain,
                color: Color::Reset,
            },
            title: None,
            choices: None,
            value: None,
            rewind: None,
        }
    }
}

impl Default for RadioPropsBuilder {
    /// The default properties, with black as the inverted colour.
    fn default() -> (b: Self)
        ensures
            b@ == Some(PropsModel { background: Color::Black, ..default_props() }),
    {
        let mut builder = RadioPropsBuilder { props: Some(RadioProps::default()) };
        builder.with_inverted_color(Color::Black);
        builder
    }
}

impl From<RadioProps> for RadioPropsBuilder {
    /// A builder that starts from the given properties.
    fn from(props: RadioProps) -> (b: Self)
        ensures
            b@ == Some(props@),
    {
        RadioPropsBuilder { props: Some(props) }
    }
}

impl vstd::std_specs::convert::FromSpecImpl<RadioProps> for RadioPropsBuilder {
    open spec fn obeys_from_spec() -> bool {
        true
    }

    closed spec fn from_spec(props: RadioProps) -> Self {
        RadioPropsBuilder { props: Some(props) }
    }
}

} // verus!

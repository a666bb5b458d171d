//! The radio group component: a group of choices to select one from.

use vstd::prelude::*;
use tuirealm::event::KeyEvent;
use crate::style::Color;
use crate::props::{BlockTitle, BordersProps, PropsModel, RadioProps};
use crate::states::{next_index, prev_index, kept_index, OwnStates};
use crate::strings::{copy_strings, str_slices};

verus! {

/// An input event, as the radio group tells them apart.
pub enum RadioInput {
    /// The right arrow key.
    Right,
    /// The left arrow key.
    Left,
    /// The enter key.
    Enter,
    /// Any other key.
    Key(KeyEvent),
    /// Any event that is not a key press.
    Other,
}

/// What the radio group reports after an event or an update.
#[derive(Debug, PartialEq, Eq)]
pub enum RadioMsg {
    /// The selection is now the given index.
    OnChange(usize),
    /// The given index was submitted.
    OnSubmit(usize),
    /// A key the radio group does not handle.
    OnKey(KeyEvent),
    /// Nothing to report.
    Nothing,
}

/// The choices that a radio group shows for the given properties.
pub open spec fn choices_of(p: PropsModel) -> Seq<Seq<char>> {
    match p.choices {
        Some(c) => c,
        None => Seq::empty(),
    }
}

/// Whether moving past either end wraps around, for the given properties.
pub open spec fn rewind_of(p: PropsModel) -> bool {
    p.rewind == Some(true)
}

/// The index selected after the choices of `p` replace the old ones while
/// `old_choice` was selected.
pub open spec fn choice_after_props(old_choice: usize, p: PropsModel) -> usize {
    match p.value {
        Some(v) => v,
        None => kept_index(old_choice, choices_of(p).len()),
    }
}

/// What a radio group whose selection is `choice` among `len` choices, and
/// which wraps around when `rewind`, does on `input`: the new selection and
/// the message.
pub open spec fn on_input(choice: usize, len: nat, rewind: bool, input: RadioInput) -> (
    usize,
    RadioMsg,
) {
    match input {
        RadioInput::Right => {
            let c = next_index(choice, len, rewind);
            (c, RadioMsg::OnChange(c))
        },
        RadioInput::Left => {
            let c = prev_index(choice, len, rewind);
            (c, RadioMsg::OnChange(c))
        },
        RadioInput::Enter => (choice, RadioMsg::OnSubmit(choice)),
        RadioInput::Key(k) => (choice, RadioMsg::OnKey(k)),
        RadioInput::Other => (choice, RadioMsg::Nothing),
    }
}

/// What to draw for a radio group.
pub struct RadioLayout {
    /// The choices, in order.
    pub choices: Vec<String>,
    /// Index of the highlighted choice.
    pub selected: usize,
    /// Colour of the block and of the text.
    pub block_color: Color,
    /// Foreground of the highlighted choice.
    pub highlight_fg: Color,
    /// Background of the highlighted choice.
    pub highlight_bg: Color,
    /// Colour of the border lines.
    pub border_color: Color,
    /// Border of the block.
    pub borders: BordersProps,
    /// Title of the block.
    pub title: Option<BlockTitle>,
    /// Whether the component has the focus.
    pub focus: bool,
}

/// A group of choices to select one from.
pub struct Radio {
    /// Properties of the component.
    pub props: RadioProps,
    /// States of the component.
    pub states: OwnStates,
}

impl Radio {
    /// A radio group with the given properties: its choices are those of the
    /// properties, and the index given there, else the first, is selected.
    pub fn new(props: RadioProps) -> (r: Radio)
        ensures
            r.props@ == props@,
            r.states.choices_model() == choices_of(props@),
            r.states.choice == choice_after_props(0, props@),
            props.value matches Some(v) ==> r.states.choice == v,
            props.value is None ==> r.states.choice == 0,
            !r.states.focus,
    {
        let mut states = OwnStates::default();
        match &props.choices {
            Some(c) => {
                let choices = str_slices(c);
                states.set_choices(choices.as_slice());
            },
            None => {
                let choices: Vec<&str> = Vec::new();
                states.set_choices(choices.as_slice());
                proof {
                    assert(choices.deep_view() == Seq::<Seq<char>>::empty());
                }
            },
        }
        if let Some(choice) = props.value {
            states.choice = choice;
        }
        Radio { props, states }
    }

    /// Whether moving past either end wraps around.
    fn rewind(&self) -> (b: bool)
        ensures
            b == rewind_of(self.props@),
            b <==> self.props.rewind == Some(true),
    {
        match self.props.rewind {
            Some(b) => b,
            None => false,
        }
    }

    /// What to draw: nothing when the component is hidden; otherwise the
    /// choices with the selected one highlighted. With the focus, the
    /// highlight is in the inverted colours, and the block and the border
    /// are coloured; without it, the highlight has the foreground colour and
    /// all else the terminal's default colour, `Color::Reset`.
    pub fn layout(&self) -> (l: Option<RadioLayout>)
        ensures
            l is None <==> !self.props.visible,
            l matches Some(l) ==> {
                &&& l.choices.deep_view() == self.states.choices_model()
                &&& l.selected == self.states.choice
                &&& l.focus == self.states.focus
                &&& l.borders == self.props.borders
                &&& crate::props::title_model(l.title) == crate::props::title_model(self.props.title)
                &&& self.states.focus ==> {
                    &&& l.highlight_fg == self.props.background
                    &&& l.highlight_bg == self.props.foreground
                    &&& l.block_color == self.props.foreground
                    &&& l.border_color == self.props.borders.color
                }
                &&& !self.states.focus ==> {
                    &&& l.highlight_fg == self.props.foreground
                    &&& l.highlight_bg == Color::Reset
                    &&& l.block_color == Color::Reset
                    &&& l.border_color == Color::Reset
                }
            },
    {
        if !self.props.visible {
            return None;
        }
        let focus = self.states.focus;
        let (bg, fg, block_color, border_color) = if focus {
            (
                self.props.foreground,
                self.props.background,
                self.props.foreground,
                self.props.borders.color,
            )
        } else {
            (
                Color::Reset,
                self.props.foreground,
                Color::Reset,
                Color::Reset,
            )
        };
        let title = match &self.props.title {
            Some(t) => Some(t.duplicate()),
            None => None,
        };
        Some(
            RadioLayout {
                choices: copy_strings(&self.states.choices),
                selected: self.states.choice,
                block_color,
                highlight_fg: fg,
                highlight_bg: bg,
                border_color,
                borders: self.props.borders,
                title,
                focus,
            },
        )
    }

    /// Replace the properties. The choices become those of the new
    /// properties; the selection becomes the index they give, else the old
    /// one if still valid, else the last choice. Reports the new selection
    /// when it differs from the old one.
    pub fn update(&mut self, props: RadioProps) -> (m: RadioMsg)
        ensures
            final(self).props@ == props@,
            final(self).states.choices_model() == choices_of(props@),
            final(self).states.choice == choice_after_props(old(self).states.choice, props@),
            props.value matches Some(v) ==> final(self).states.choice == v,
            props.value is None && old(self).states.choice < choices_of(props@).len()
                ==> final(self).states.choice == old(self).states.choice,
            props.value is None && old(self).states.choice >= choices_of(props@).len() > 0
                ==> final(self).states.choice == choices_of(props@).len() - 1,
            props.value is None && choices_of(props@).len() == 0 ==> final(self).states.choice
                == 0,
            final(self).states.focus == old(self).states.focus,
            m == (if final(self).states.choice != old(self).states.choice {
                RadioMsg::OnChange(final(self).states.choice)
            } else {
                RadioMsg::Nothing
            }),
    {
        let prev_index: usize = self.states.choice;
        match &props.choices {
            Some(c) => {
                let choices = str_slices(c);
                self.states.set_choices(choices.as_slice());
            },
            None => {
                let choices: Vec<&str> = Vec::new();
                self.states.set_choices(choices.as_slice());
                proof {
                    assert(choices.deep_view() == Seq::<Seq<char>>::empty());
                }
            },
        }
        if let Some(choice) = props.value {
            self.states.choice = choice;
        }
        self.props = props;
        if prev_index != self.states.choice {
            RadioMsg::OnChange(self.states.choice)
        } else {
            RadioMsg::Nothing
        }
    }

    /// A copy of the properties.
    pub fn get_props(&self) -> (p: RadioProps)
        ensures
            p@ == self.props@,
    {
        self.props.duplicate()
    }

    /// Handle an input event: the arrow keys move the selection and report
    /// it, enter submits it, another key is handed back, anything else is
    /// ignored.
    pub fn on(&mut self, ev: RadioInput) -> (m: RadioMsg)
        ensures
            (final(self).states.choice, m) == on_input(
                old(self).states.choice,
                old(self).states.choices@.len(),
                rewind_of(old(self).props@),
                ev,
            ),
            ev is Right ==> m == RadioMsg::OnChange(final(self).states.choice),
            ev is Right && old(self).states.choice + 1 < old(self).states.choices@.len()
                ==> final(self).states.choice == old(self).states.choice + 1,
            ev is Right && old(self).states.choice + 1 >= old(self).states.choices@.len()
                ==> final(self).states.choice == (if old(self).props.rewind == Some(true) {
                0
            } else {
                old(self).states.choice
            }),
            ev is Left ==> m == RadioMsg::OnChange(final(self).states.choice),
            ev is Left && old(self).states.choice > 0 ==> final(self).states.choice == old(
                self,
            ).states.choice - 1,
            ev is Left && old(self).states.choice == 0 ==> final(self).states.choice == (if old(
                self,
            ).props.rewind == Some(true) && old(self).states.choices@.len() > 0 {
                old(self).states.choices@.len() - 1
            } else {
                0
            }),
            ev is Enter ==> m == RadioMsg::OnSubmit(old(self).states.choice)
                && final(self).states.choice == old(self).states.choice,
            ev matches RadioInput::Key(k) ==> m == RadioMsg::OnKey(k) && final(self).states.choice
                == old(self).states.choice,
            ev is Other ==> m == RadioMsg::Nothing && final(self).states.choice == old(
                self,
            ).states.choice,
            final(self).states.choices@ == old(self).states.choices@,
            final(self).states.focus == old(self).states.focus,
            final(self).props == old(self).props,
    {
        match ev {
            RadioInput::Right => {
                let rewind = self.rewind();
                self.states.next_choice(rewind);
                RadioMsg::OnChange(self.get_state())
            },
            RadioInput::Left => {
                let rewind = self.rewind();
                self.states.prev_choice(rewind);
                RadioMsg::OnChange(self.get_state())
            },
            RadioInput::Enter => RadioMsg::OnSubmit(self.get_state()),
            RadioInput::Key(key) => RadioMsg::OnKey(key),
            RadioInput::Other => RadioMsg::Nothing,
        }
    }

    /// The index of the selected choice.
    pub fn get_state(&self) -> (c: usize)
        ensures
            c == self.states.choice,
    {
        self.states.choice
    }

    /// Remove the focus.
    pub fn blur(&mut self)
        ensures
            !final(self).states.focus,
            final(self).states.choice == old(self).states.choice,
            final(self).states.choices@ == old(self).states.choices@,
            final(self).props == old(self).props,
    {
        self.states.focus = false;
    }

    /// Give the focus.
    pub fn active(&mut self)
        ensures
            final(self).states.focus,
            final(self).states.choice == old(self).states.choice,
            final(self).states.choices@ == old(self).states.choices@,
            final(self).props == old(self).props,
    {
        self.states.focus = true;
    }
}

} // verus!

use radio_group::props::{BlockTitle, RadioPropsBuilder};
use radio_group::radio::{Radio, RadioInput, RadioMsg};
use radio_group::states::OwnStates;
use radio_group::style::{Alignment, BorderType, Borders, Color};

fn states_with(choices: &[&str], choice: usize) -> OwnStates {
    let mut s = OwnStates::default();
    s.set_choices(choices);
    s.choice = choice;
    s
}

#[test]
fn default_builder_uses_the_toolkit_defaults_and_black_inverted_color() {
    let props = RadioPropsBuilder::default().build();
    assert!(props.visible);
    assert_eq!(props.foreground, Color::Reset);
    assert_eq!(props.background, Color::Black);
    assert_eq!(props.borders.borders, Borders::all());
    assert_eq!(props.borders.variant, BorderType::Plain);
    assert_eq!(props.borders.color, Color::Reset);
    assert!(props.title.is_none());
    assert!(props.choices.is_none());
    assert!(props.value.is_none());
    assert!(props.rewind.is_none());
}

#[test]
fn builder_after_build_ignores_setters() {
    let mut builder = RadioPropsBuilder::default();
    assert!(builder.has_props());
    let props = builder.with_value(3).build();
    assert_eq!(props.value, Some(3));
    assert!(!builder.has_props());
    builder.with_value(4).hidden();
    assert!(!builder.has_props());
    let again = RadioPropsBuilder::from(props).build();
    assert_eq!(again.value, Some(3));
    assert!(again.visible);
}

#[test]
fn rewind_cycles_through_every_choice() {
    let choices: &[&str] = &["a", "b", "c"];
    let mut s = states_with(choices, 1);
    for _ in 0..3 {
        s.next_choice(true);
    }
    assert_eq!(s.choice, 1);
    s.next_choice(true);
    assert_eq!(s.choice, 2);
    s.next_choice(true);
    assert_eq!(s.choice, 0);
    s.prev_choice(true);
    assert_eq!(s.choice, 2);
    s.prev_choice(true);
    assert_eq!(s.choice, 1);
}

#[test]
fn moves_on_an_empty_group_stay_at_zero() {
    let mut s = OwnStates::default();
    s.next_choice(true);
    assert_eq!(s.choice, 0);
    s.next_choice(false);
    assert_eq!(s.choice, 0);
    s.prev_choice(true);
    assert_eq!(s.choice, 0);
    s.prev_choice(false);
    assert_eq!(s.choice, 0);
}

#[test]
fn moves_from_beyond_the_choices() {
    let choices: &[&str] = &["a", "b"];
    let mut s = states_with(choices, 5);
    s.next_choice(false);
    assert_eq!(s.choice, 5);
    s.next_choice(true);
    assert_eq!(s.choice, 0);
    let mut s = states_with(choices, 5);
    s.prev_choice(false);
    assert_eq!(s.choice, 4);
}

#[test]
fn set_choices_keeps_a_valid_index_and_is_idempotent() {
    let mut s = states_with(&["a", "b", "c"], 1);
    s.set_choices(&["x", "y"]);
    assert_eq!(s.choice, 1);
    assert_eq!(s.choices, vec![String::from("x"), String::from("y")]);
    s.set_choices(&["x"]);
    assert_eq!(s.choice, 0);
    s.set_choices(&["x"]);
    assert_eq!(s.choice, 0);
    assert_eq!(s.choices, vec![String::from("x")]);
}

#[test]
fn new_without_value_selects_the_first_choice() {
    let radio = Radio::new(
        RadioPropsBuilder::default()
            .with_options(&["a", "b"])
            .build(),
    );
    assert_eq!(radio.get_state(), 0);
    assert_eq!(radio.states.choices.len(), 2);
    let empty = Radio::new(RadioPropsBuilder::default().build());
    assert_eq!(empty.get_state(), 0);
    assert!(empty.states.choices.is_empty());
}

#[test]
fn new_keeps_an_out_of_range_value() {
    let radio = Radio::new(
        RadioPropsBuilder::default()
            .with_options(&["a", "b"])
            .with_value(7)
            .build(),
    );
    assert_eq!(radio.get_state(), 7);
}

#[test]
fn radio_with_rewind_wraps_around() {
    let mut radio = Radio::new(
        RadioPropsBuilder::default()
            .with_options(&["a", "b", "c"])
            .rewind(true)
            .build(),
    );
    assert_eq!(radio.on(RadioInput::Left), RadioMsg::OnChange(2));
    assert_eq!(radio.on(RadioInput::Right), RadioMsg::OnChange(0));
    assert_eq!(radio.on(RadioInput::Enter), RadioMsg::OnSubmit(0));
    assert_eq!(radio.get_state(), 0);
}

#[test]
fn update_moves_the_index_into_the_new_choices() {
    let mut radio = Radio::new(
        RadioPropsBuilder::default()
            .with_options(&["a", "b", "c"])
            .with_value(2)
            .build(),
    );
    radio.active();
    let msg = radio.update(
        RadioPropsBuilder::default()
            .with_options(&["a"])
            .build(),
    );
    assert_eq!(msg, RadioMsg::OnChange(0));
    assert_eq!(radio.get_state(), 0);
    assert!(radio.states.focus);
    let msg = radio.update(
        RadioPropsBuilder::default()
            .with_options(&["z", "y"])
            .build(),
    );
    assert_eq!(msg, RadioMsg::Nothing);
    assert_eq!(radio.states.choices, vec![String::from("z"), String::from("y")]);
}

#[test]
fn layout_of_a_hidden_radio_is_empty() {
    let radio = Radio::new(RadioPropsBuilder::default().hidden().build());
    assert!(radio.layout().is_none());
}

#[test]
fn layout_inverts_colors_when_focused() {
    let mut radio = Radio::new(
        RadioPropsBuilder::default()
            .with_color(Color::Yellow)
            .with_inverted_color(Color::Blue)
            .with_title("pick", Alignment::Left)
            .with_options(&["a", "b"])
            .with_value(1)
            .build(),
    );
    let unfocused = radio.layout().unwrap();
    assert_eq!(unfocused.highlight_fg, Color::Yellow);
    assert_eq!(unfocused.highlight_bg, Color::Reset);
    assert_eq!(unfocused.block_color, Color::Reset);
    assert_eq!(unfocused.border_color, Color::Reset);
    assert_eq!(unfocused.selected, 1);
    assert_eq!(unfocused.choices, vec![String::from("a"), String::from("b")]);
    assert_eq!(unfocused.title.as_ref().unwrap().text(), "pick");
    assert!(!unfocused.focus);
    radio.active();
    let focused = radio.layout().unwrap();
    assert_eq!(focused.highlight_fg, Color::Blue);
    assert_eq!(focused.highlight_bg, Color::Yellow);
    assert_eq!(focused.block_color, Color::Yellow);
    assert_eq!(focused.border_color, Color::Reset);
    assert!(focused.focus);
}

#[test]
fn block_title_keeps_text_and_alignment() {
    let title = BlockTitle::new("Omar", Alignment::Center);
    assert_eq!(title.text(), "Omar");
    assert_eq!(title.alignment(), Alignment::Center);
    let copy = title.duplicate();
    assert_eq!(copy.text(), "Omar");
    assert_eq!(copy.alignment(), Alignment::Center);
}

#[test]
fn get_props_is_a_copy() {
    let radio = Radio::new(
        RadioPropsBuilder::default()
            .with_options(&["a", "b"])
            .with_title("t", Alignment::Right)
            .rewind(true)
            .build(),
    );
    let props = radio.get_props();
    assert_eq!(props.choices, radio.props.choices);
    assert_eq!(props.rewind, Some(true));
    assert_eq!(props.title.unwrap().text(), "t");
}

#[test]
fn updating_twice_with_the_same_props_reports_no_change() {
    let mut radio = Radio::new(
        RadioPropsBuilder::default()
            .with_options(&["a", "b", "c", "d"])
            .with_value(3)
            .build(),
    );
    let props = RadioPropsBuilder::default().with_options(&["a", "b"]).build();
    let again = RadioPropsBuilder::from(props.duplicate()).build();
    assert_eq!(radio.update(props), RadioMsg::OnChange(1));
    assert_eq!(radio.update(again), RadioMsg::Nothing);
    assert_eq!(radio.get_state(), 1);
}

#[test]
fn default_props_are_the_toolkit_defaults() {
    let props = radio_group::props::RadioProps::default();
    assert!(props.visible);
    assert_eq!(props.foreground, Color::Reset);
    assert_eq!(props.background, Color::Reset);
    assert_eq!(props.borders.borders, Borders::all());
    assert_eq!(props.borders.variant, BorderType::Plain);
    assert_eq!(props.borders.color, Color::Reset);
    assert!(props.title.is_none() && props.choices.is_none());
    assert!(props.value.is_none() && props.rewind.is_none());
}

#[test]
fn border_sides() {
    let all = Borders::all();
    assert!(all.top && all.right && all.bottom && all.left);
    let none = Borders::none();
    assert!(!none.top && !none.right && !none.bottom && !none.left);
    assert_ne!(all, none);
}

use radio_group::props::RadioPropsBuilder;
use radio_group::radio::{Radio, RadioInput, RadioMsg};
use radio_group::states::OwnStates;
use tuirealm::event::{KeyCode, KeyEvent};
use radio_group::style::{Alignment, BorderType, Borders, Color};

#[test]
fn test_components_radio_states() {
    let mut states: OwnStates = OwnStates::default();
    assert_eq!(states.choice, 0);
    assert_eq!(states.choices.len(), 0);
    let choices: &[&str] = &["lemon", "strawberry", "vanilla", "chocolate"];
    states.set_choices(choices);
    assert_eq!(states.choice, 0);
    assert_eq!(states.choices.len(), 4);
    // Move
    states.prev_choice(false);
    assert_eq!(states.choice, 0);
    states.next_choice(false);
    assert_eq!(states.choice, 1);
    states.next_choice(false);
    assert_eq!(states.choice, 2);
    // Forward overflow
    states.next_choice(false);
    states.next_choice(false);
    assert_eq!(states.choice, 3);
    states.prev_choice(false);
    assert_eq!(states.choice, 2);
    // Update
    let choices: &[&str] = &["lemon", "strawberry"];
    states.set_choices(choices);
    assert_eq!(states.choice, 1); // Move to first index available
    assert_eq!(states.choices.len(), 2);
    let choices: &[&str] = &[];
    states.set_choices(choices);
    assert_eq!(states.choice, 0); // Move to first index available
    assert_eq!(states.choices.len(), 0);
    // Rewind
    let choices: &[&str] = &["lemon", "strawberry", "vanilla", "chocolate"];
    states.set_choices(choices);
    assert_eq!(states.choice, 0);
    states.prev_choice(true);
    assert_eq!(states.choice, 3);
    states.next_choice(true);
    assert_eq!(states.choice, 0);
    states.next_choice(true);
    assert_eq!(states.choice, 1);
    states.prev_choice(true);
    assert_eq!(states.choice, 0);
}

#[test]
fn test_components_radio() {
    // Make component
    let mut component: Radio = Radio::new(
        RadioPropsBuilder::default()
            .hidden()
            .visible()
            .with_color(Color::Red)
            .with_inverted_color(Color::Blue)
            .with_borders(Borders::all(), BorderType::Double, Color::Red)
            .with_title("C'est oui ou bien c'est non?", Alignment::Center)
            .with_options(&["Oui!", "Non", "Peut-être"])
            .with_borders(Borders::all(), BorderType::Double, Color::Red)
            .with_value(1)
            .rewind(false)
            .build(),
    );
    assert_eq!(component.props.foreground, Color::Red);
    assert_eq!(component.props.background, Color::Blue);
    assert_eq!(component.props.visible, true);
    assert_eq!(component.props.borders.borders, Borders::all());
    assert_eq!(component.props.borders.variant, BorderType::Double);
    assert_eq!(component.props.borders.color, Color::Red);
    assert_eq!(component.props.rewind.unwrap(), false);
    assert_eq!(
        component.props.title.as_ref().unwrap().text(),
        "C'est oui ou bien c'est non?"
    );
    assert_eq!(
        component.props.title.as_ref().unwrap().alignment(),
        Alignment::Center
    );
    assert_eq!(
        component.props.choices.as_ref().unwrap(),
        &vec![
            String::from("Oui!"),
            String::from("Non"),
            String::from("Peut-être"),
        ]
    );
    assert_eq!(component.props.value.unwrap(), 1);
    // Verify states
    assert_eq!(component.states.choice, 1);
    assert_eq!(component.states.choices.len(), 3);
    // Focus
    assert_eq!(component.states.focus, false);
    component.active();
    assert_eq!(component.states.focus, true);
    component.blur();
    assert_eq!(component.states.focus, false);
    // Update
    let props = RadioPropsBuilder::from(component.get_props())
        .with_color(Color::Red)
        .hidden()
        .build();
    assert_eq!(component.update(props), RadioMsg::Nothing);
    assert_eq!(component.props.foreground, Color::Red);
    assert_eq!(component.props.visible, false);
    let props = RadioPropsBuilder::from(component.get_props())
        .with_value(2)
        .hidden()
        .build();
    assert_eq!(component.update(props), RadioMsg::OnChange(2));
    // Get value
    component.states.choice = 1;
    assert_eq!(component.get_state(), 1);
    // Handle events
    assert_eq!(component.on(RadioInput::Left), RadioMsg::OnChange(0));
    assert_eq!(component.get_state(), 0);
    // Left again
    assert_eq!(component.on(RadioInput::Left), RadioMsg::OnChange(0));
    assert_eq!(component.get_state(), 0);
    // Right
    assert_eq!(component.on(RadioInput::Right), RadioMsg::OnChange(1));
    assert_eq!(component.get_state(), 1);
    // Right again
    assert_eq!(component.on(RadioInput::Right), RadioMsg::OnChange(2));
    assert_eq!(component.get_state(), 2);
    // Right again
    assert_eq!(component.on(RadioInput::Right), RadioMsg::OnChange(2));
    assert_eq!(component.get_state(), 2);
    // Submit
    assert_eq!(component.on(RadioInput::Enter), RadioMsg::OnSubmit(2));
    // Any key
    assert_eq!(
        component.on(RadioInput::Key(KeyEvent::from(KeyCode::Char('a')))),
        RadioMsg::OnKey(KeyEvent::from(KeyCode::Char('a'))),
    );
    assert_eq!(component.on(RadioInput::Other), RadioMsg::Nothing);
}

# radio_group

A radio group component for terminal user interfaces built with tui-realm:
a row of choices, of which one is selected, moved with the arrow keys and
submitted with enter.

- `src/states.rs`: the selection state and how it moves (`next_choice`,
  `prev_choice`, `set_choices`).
- `src/props.rs`: the component's properties and their builder.
- `src/radio.rs`: the component: construction, update, event handling and
  what to draw.
- `src/laws.rs`: properties of the selection logic as a whole.
- `src/style.rs`: colours, border sides and styles, and title alignments as
  plain values; `app/` turns them into the terminal toolkit's types.
- `app/`: glue to tui-realm's `Component` trait, terminal events and drawing.

use springwood::catalog::{Catalog, CatalogError};
use springwood::event::{Event, EventSource, Key};
use springwood::interface::Copyright;
use springwood::session::{command_of, App, Command};

fn sample_catalog() -> Catalog {
    // {"A": ["x", "y"], "B": []}
    Catalog::new(
        vec!["A".to_string(), "B".to_string()],
        vec![vec!["x".to_string(), "y".to_string()], vec![]],
    )
    .unwrap()
}

#[test]
fn catalog_rejects_empty() {
    match Catalog::new(vec![], vec![]) {
        Err(e) => assert_eq!(e, CatalogError::NoLists),
        Ok(_) => panic!("an empty catalog must be rejected"),
    }
}

#[test]
fn catalog_rejects_mismatched_rows() {
    match Catalog::new(vec!["A".to_string()], vec![]) {
        Err(e) => assert_eq!(e, CatalogError::Mismatched),
        Ok(_) => panic!("mismatched rows must be rejected"),
    }
}

#[test]
fn catalog_accessors() {
    let c = sample_catalog();
    assert_eq!(c.list_count(), 2);
    assert_eq!(c.names_vec(), vec!["A".to_string(), "B".to_string()]);
    assert_eq!(c.entries_of(0), vec!["x".to_string(), "y".to_string()]);
    assert_eq!(c.entries_of(1), Vec::<String>::new());
}

#[test]
fn command_mapping() {
    assert_eq!(command_of(Event::Input(Key::Left)), Command::PrevList);
    assert_eq!(command_of(Event::Input(Key::Right)), Command::NextList);
    assert_eq!(command_of(Event::Input(Key::Up)), Command::PrevEntry);
    assert_eq!(command_of(Event::Input(Key::Down)), Command::NextEntry);
    assert_eq!(command_of(Event::Input(Key::Char('q'))), Command::Quit);
    assert_eq!(command_of(Event::Input(Key::Char('Q'))), Command::Quit);
    assert_eq!(command_of(Event::Input(Key::Char('x'))), Command::Nothing);
    assert_eq!(command_of(Event::Input(Key::Other)), Command::Nothing);
    assert_eq!(command_of(Event::Tick), Command::Nothing);
}

#[test]
fn scenario_two_lists() {
    // Catalog {"A": ["x","y"], "B": []}; start at list "A", entry 0.
    let catalog = sample_catalog();
    let mut app = App::new();
    app.refresh(&catalog);
    assert_eq!(app.menu.repr(), "A");
    assert_eq!(app.entry.selected, Some(0));
    assert_eq!(app.entry.entries, vec!["x".to_string(), "y".to_string()]);

    // Down moves to entry 1 ("y").
    assert!(!app.step(Event::Input(Key::Down)));
    assert_eq!(app.entry.selected, Some(1));
    assert_eq!(app.entry.entries[1], "y");

    // Down again wraps back to entry 0 ("x").
    assert!(!app.step(Event::Input(Key::Down)));
    assert_eq!(app.entry.selected, Some(0));
    assert_eq!(app.entry.entries[0], "x");

    // Right switches to "B": cursor reset, zero items in the panel.
    assert!(!app.step(Event::Input(Key::Right)));
    app.refresh(&catalog);
    assert_eq!(app.menu.repr(), "B");
    assert_eq!(app.entry.selected, Some(0));
    assert_eq!(app.entry.entries.len(), 0);

    // Left goes back to "A": the cursor is reset, not restored to "y".
    assert!(!app.step(Event::Input(Key::Left)));
    app.refresh(&catalog);
    assert_eq!(app.menu.repr(), "A");
    assert_eq!(app.entry.selected, Some(0));

    // Q quits without moving anything.
    assert!(app.step(Event::Input(Key::Char('Q'))));
    assert_eq!(app.menu.selected, 0);
    assert_eq!(app.entry.selected, Some(0));
}

#[test]
fn switch_through_empty_list_lands_on_first_entry() {
    // Switching to a 0-entry list, then to one with entries, yields entry 0.
    let catalog = sample_catalog();
    let mut app = App::new();
    app.refresh(&catalog);
    app.step(Event::Input(Key::Down));
    assert_eq!(app.entry.selected, Some(1));
    app.step(Event::Input(Key::Right));
    app.refresh(&catalog);
    assert_eq!(app.entry.entries.len(), 0);
    app.step(Event::Input(Key::Up));
    assert_eq!(app.entry.selected, Some(0));
    app.step(Event::Input(Key::Right));
    app.refresh(&catalog);
    assert_eq!(app.menu.repr(), "A");
    assert_eq!(app.entry.selected, Some(0));
    assert_eq!(app.entry.entries.len(), 2);
}

#[test]
fn empty_entry_navigation_keeps_cursor_in_session() {
    let catalog = sample_catalog();
    let mut app = App::new();
    app.refresh(&catalog);
    app.step(Event::Input(Key::Right));
    app.refresh(&catalog);
    assert_eq!(app.entry.entries.len(), 0);
    assert!(!app.step(Event::Input(Key::Down)));
    assert_eq!(app.entry.selected, Some(0));
    assert!(!app.step(Event::Input(Key::Up)));
    assert_eq!(app.entry.selected, Some(0));
}

#[test]
fn tick_and_ignored_keys_move_nothing() {
    let catalog = sample_catalog();
    let mut app = App::new();
    app.refresh(&catalog);
    app.step(Event::Input(Key::Down));
    assert!(!app.step(Event::Tick));
    assert!(!app.step(Event::Input(Key::Char('z'))));
    assert!(!app.step(Event::Input(Key::Other)));
    assert_eq!(app.menu.selected, 0);
    assert_eq!(app.entry.selected, Some(1));
}

#[test]
fn frame_turns_the_loop() {
    let catalog = sample_catalog();
    let caption = Copyright::from("Springwood CLI 2021 - all rights reserved");
    let mut app = App::new();

    // The primed first turn: nothing moves, the first views appear.
    let (menu, panel, footer, quit) = app.frame(&catalog, &caption, Event::Tick);
    assert!(!quit);
    assert_eq!(menu.titles, vec!["A".to_string(), "B".to_string()]);
    assert_eq!(menu.selected, 0);
    assert_eq!(panel.title, "A");
    assert_eq!(panel.items, vec!["x".to_string(), "y".to_string()]);
    assert_eq!(panel.highlighted, Some(0));
    assert_eq!(panel.highlight_symbol, "> ");
    assert_eq!(footer.text, "Springwood CLI 2021 - all rights reserved");

    // Right switches to "B": the next frame titles it, with zero items.
    let (menu2, panel2, _footer2, quit2) = app.frame(&catalog, &caption, Event::Input(Key::Right));
    assert!(!quit2);
    assert_eq!(menu2.selected, 1);
    assert_eq!(panel2.title, "B");
    assert_eq!(panel2.items.len(), 0);
    assert_eq!(panel2.highlighted, Some(0));

    // Q ends the loop.
    let (_menu3, _panel3, _footer3, quit3) =
        app.frame(&catalog, &caption, Event::Input(Key::Char('q')));
    assert!(quit3);
}

#[test]
fn event_source_tick_advances_deadline() {
    // No key by the deadline: exactly one Tick, deadline moves by one tick.
    let mut source = EventSource::new(200, 1000);
    assert_eq!(source.deadline, 1200);
    let e = source.on_wait(None);
    assert_eq!(e, Event::Tick);
    assert_eq!(source.deadline, 1400);
    assert_eq!(source.tick_rate, 200);
}

#[test]
fn event_source_input_keeps_deadline() {
    // A key before the deadline: exactly one Input, the deadline stands.
    let mut source = EventSource::new(200, 1000);
    let e = source.on_wait(Some(Key::Down));
    assert_eq!(e, Event::Input(Key::Down));
    assert_eq!(source.deadline, 1200);
    let e2 = source.on_wait(Some(Key::Char('q')));
    assert_eq!(e2, Event::Input(Key::Char('q')));
    assert_eq!(source.deadline, 1200);
    let e3 = source.on_wait(None);
    assert_eq!(e3, Event::Tick);
    assert_eq!(source.deadline, 1400);
}

use signal::droppable::Droppable;
use signal::window::{window, ShowCommand, WindowBuilder};

#[test]
fn droppable_starts_at_zero() {
    let counter = Droppable::new("probe");
    assert_eq!(counter.name(), "probe");
    assert_eq!(counter.ticks(), 0);
}

#[test]
fn droppable_counts_ticks() {
    let mut counter = Droppable::new("probe");
    counter.tick();
    counter.tick();
    counter.tick();
    assert_eq!(counter.ticks(), 3);
    assert_eq!(counter.name(), "probe");
}

#[test]
fn droppable_default_is_called_default() {
    let counter = Droppable::default();
    assert_eq!(counter.name(), "default");
    assert_eq!(counter.ticks(), 0);
}

#[test]
fn window_starts_from_the_initial_settings() {
    let builder = window();
    assert_eq!(builder.title(), "New Window");
    assert_eq!(builder.size(), (500, 500));
    assert_eq!(builder.position(), (300, 300));
    assert_eq!(builder.show_commands(), Vec::<ShowCommand>::new());
    let builder = WindowBuilder::default();
    assert_eq!(builder.title(), "New Window");
    assert_eq!(builder.show_commands(), Vec::<ShowCommand>::new());
}

#[test]
fn window_minimized_then_maximized() {
    assert_eq!(window().minimized().show_commands(), vec![ShowCommand::Minimize]);
    assert_eq!(window().maximized().show_commands(), vec![ShowCommand::Maximize]);
    assert_eq!(
        window().maximized().minimized().show_commands(),
        vec![ShowCommand::Minimize, ShowCommand::Maximize]
    );
    assert_eq!(
        window().minimized().minimized().show_commands(),
        vec![ShowCommand::Minimize]
    );
}

#[test]
fn window_plan() {
    let plan = window().minimized().build();
    assert_eq!(plan.request.class_name, "NativeWindowsGuiWindow");
    assert_eq!(plan.request.window_name, "");
    assert_eq!((plan.request.x, plan.request.y), (300, 300));
    assert_eq!((plan.request.width, plan.request.height), (500, 500));
    assert_eq!((plan.request.style, plan.request.ex_style, plan.request.parent), (0, 0, 0));
    assert_eq!(plan.commands, vec![ShowCommand::Minimize]);
    assert_eq!(window().build().commands, Vec::<ShowCommand>::new());
}

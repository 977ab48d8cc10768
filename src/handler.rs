//! Key handling: navigation, quitting, and resolving lifecycle commands
//! against the selected VM.
use vstd::prelude::*;
use crate::app::{next_of, prev_of, App, TableData};

verus! {

/// A key as the dashboard reads it.
pub enum Key {
    Esc,
    Up,
    Down,
    Char(char),
    Other,
}

/// What the operator asks of the selected VM.
pub enum Action {
    /// Start it when it is off, stop it otherwise.
    Toggle,
    Start,
    Stop,
    Snapshot,
}

/// What the caller is to carry out after a key press.
pub enum Command {
    /// Nothing beyond the change of state already made.
    Idle,
    /// Close the connection to the host and leave.
    Quit,
    /// Start the VM of this name.
    Start(String),
    /// Stop the VM of this name.
    Stop(String),
    /// Take a snapshot of the VM of this name.
    Snapshot(String),
}

/// Why a command could not be resolved.
#[derive(PartialEq, Eq, Structural, Debug, Clone, Copy)]
pub enum DispatchError {
    /// The list is empty, so no VM is selected.
    NoSelection,
}

/// `c` is what `action` asks of the VM that `row` shows.
pub open spec fn resolves(action: Action, row: TableData, c: Command) -> bool {
    match action {
        Action::Toggle => if row.status@ == "off"@ {
            c matches Command::Start(n) && n@ == row.name@
        } else {
            c matches Command::Stop(n) && n@ == row.name@
        },
        Action::Start => c matches Command::Start(n) && n@ == row.name@,
        Action::Stop => c matches Command::Stop(n) && n@ == row.name@,
        Action::Snapshot => c matches Command::Snapshot(n) && n@ == row.name@,
    }
}

/// `r` is the outcome of `action` on the dashboard `app`.
pub open spec fn dispatched(action: Action, app: App, r: Result<Command, DispatchError>) -> bool {
    match app.selected {
        None => r == Err::<Command, DispatchError>(DispatchError::NoSelection),
        Some(i) => r matches Ok(c) && resolves(action, app.table_data@[i as int], c),
    }
}

/// Resolves `action` against the selected row.
///
/// The dashboard is left as it is: the host alone decides whether the VM
/// changes state, and the next tick shows it.
pub fn dispatch(action: Action, app: &App) -> (r: Result<Command, DispatchError>)
    requires
        app.wf(),
    ensures
        dispatched(action, *app, r),
        r is Err <==> app.selected is None,
{
    match app.selected {
        None => Err(DispatchError::NoSelection),
        Some(i) => {
            let row = &app.table_data[i];
            let name = row.name.clone();
            match action {
                Action::Toggle => if row.status.eq(&String::from_str("off")) {
                    Ok(Command::Start(name))
                } else {
                    Ok(Command::Stop(name))
                },
                Action::Start => Ok(Command::Start(name)),
                Action::Stop => Ok(Command::Stop(name)),
                Action::Snapshot => Ok(Command::Snapshot(name)),
            }
        },
    }
}

/// In an empty list nothing is selected, a move keeps it so, and every
/// action fails with `NoSelection`.
pub proof fn lemma_empty_list(app: App, action: Action, r: Result<Command, DispatchError>)
    requires
        app.wf(),
        app.table_data@.len() == 0,
        dispatched(action, app, r),
    ensures
        app.selected is None,
        next_of(app.selected, 0) is None,
        prev_of(app.selected, 0) is None,
        r == Err::<Command, DispatchError>(DispatchError::NoSelection),
{
}

/// Keys that end the session: Esc, `q`, and Ctrl with `c` or `C`.
pub open spec fn is_quit_key(key: Key, ctrl: bool) -> bool {
    match key {
        Key::Esc => true,
        Key::Char(c) => c == 'q' || (ctrl && (c == 'c' || c == 'C')),
        _ => false,
    }
}

/// Handles one key press; `ctrl` tells whether Ctrl was held.
///
/// Up and Down move the selection, `x` starts a VM that is off and stops
/// one that is on, `s` snapshots it, and the quit keys end the session.
/// Other keys change nothing.
pub fn handle_key_events(key: Key, ctrl: bool, app: &mut App) -> (r: Result<Command, DispatchError>)
    requires
        old(app).wf(),
    ensures
        final(app).wf(),
        is_quit_key(key, ctrl) ==> {
            &&& r == Ok::<Command, DispatchError>(Command::Quit)
            &&& !final(app).running
            &&& final(app).table_data == old(app).table_data
            &&& final(app).selected == old(app).selected
        },
        key is Up ==> {
            &&& r == Ok::<Command, DispatchError>(Command::Idle)
            &&& final(app).selected == prev_of(old(app).selected, old(app).table_data@.len() as int)
            &&& final(app).table_data == old(app).table_data
        },
        key is Down ==> {
            &&& r == Ok::<Command, DispatchError>(Command::Idle)
            &&& final(app).selected == next_of(old(app).selected, old(app).table_data@.len() as int)
            &&& final(app).table_data == old(app).table_data
        },
        key == Key::Char('x') ==> *final(app) == *old(app) && dispatched(Action::Toggle, *old(app), r),
        key == Key::Char('s') ==> *final(app) == *old(app) && dispatched(Action::Snapshot, *old(app), r),
        !is_quit_key(key, ctrl) && !(key is Up) && !(key is Down) && key != Key::Char('x') && key
            != Key::Char('s') ==> *final(app) == *old(app) && r == Ok::<Command, DispatchError>(Command::Idle),
{
    match key {
        Key::Esc => {
            app.quit();
            Ok(Command::Quit)
        },
        Key::Up => {
            app.prev();
            Ok(Command::Idle)
        },
        Key::Down => {
            app.next();
            Ok(Command::Idle)
        },
        Key::Char(c) => {
            if c == 'q' || (ctrl && (c == 'c' || c == 'C')) {
                app.quit();
                Ok(Command::Quit)
            } else if c == 'x' {
                dispatch(Action::Toggle, app)
            } else if c == 's' {
                dispatch(Action::Snapshot, app)
            } else {
                Ok(Command::Idle)
            }
        },
        Key::Other => Ok(Command::Idle),
    }
}

} // verus!

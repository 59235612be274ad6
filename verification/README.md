# Lift

The core of a tiling window manager for macOS, written in Rust and verified
with Verus: what the actors decide about windows, workspaces, displays and
input.

- `src/` is the library. Nothing in it talks to the system. Each function
  states what it does in its contract, and the laws of the library stand as
  public proof functions whose names begin with `law_`.
- `app/` is ordinary Rust around it: the actors' loops, channels, recordings
  and text formats, and the easing curves of animations. The operating system
  and the workspace model (which windows are on which workspace, and where a
  layout puts them) are reached through traits.
- `tests/` runs the library, the reactor with a small workspace model and
  simulated applications.

## How the reactor runs

A step of the reactor (`src/reactor`) changes the reactor's own state and
returns tasks (`src/reactor/task.rs`). A task tells another actor something,
puts a question to the system or to the workspace model, or names the work that
follows. Tasks are done in order; those that a piece of work leaves come before
the ones behind it. What the system looks like while a step is taken is handed
in as `Surroundings`.

A new configuration is put to the workspace model first. Only where the model
takes it over, with its rules, do the reactor and the other actors go by it.

The diagnostic log hears of user input, of each command from begin to end, of
what came of moving a window to a workspace, of new snapshots and of new
settings. What it is told are tasks too (`src/reactor/diagnostics.rs`); the log
itself is behind a trait.

## Units

Coordinates count 1/256 of a point. Times are milliseconds of a clock that
never goes back; animations count nanoseconds.

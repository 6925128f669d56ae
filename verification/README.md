# Scrollock

Progressive middle-button autoscroll for Wayland. Hold the middle button and
move the mouse: the wheel turns, the faster the further the mouse is from where
the button was pressed. A short click stays a click. A daemon grabs the physical
mouse, runs every event through a state machine, and sends what comes out to a
virtual mouse. It can be told to leave some applications alone.

## Layout

- `src/` is the library, written in Verus. Everything in it that decides or
  computes something has a contract that Verus proves: the engine and its laws
  (`engine.rs`, `laws.rs`), the configuration (`config.rs`, `config_loader.rs`),
  the way from input records to actions and back (`event_router.rs`,
  `virtual_mouse.rs`, `daemon.rs`), the foreground filter and what its providers
  read (`foreground/`), and the texts that the program writes (`service.rs`,
  `udev_rule.rs`, `detect.rs`, `device_discovery.rs`).
- `app/` is the program around it: command line, files, devices, sockets,
  processes and threads.
- `tests/` run the library.

## Numbers

Speeds and accumulators are IEEE 754 doubles. The library holds them as bits
(`Binary64`), compares them and cuts them down to whole numbers, but leaves their
arithmetic to the host: a tick hands out one `WheelTask` after another, and each
says which number it needs next. `app/wheel.rs` computes it.

## What is taken on trust

A handful of functions call other crates or the standard library; each says what
it claims of the call. They are in `json.rs` (`serde_json`), `record.rs` and
`device_discovery.rs` (`evdev`), and in `text.rs`, `paths.rs` and
`foreground/providers/sway_ipc.rs` (the standard library).

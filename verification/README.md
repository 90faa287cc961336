# lamco_rdp_server

The rules of an RDP server for Wayland desktops, verified with Verus: what is sent to a client
and when, how its input reaches the desktop, which way of sharing the desktop is chosen, how a
managed session is started, reused and stopped, and what the configuration window does with
each event.

## Layout

- `src/server`: frames and the graphics channel. `pipeline` is the loop that takes frames from
  the capture, `egfx_sender` addresses encoded frames, `display_handler` decides on sizes,
  `input_handler` on keys and pointers.
- `src/egfx`: what was negotiated with a client.
- `src/session`: the ways to share a desktop, and the choice between them.
- `src/clipboard`: what is announced, read and reported of the clipboard.
- `src/sesman`: the session manager as two machines, one that starts and one that stops.
- `src/gui`: the configuration window. Every event leads to a new state and at most one action.
- `src/security`: who gets in.
- `src/failure`: failures, each with the error that led to it beside its message.
- `src/text`, `src/text_map`, `src/paths`, `src/ids`: texts, maps, paths and identifiers.
- `app`: the programs around the library. They do the input and output, and hand the library
  plain values.
- `tests`: the library on concrete values.

## Reading the contracts

A machine has a state, events and actions. Its step function says in its postcondition which
state and which action follow. The code around it performs the action and hands the outcome
back as the next event, so a postcondition holds for every outcome.

Numbers with a fraction are carried as their bits (`Float32`, `Float64`): the library stores
and compares them, and never computes with them.

Public proof functions state what holds across functions. Their doc comments say it in words.

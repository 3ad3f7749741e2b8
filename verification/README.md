# Baudacious

The core of a PSK-31 ham radio client, in Rust, verified with Verus.

The library in `src/` makes the decisions of the program and proves what it promises of
them. It does no input or output of its own. Where a command has to touch a device, a file
or a thread, it runs in steps: the library says what to do next, the program around it does
that and reports what came of it.

- `domain` holds frequencies (as the exact numbers that their doubles denote), the sideband
  convention, settings and errors.
- `ports` holds the traits for serial ports and radios. A radio keeps a ghost log of every
  request, so contracts can say exactly what is asked of it, and in which order; and it can
  say how its state follows from that log, as the mock radio does.
- `adapters` holds the mock radio, the list of audio devices and the bookkeeping of audio
  streams.
- `commands` holds what the user interface can ask for: radio control (`radio`), the
  transmitter slot (`slot`), starting and stopping (`tx`), the transmitting threads
  (`tx_thread`, `playback`), and configuration profiles (`config`, `config_name`,
  `config_list`).
- `state` holds what the commands share.

Among the proved properties: a start that was stopped never gets the slot, and its thread
never keys the radio, whatever starts and stops happen at the same time; a thread that has
ended has left the radio unkeyed; every stop unkeys the radio, also after a panic; every
sample is played once and in order; no profile name leads out of the directory of the
profiles; what was saved under a name is found again under it.

With `MOCK_RADIO=1` in the environment the program starts with a mock radio, which logs
every request.

Two functions of the standard library are trusted, `str::trim` and
`char::is_alphanumeric`; their contracts stand in `commands/config_name.rs`.

`app/` is the desktop program around the library, and `tests/` runs the library on concrete
values.

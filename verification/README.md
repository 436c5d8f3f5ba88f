# ledctrl

Configuration and control logic for an audio-reactive LED strip, verified
with Verus.

- `src/config.rs`: generic and controller-specific settings with their
  defaults, `setup_device`, `transmit_type`, and the laws relating them.
- `src/console.rs`: the decisions of the console setup dialogue
  (whitespace trimming and the "s"/"d"/"q" and "y"/"n" answers).
- `src/leds.rs`: the random start-up strip, drawn with `rand`.
- `app/`: the program around the library: console and UDP I/O, terminal
  colours (`termcolor`) and the floating-point colour functions.

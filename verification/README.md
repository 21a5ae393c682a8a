# pandoc

A typed builder for the command line of the [pandoc](https://pandoc.org)
document converter, verified with Verus.

- `src/formats.rs`: input and output formats, markdown extensions and the
  values of a few options, each with the word pandoc expects.
- `src/options.rs`: the options of the command line and the arguments each
  one stands for.
- `src/text.rs`: decimal numbers, joined lists (through `itertools`) and the
  decoding of pandoc's output.
- `src/pandoc.rs`: the builder, the run of pandoc that a configuration
  stands for (arguments, `PATH`, standard input and output), the steps around
  the filters, and what a finished run gives back.
- `src/laws.rs`: what holds across the builder's operations.
- `app/`: spawning pandoc, writing its input and collecting its output.

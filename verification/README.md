# ext_whisper

Verified core of a PHP extension that runs whisper.cpp speech-to-text
in-process.

- `src/` (Verus): the strict 16kHz mono 16-bit PCM WAV reader (container
  parsing by `hound`), the option rules, the ordering of checks before a run,
  the error model (message and exception class of every error), and the
  transcript builder, with their contracts and laws.
- `app/`: the PHP bindings (`ext-php-rs`), the whisper.cpp calls
  (`whisper-rs`), file access, and the conversions to floating point
  (samples scaled into `[-1.0, 1.0]`, offsets in seconds).
- `tests/`: tests of the library.

# dng_convert

Converts camera raw files into DNG, and replaces the preview of a DNG with an edited one.

* `src/` is the verified library: parameters, the reproducible modification date, the choice of
  tags, and the course of a conversion as a sequence of actions and replies. Every function has
  a contract that Verus proves; `src/laws.rs` states what holds of every course.
* `app/` performs the actions: files, threads, the command line, and generated documentation.
  Raw decoding and TIFF writing come from an implementation of `Backend` in `app/backend.rs`.
* `tests/` runs the library on concrete inputs.

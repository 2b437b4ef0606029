# lyte_mastering

The decision and text-handling core of LYTE Mastering, a desktop tool that
masters tracks with PhaseLimiter and FFmpeg, written in Verus.

- `src/` is the library, verified by Verus: request limits (`rules`), the
  reading of PhaseLimiter and FFmpeg output (`logs`, `text`, `number`), command
  lines and filter graphs (`commands`), the overview waveform (`waveform`), the
  Auto profiles, their reports and the recommendation (`auto`), engine passes
  and waiting (`engine`), the calibration decisions (`calibration`), file and
  session names (`files`). Doubles are compared through their bit patterns (`float_bits`).
- `app/` is the Tauri shell: commands, files, child processes, and the
  floating-point arithmetic on levels and gains.
- `tests/` runs the library on concrete values.

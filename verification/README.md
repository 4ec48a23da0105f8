# pf_shell_core

The state of a game console's shell: what each input does to it, what it asks of
the services around it, and what it shows.

`src/` is the library. Every function in it is verified by Verus against a
contract over mathematical models, but for five wrappers and one declaration: the
calls into `sha2`, `png` and the case mappings of `std`, and `String::push`. What is
claimed of these is said above each of them and taken on trust.

- `state`, `catalog`, `ports`, `surface` and `scene` hold the types and their models.
- `text`, `cutting`, `textlist`, `textmap`, `clock` and `calendar` are what the rest
  is built from.
- `boot`, `titles`, `library`, `collection`, `history` and `playtime` deal with titles.
- `preferences`, `services`, `session` and `settings` take in what services report.
- `navigation`, `moves`, `activation` and `actions` say what an input does.
- `chrome`, `cards`, `motifs`, `art`, the `*_scene` modules and `stage` say what is
  shown.
- `laws`, `calls`, `manners` and `ownership` hold what is true of the shell as a whole;
  other laws stand beside what they speak of, and all are named `law_...`.
- `guards` tests at run time what inputs and scenes ask of the state.

`app/` measures text, finds the place of each node on a surface and talks to the
services of the device. It works with floating point and is not verified.

`tests/` runs the library on concrete values.

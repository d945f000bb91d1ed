# valex

Local development sites for PHP projects: `.test` domains resolved by
dnsmasq (through a systemd-resolved delegation), served by nginx or Caddy
through PHP-FPM.

## Layout

- `src/` is the verified library. Every setup is a script of operations
  (`script::Op`) built by a verified function whose contract gives the whole
  script; `script::Runner` carries a script out one action at a time,
  deciding from each outcome what comes next. Its behaviour is the spec
  function `script::step_spec`, and the laws of the runner are proved there.
- `app/` is the program around the library: the command line, the
  configuration files, the user's identity and directories, and the loop
  that performs the runner's actions (running commands, reading and writing
  files) and hands back what came of them.
- `tests/` runs the library on concrete values.

## Files the program reads

The templates that ship with the program (`dnsmasq.conf`, `nginx.conf` and
`valex-fpm.conf`) are read from a `stubs` directory beside the executable.

## Dependencies

`regex` is named in `Cargo.toml` though no code here calls it: `system_env`
builds it without Unicode support, with which its package-list patterns (they
use `\d` and `\s`) do not compile and reading a vendor's configuration panics.
Naming `regex` with its default features turns that support on for
`system_env` too.

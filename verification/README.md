# archinstaller

An Arch Linux installer whose plan and decisions are verified with Verus.

- `src/` is the library. Each part of the installation (partitioning and
  encryption, btrfs subvolumes, pacman, base packages, bootloader, zram,
  locale, keyboard, time zone, host name and host table) is a function that
  returns the list of steps it takes: outside actions (commands, file
  writes, copies), how each outcome is judged, and the message that goes
  with it. `eval` decides, for each reported outcome, whether installation
  goes on (and what is logged) or stops (with which message and exit code).
  Where later steps depend on what an earlier step reports (the btrfs
  subvolume listing, `/proc/cpuinfo`), the function takes that report as an
  argument: without it, it gives the steps up to the report; with it, the
  whole sequence, which begins with those steps. The contracts state every
  plan exactly; proof functions named `law_*`
  state properties that span steps and functions.
- `app/` is the program: it reads the device argument, performs the steps,
  and acts on the library's verdicts. The pacman hook and zram-generator
  configuration are read from `resources/` at run time.
- `tests/` runs the library on concrete values.

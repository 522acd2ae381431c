# system76-power

Power and graphics management for System76 laptops and desktops: power profiles,
fan curves, charge thresholds, graphics switching, display refresh rates.

- `src/` is the library, verified with Verus. Every decision the daemon and the
  command line take is a function there with a contract: which files a profile
  writes and with what, how a fan curve maps a temperature to a duty, how the
  configuration files are read and written, which session and display mode the
  display logic picks, what each command asks of the daemon and prints.
  Operations that touch the system return plans (`sysfs::SysfsWrite`, argument
  lists) instead of performing them.
- `app/` is the program around it: the command line (clap), the D-Bus service and
  client (zbus), and the loop that reads sysfs, carries out the library's plans and
  runs the external tools.
- `tests/` holds the tests of the library.

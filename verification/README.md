# netprintswitch

A Windows tray utility that associates networks (Wi-Fi SSIDs, Ethernet profile names)
with installed printers and offers to switch the default printer when a known network
connects.

- `src/` is the verified library: text normalisation and matching, the prompt policy that
  decides when to offer a switch, the pacing of network checks and retries, association
  editing, reading of command and JSON output, UTF-16 conversion for Windows calls, the texts the
  windows show, and the management window's state and settings edits. Each public function carries a contract checked by Verus;
  the proof functions state the library's laws.
- `app/` holds the Windows program around it: the tray window, the WinUI management window,
  running PowerShell and Task Scheduler, and reading and writing the configuration file.
- `tests/` exercises the library on concrete values.

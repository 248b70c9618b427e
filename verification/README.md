# tb_operator

The verified core of `tb-operator`, the terminal operator console of the
Telephone-Booth installation, written in Verus.

- `src/` is the library. The console's logic is written as functions with a
  contract: which screen a key leads to and what it asks for, the status-bar
  hints, the text of the overlays and of the screen bodies built from text
  and counts (status, settings, statistics, the list rows and the message,
  question, session, event and token detail panes, the Live System
  readouts, the Debug panels and the System Health notes), the Debug
  panel's merge of a polling round, the load state and
  selection of each data screen, paging and live-tail merging, polling
  cadence, the login phases, the first-run setup conversation, and the checks
  on what the operator types.
- `tests/` runs the library on concrete values.
- `app/` is the program around it: argument parsing, the terminal, the
  background requests to the operator API and the booth, drawing, and the
  figures measured in floating point (CPU usage and load, temperatures,
  audio levels, the charts of System Health), which it formats and hands to
  the library as text, since the library does not model floats.

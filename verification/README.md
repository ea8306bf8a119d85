# persona_exporter

A lightweight push-model exporter of machine metrics (CPU, memory, disks,
network, temperature sensors, processes, system facts), sending a report at a
fixed interval as JSON or InfluxDB line protocol.

The library under `src/` is verified with Verus:

- `config` — the configuration model, its built-in defaults, the path named by
  the environment, and the choice of the configuration file's path.
- `metric_types` — the report records; floating-point readings are held as
  IEEE-754 bit patterns.
- `platforms::os::methods::metrics::*` — one collection step per category,
  from plain readings of the operating system into the report; the process
  list is ordered by the configured criterion (CPU share in IEEE-754 total
  order) and cut to its limit; the main network interface is the busiest
  candidate.
- `platforms::os::methods` — the report buffers the configuration calls for,
  the target host, the push request (the URL's own query followed by the
  configured parameters, deduplicated and ordered; headers in order), the
  line-protocol plan and line contents.
- `platforms::os::collector` — what one collection cycle collects, and the
  cycle itself: each collected record is cleared and refilled from the
  cycle's readings alone.
- `metrics`, `paths` — the main disk, chosen by its mount point, with paths
  compared by their components.
- `text` — prefixes, joins and lexicographic order over characters.

`app/` is the program around it: reading the configuration file and the
environment, reading the operating system through `sysinfo`, the timer loop,
rendering line protocol and JSON, and sending the request with `surf`.

# gufo_agent

A lightweight monitoring agent: collectors take measures, a scheduler runs
them at their intervals, and a sender exposes the latest values as an
openmetrics endpoint.

The library under `src/` holds the agent's logic with its contracts, proved
by Verus:

- `label`, `measure`, `mdb`: labels, measures, and the metrics database with
  its openmetrics text;
- `config`, `discovery`, `registry`, `resolver`, `agent`, `schedule`,
  `sender`: configuration, config discovery, the collector registry, the
  plan that starts and stops collectors, run timing and the sender's
  decisions;
- `relabel`, `pattern`, `sd`: relabeling, regular-expression rules and
  service discovery for scraping;
- the collectors' own logic: `host`, `fs`, `memory`, `counters`, `redis`,
  `mysql`, `mysql_query`, `postgres_query`, `pgstats`, `procstat`,
  `sqlrow`, `modbus_rtu`, `modbus_tcp`, `pkt`;
- `text` and `netaddr`: character sequences, decimal text and socket
  addresses.

`app/` is the program around it: command line, configuration files, the
collectors' system calls and the HTTP endpoint. `tests/` runs the library on
concrete values.

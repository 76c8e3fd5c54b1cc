# tproxy

A transparent proxy for TCP and UDP traffic redirected by TPROXY rules, with a
routing-loop detector: every socket address that the proxy owns on an outbound
connection must not show up as the source of an inbound one.

- `src/` is the verified library: socket addresses (`addr`), the detector and
  its guards (`detector`), the decision for accepted TCP streams
  (`tcp_proxy`), the handling of intercepted UDP datagrams (`udp_proxy`), the
  settings of every socket the proxy opens (`socket`) and the firewall marks
  (`mark`, `tcp::mark`).
- `app/` is the program: argument parsing, logging, the process-wide mark,
  creating sockets from the library's plans, and the async loops that accept,
  receive, relay and write back.
- `tests/` exercise the library on concrete values.

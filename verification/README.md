# nep-gw

A local gateway for NEP microinverters. It takes the telemetry that the inverters
post to the NEP cloud (45 bytes to `/i.php`, 69 bytes to `/t.php`), decodes it, and
hands the readings to Home Assistant over MQTT and to Prometheus. In dual-delivery
mode the raw posts are also relayed to the cloud.

* `src/` is the library, verified with Verus: checksums and payloads (`checksum`,
  `payload`), models and exact readings (`model`, `ratio`, `telemetry`), what is
  published (`discovery`, `mqtt`), what is relayed (`upstream`), how a post is
  answered (`handlers`, `clock`) and the configuration (`config`).
* `app/` is the daemon around it: sockets, the MQTT client, JSON and metrics.
* `tests/` runs the library.

Readings are kept as exact fractions; the daemon turns them into floating-point
numbers.

# tunnel-net

A TUN-device tunnel over TCP. The library in `src/` holds the logic, verified
with Verus; `app/` is the program around it (argument parsing, the TUN device
and its ioctl, running `ip`/`ifconfig`/`route`, and the `mio` event loops).

- `net`: source and destination addresses of IPv4 headers.
- `config`: the endpoint's settings, protocol names, and the role they select.
- `text`: decimal and dotted-quad notation, the host part of `host:port`.
- `ifname`: the name field of a TUN interface request, written and read back.
- `setup`: the commands that bring the device up and set the routes.
- `relay`: the buffer that collects one readiness event's worth of reads.
- `tcp`: event classification and the server's address-to-connection routes.

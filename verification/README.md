# w5500

A driver for the WIZnet W5500 Ethernet controller, split in two.

- `src/` is the verified core. It holds the register map and the SPI frame header
  (`register`), the byte order of register values (`endian`, on top of `byteorder`), IPv4 and
  MAC addresses as text (`address`), the bookkeeping of sockets and local ports and the plans
  that set up the chip (`device`), the TCP and UDP procedures as plans and stage machines
  (`tcp`, `udp`), the `Runner` that carries a plan out one SPI transfer at a time
  (`program`), and the order of the sockets (`order`). The choice of the next register access,
  and of when a procedure is done, is made here and stated in a contract.
- `app/` is the asynchronous driver around it: the chip select pin (`embedded-hal`), the SPI
  bus (`embedded-hal-async`), the transfers, the yielding, and the socket traits
  `IntoTcpSocket`, `IntoUdpSocket`, `Tcp` and `Udp`. It also decides what happens around a
  failed transfer: a reset frees the sockets only once its write went through, a socket that
  could not be opened is handed back to the caller, and a transfer error ends the procedure.
- `tests/` exercise the core on concrete values.

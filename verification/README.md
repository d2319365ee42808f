# kubos_apis

Protocol logic for a set of spacecraft hardware interfaces, written in Verus
and verified against its contracts:

- `mai400`: the MAI-400 ADACS: command framing (16-bit byte-sum checksum),
  telemetry messages, the rotating telemetry variables, and the reader that
  collects a message set from the serial link.
- `novatel`: the NovAtel OEM6 GPS receiver: the binary header, CRC-32
  framing, LOG/UNLOG/UNLOGALL commands, responses, logs, and the reading
  loop that routes messages to the response and log queues.
- `duplex_d2`: the NSL EyeStar-D2 radio: reply parsers, the file transfer
  format (CRC-16/XMODEM) and the geolocation record.
- `simplex_s3`: the NSL EyeStar-S3 radio: beacon framing and retries.
- `radio`: errors and the buffered reads of a radio connection.
- `nosengine`: the decisions of the NOSEngine simulation client (I2C, SPI,
  UART, data nodes).

Laws proved in the library include: a serialized OEM6 header parses back
to itself; a file encoding parses back to the file; a framed OEM6 message
read in the chunks the reader asks for is delivered, with its header and
body, to the right queue; the reader always asks for what it can take
next; a full rotation of 24 standard telemetry messages sets every rotating
value.

`app/` holds what Verus does not check: serial ports, threads and queues,
the NOSEngine C library, and the floating-point values.

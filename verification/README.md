# mqi

Building blocks of an IBM MQ interface library, proved with Verus.

- `src/` is the verified library: fixed width MQ strings (`mqstr`), the CCSID table and
  EBCDIC translation (`encoding`), message header chains (`headers`, `get`), the MQ
  structures and their versions (`structs`), connection, open, put, get, subscribe and
  inquiry parameters (`connect_options`, `builder`, `connect`, `open`, `put`,
  `get_options`, `subscribe`, `attribute`, `inq`), message properties (`properties`,
  `set_property`), status (`stat`), constant names and masks (`values`), bag and event
  handler decisions (`bag`, `callback`). Every function carries its contract; the `law_*`
  proof functions state properties that relate several functions.
- `tests/` runs the library on concrete values.
- `app/` makes the MQI calls through `libmqm-sys`: it hands the library's prepared
  parameters to the C structures, calls the queue manager, and returns the results to the
  library. It also gives the library's error types their messages.

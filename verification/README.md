# flight_sql_scenario

A Flight SQL server that accepts every call of the protocol and refuses each in a way its
peers can check. The library in `src/` decides, with contracts that Verus proves:

- `service`: what every call is answered, the check of the caller's token, and the one
  made-up result;
- `auth`, `metadata`: how the token is found in the metadata of a request and judged;
- `status`: the codes and texts of refusals;
- `fetch_results`, `wire`: the `FetchResults` message and its protobuf encoding;
- `command`: packed messages and the commands in them;
- `batch`, `info`: the tables that the server can hand out;
- `laws`: what holds of the service as a whole.

`app/` is the network side: it takes calls with `tonic`, asks the library, and sends the
answers.

The contracts of the functions of `arrow_flight`, `arrow_array`, `arrow_schema`, `prost` and
`tonic` that the library calls, and of std's `Debug` of `str`, are stated next to the calls and
are not proved.

# twsapi

A client library for the Interactive Brokers TWS API wire protocol, verified with Verus.

- `src/` is the verified library:
  - the NUL-separated field format and the length-prefixed framing of messages (`messages`,
    `reader`), decimal text of integers (`decimal`) and reading typed fields (`decoder`);
  - the decoding of incoming messages and their dispatch by message id (`incoming`,
    `interpret`), among them contract details, executions, prices, order status, portfolio
    values, positions, scanner results, market rules, historical bars, option chains, bond
    contract details, symbol samples and option computations (`contract_data`,
    `execution_data`, `market_data`, `portfolio`, `bond_data`, `symbol_samples`), and what
    the decoder's loop does with each received message (`receive`);
  - the messages of the client's requests with their connection and server-version checks
    (`requests`, `contract_requests`, `data_requests`, `place_order`, `server_versions`);
  - the encoding and decoding of order conditions (`order_condition`), the parameter lists of
    IB algorithms (`algo_params`), the connection state and handshake (`client`), the error
    codes (`errors`) and the protocol's enumerations and plain data types.
- `app/` holds the client around it: `EClient` (socket, handshake, sending requests), the
  reader and decoder threads, the `Wrapper` trait whose callbacks receive decoded messages,
  and the types that carry floating-point values, which it renders to and reads from the
  texts of their fields. Open and completed orders are decoded in the library
  (`order_decoding`); the client parses the floating-point texts, among them the scale price
  increment whose sign decides which fields follow it.
- `tests/` runs the library on concrete messages.

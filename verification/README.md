# request_processor

Answers the account requests of a Solana JSON-RPC service that keeps its accounts in a
database: one account, several accounts, or the accounts of a program that pass filters.

The library in `src/` is verified with Verus. It makes no query itself. A request begins
with a step that names what to fetch; the caller fetches it and hands the reply back, until
the request is done.

| module      | what it holds                                                              |
|-------------|----------------------------------------------------------------------------|
| `types`     | the data of requests, replies and answers, with their mathematical values   |
| `error`     | the errors of the service and how one becomes another                       |
| `account`   | how one account is answered, and which answers are refused                  |
| `filter`    | filters on program accounts, and the scan that they select accounts in      |
| `lookup`    | the lookup of one account, with the mint of a token account                 |
| `processor` | the requests                                                                |
| `laws`      | what holds of whole requests                                                |
| `outside`   | the calls into other crates, with what is taken as given of each            |

`app/` is the service around it: the interface to the database, the loops that run a request
against it, and the conversions to the types of the RPC protocol.

Functions whose names begin with `try_` can always be called. They return `None` (or `false`)
where their namesakes cannot be called: where a filter does not decode, where the account
encoder panics on an account, or where a request is not well-formed.

`Cargo.toml` names `chrono` and `url` to hold them to versions with fewer dependencies, and
`console` for the features that `solana-client` needs of it. None of them is used directly. `serde_json` reads
floating-point numbers back exactly, so that parsed account data is answered as it was parsed.

# omicron_crawler

The verified core of a LinkedIn crawler, written in Verus.

- `src/` is the library. It holds the crawler's data (profiles, searches,
  configuration, settings), its rules (search filters and paging, request
  pacing, the sign-in sequence, request signing for Azure Service Bus, the
  2Captcha requests, what each HTTP answer means) and the text it reads from
  pages, each function with a contract proved by Verus. Calls into outside
  crates (regex, urlencoding, base64, hmac/sha2, rand, thirtyfour's base64
  helper, url's query handling, the cookie store's `parse` and `get`) sit in
  `src/outside.rs` behind contracts that restate what those crates do.
- `app/` is the program around it: environment and files, HTTP through
  reqwest with a shared cookie store, browser sessions through thirtyfour, and the
  serde forms of the library's types.
- `tests/` runs the library on concrete values.

The session pool keeps its waiting sessions in a std `VecDeque`, handed out
through `&mut self` (app/ shares the pool under a `Mutex`). A lock-free
`ArrayQueue` from crossbeam, which changes its contents through `&self`, cannot
be given contracts over its contents for a pool that is generic in its session
type, so the pool's order and accounting are stated over the `VecDeque` instead.

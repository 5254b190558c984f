# voucher_claim

A command-line tool that claims a Tokopedia reward coupon at a chosen moment.
The user picks a mode (validate then redeem, redeem at once, or look the coupon
up by its slug first), an account cookie file and a start time; the tool counts
down to the start and then lets several workers send the redeem request, each
at most three times, until one of them is told the coupon is claimed.

- `src/` is the verified library (Verus): trimming and integer parsing, the
  mode menu, the cookie file choice, the request headers and GraphQL bodies,
  the reading of the JSON answers, the countdown and its display, moving the
  start to the next day, and the retry rules of the redeem workers.
- `app/` is the program around it: the command line, the terminal, the files,
  the clock, the HTTP client and the worker tasks.
- `tests/` runs the library on concrete values, several of them against
  `chrono` and `std` directly.

# url_monitor

A website availability monitor that reports outages and recoveries to a Feishu (Lark)
bot, with its decision logic verified by Verus.

- `src/` — the verified library:
  - `feishu_client` — the message builder, the text a message renders to, the webhook
    payload, the signature, and how a webhook reply is judged;
  - `messages` — service alerts and recovery notices (with per-URL templates), plain
    messages, the daily report, tables;
  - `monitor` — the per-URL alert state machine (failure threshold, retry until
    delivered, thirty-minute quiet period, recovery notices) and the bookkeeping of a
    round of checks; `alert_laws` — what holds of it over every state and run;
  - `checks` — what a URL check decides from the response, the body or the transport
    error, and its log line;
  - `settings` — environment values with their defaults, and the monitored URLs;
  - `text`, `clock`, `crypto` — character-level helpers, the local clock, HMAC-SHA256
    and base64.
- `app/` — the program: environment and file reading, HTTP requests, the check loop.
- `tests/` — tests of the library.

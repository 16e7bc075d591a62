# rm_login

The sign-in server of a student machine shop: browsers follow who is in the shop over
a websocket, people sign in and out by laying their ID card on an OMNIKEY reader, and
new people are enrolled with the next unregistered card.

- `src/` is the verified library:
  - `text`: splitting a request into words, decimal numerals;
  - `request`: the request grammar and the text of a card scan;
  - `queries`: the SQL texts;
  - `json`: the JSON texts sent to the browsers (string escaping through `serde_json`),
    and the law that a message's text reads back as the message;
  - `data_types`: the records;
  - `reader`: the reader's reply bytes, and the card-reader loop that scans each card once;
  - `handler`: the request handler as a state machine, with its laws;
  - `shop_db`: what the handler's statements do to the tables, and the law that two
    scans of a card restore its holder's presence.
- `app/` runs the server: pages, websockets, the MySQL connection, the USB reader, and
  the loop that performs the handler's actions.
- `tests/` exercise the library on concrete values.

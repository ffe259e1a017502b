# telegram_bot_oxidebot

A Telegram Bot API adapter for oxidebot, written for Bot API 10.2. Its rules are
verified with Verus.

- `src/` is the library. It turns what a bot wants into calls of the Bot API and
  turns answers and updates into what oxidebot speaks of. It makes no connection
  and reads no file: where it needs the bytes of a file, the answer to a call or
  the time, it takes them as arguments.
- `app/` is the adapter around the library: HTTP, files, the polling loop, the JSON
  of Telegram's types and the traits of oxidebot.
- `tests/` runs the library.

## The library

| module | what it holds |
| --- | --- |
| `json`, `document` | JSON documents, and reading and writing them |
| `text`, `utf16`, `uri`, `mime`, `time` | texts, UTF-16 offsets, addresses, media types, points in time |
| `content`, `conversation`, `interaction`, `application`, `commerce`, `collaboration`, `source` | the data of oxidebot |
| `telegram`, `utils` | the data of Telegram, and identifiers |
| `native` | parameters that are passed on as they are |
| `client`, `bot`, `web_app` | the client, starting and polling, Mini App data |
| `reading` | users, files, reactions and styled texts in Telegram's documents |
| `segment`, `event` | messages as segments, updates as events |
| `envelope`, `lifecycle` | messages with all that they carry, and what updates tell beside the events |
| `api` | the calls, one module for each group of them |

A call is a `Request`: a method and its parameters. Where a call needs files, the
library says which to find and then takes what was found. Where several calls are
needed, it gives them in order.

Every public function states what it gives back for every input. The proof
functions whose names start with `law_` state what holds across functions: that
no update is dropped, that native data of references, targets and options never
replaces portable fields, that texts keep to the limits that are reported, that
entities lie within the text they mark, that a styled text that was read can be
written again, that every new message is told with its envelope, that uploads are
referred to, that accepted Mini App data is authentic.

## Updates

An update gives events of two sorts. `event::parse_update` gives the events of
messages, notices, requests and interactions, and a raw event for all else.
`lifecycle::lifecycle_events` gives, beside them, what happens to messages
(ordinary, channel, Business and guest), reactions and their counts, topics,
pins, polls and votes, checklists, members and requests to join, inline queries,
Mini Apps and payments. An update of a subscription is told as its document: it
names no amount or user in a form that is known. An update that lacks what its
event would have to say gives none of this second sort.

A message is read into an envelope: its content with styles and media, its topic,
what it answers or was forwarded from, when it was sent and edited, the reactions
to it, what it pins, and the whole document.

A callback answer is addressed by its handle: the `callback_query_id` of the
handle stands in the call, also where native data of the answer names another.

What the library takes from other crates (JSON, base64, URIs, media types, dates,
HMAC) stands in small functions marked `external_body`; the comment above each
says what is claimed of the crate.

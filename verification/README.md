# lemmy_server

The account, site and federation rules of a link aggregator server, verified with
Verus.

Every flow of the server that talks to a database, a queue or another server is a state
machine in `src/`: the library says what to do next (an action), the program around it
does that and hands back what came of it (an event). The contracts say exactly which
action follows on which event; the files that end in `_laws.rs` state and prove what
holds of every run of a flow, whatever the events are, and of registrations that follow
one another.

| Module | What it is |
| --- | --- |
| `register`, `register_laws`, `register_history_laws` | a visitor gets an account |
| `edit_site`, `edit_site_laws` | an admin changes the site |
| `apub_person`, `apub_person_intake`, `apub_person_laws` | persons between the database and the protocol |
| `undo_follow`, `undo_follow_laws` | a person no longer follows a community |
| `init_tracing`, `init_tracing_laws` | what the server logs |
| `schema`, `protocol`, `time`, `error` | rows and forms, protocol objects, points in time, errors |
| `outside` | what is believed of URLs |

`app/` is the program around the library: it performs the actions through the traits of
`app/context.rs`, reads and writes activities as JSON, and sets up the log.

What is believed without proof, each with its reason in a doc comment:

- `url::Url` and its `clone` (`src/outside.rs`)
- `naive_local` of a `chrono` time (`src/time.rs`)
- `Targets` and `ParseError` of `tracing_subscriber`, and how a text is read as
  `Targets` (`src/init_tracing.rs`)
- `trim` and `trim_matches` of strings (`src/init_tracing.rs`)

# tfchain_exporter

Counts the events of the finalized blocks of the ThreeFold chain and exports the counts in the
Prometheus text format. The library is written in Verus; the program around it connects to the
nodes and serves the metrics on port 9101.

## The library (`src/`)

- `network`: the networks, their endpoints and names.
- `smart_contract`, `grid`, `key_value`, `bridge`, `events`: the events of a block, and the series
  that each of them is counted in.
- `totals`: what has been counted, as maps and numbers, and what each event adds to it.
- `catalogue`: the metrics by name, with their help texts.
- `distribution`: the metrics that are kept as floating point numbers, described in whole numbers.
- `client`: a client of one network, which counts events in Prometheus counters and shows them in
  a registry that never leaves it.
- `follow`: following the chain, one request and one report at a time.
- `exposition`, `scrape`, `http`: how the metrics appear among the exported samples, what a scrape
  of a client shows, and how requests are answered.
- `laws`: what holds of the totals whatever the events are.
- `prom`: the calls into the `prometheus` crate. What they do is taken on trust there; so is the
  call that gathers the metrics, in `client`.

## The program (`app/`)

`follower` performs the requests of a client, `convert` turns the events of the chain client into
those of the library, `floats` gives the buckets their bounds, observes in the histograms and sets
the price, and `main` starts the threads and the server.

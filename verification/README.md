# xquery

Pieces of an XQuery engine, and the generator of Rust test modules from
the QT3 test suite's catalog, written in Verus with their contracts proved.

Layout of `src/`:

- `qname.rs`, `namespaces.rs`, `errors.rs`: qualified names, the namespace
  bindings in scope, the error codes.
- `value.rs`: the values an expression evaluates to (atomic values, nodes,
  sequences, ranges, arrays), atomization, number reading.
- `eval/`: the evaluation scope (`environment.rs`), sequence types and node
  tests, general, value and deep comparison, integer arithmetic, prolog
  declarations, primary expressions and the sequence helpers.
- `fns/`: built-in functions on sequences, booleans, dates and durations,
  arrays, counts and deep equality.
- `xqts/`: the state machines that read the suite's XML and write the test
  modules, and the listing of the generated modules.

`app/main.rs` reads the catalog and the test-set files and writes the
generated modules; everything it decides is in the library.

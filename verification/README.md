# jals_fmt

The configuration importers and the comment reflow of the jals Java formatter, written in
Verus: the functions state what they return in their contracts, and Verus proves it. What
quick-xml reports for a document is named, not stated: the XML readers' contracts are exact
over those names (`xml_event`, `xml_start_name`, `xml_attribute`, … in `src/import/xml.rs`).

## Layout

- `src/config.rs` — the formatter's option model (`Config` and its sections), with the
  library defaults.
- `src/import/` — importers for native formatter settings: Eclipse JDT profiles
  (`eclipse/`), IntelliJ code-style schemes and `.editorconfig` files (`intellij/`),
  google-java-format (`gjf.rs`), palantir-java-format (`palantir.rs`) and Spotless pipelines
  (`spotless.rs`). Each reads a native model and lowers it onto `Config`; `xml.rs` turns a
  document into plain items through quick-xml, `kv.rs` and `serde_kv.rs` read key/value
  settings. The laws of the lowering (pinning the Java floor is idempotent and leaves the defaults as they are, lowering a
  section twice changes nothing, a profile that declares nothing changes nothing, one static
  import group at most) are proof functions named `law_*`.
- `src/javadoc/` — comment reflow: the line-level rules (`lines.rs`), tokens and refilling
  (`tokens.rs`), the reader that turns a comment body into blocks (`parse.rs`), the block
  rules (`blocks.rs`), code regions (`code.rs`, and `reindent.rs`, which re-indents the code a
  comment fences to the layout's indentation when source in comments is formatted), `//` comments (`comment.rs`), writing lines
  and tags (`render.rs`) and a whole comment (`reflow.rs`). `measure.rs` holds the sizes that
  prove the reader terminates and that its output fits machine integers.
- `src/ir.rs` — the layout IR (`Doc`), its width and flat text, and widths in UTF-16 units.
- `src/strs.rs` — character-sequence helpers the rest is written with.
- `app/` — serde mirrors of the importer models, for reading them from JSON.
- `tests/` — tests of the library on concrete values.

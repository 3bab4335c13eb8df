# firecrawl metadata values

Verified decoders for the metadata that the Firecrawl API returns with a
scraped document: a metadata value is one string, or a list of strings when a
page repeats a meta tag.

- `src/json.rs`: the JSON shapes the decoders read, as plain values, and the
  reading of a `serde_json::Value` into them.
- `src/document.rs`: `MetadataValue`, its accessors, and its JSON reader and
  writer; `src/document/option_metadata_value.rs`: the same for optional values.
- `src/flexible_value.rs`: reading a string-or-array field into `Option<String>`.
- `src/text.rs`: joining strings with `", "`.
- `app/`: the serde side: the types with serde's derives (`Document`,
  `DocumentMetadata`, `MetadataValue`) and the `Deserializer`/`Serializer`
  adapters that hand plain values to the library.

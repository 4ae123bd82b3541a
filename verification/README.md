# scrapely

Declarative HTML scraping with typed extraction, and the bookkeeping of a
concurrent web crawler, verified with Verus.

## Layout

- `src/` — the verified library.
  - `text.rs`: Unicode whitespace, trimming, splitting, decimal rendering.
  - `number.rs`: decimal integer parsing (sign, digits, overflow).
  - `extract.rs`: `FromHtml`, converting text and attribute values into
    strings, integers, booleans, optional values and comma-separated lists.
  - `error.rs`: `ParseError`, `ExtractionError` and their messages.
  - `backend.rs`: the `ElementRef` abstraction and its implementation on the
    `scraper` crate (the only place the HTML parser is called).
  - `item.rs`: the `Item` trait (extract one item, all items, or from a
    document).
  - `fields.rs`: the extraction rules of an item's fields (required,
    optional, default, attribute, list, nested item), tied to what the
    element gives for the field's selector.
  - `refine.rs`: a field's regular expression and transform, applied to
    the text read before it is parsed (the `regex` crate matches).
  - `item_attrs.rs`: item and field settings, their validation, and the
    choice of a field's rule from its type.
  - `settings.rs`: reading those settings from the `#[item(...)]` and
    `#[field(...)]` attributes, taken as their tokens read.
  - `plan.rs`: what deriving an item decides: whether the declaration can
    be an item, its selector, and which fields are extracted by which rule.
  - `url.rs`: URL normalization for deduplication.
  - `crawler/`: configuration and builder, completion detection,
    statistics, the set of visited URLs, and the crawl loop's decisions.
- `app/` — the asynchronous crawl loop (tokio), spiders, observers, rate
  limiters, floating point parsing, and error types with `Display`.
- `tests/` — tests of the library.

# delta_simple

Creating Delta tables and staging their files, from plain values: no knowledge of Arrow is needed.

- `src/` is the library, verified with Verus. `table` works out the first commit of a new table
  (where it goes, its protocol and its metadata), `file` makes the batches for files to add and to
  remove and stages them on a transaction. `schema`, `columns` and `text` are what those two are
  made of, `json` shows that the text of a schema can be read back, and `laws` states what holds
  of the library as a whole.
- Contracts are stated over the models in `model`. The claims about Arrow (`arrow`), the Delta
  kernel (`kernel`), URLs (`location`) and the standard library that are not proved are the
  `external_body` functions and `assume_specification` items; each names the function it speaks of.
- `app/` is the C interface: it copies what a caller points to, calls the library, and writes the
  first commit to the log.
- `tests/` run the library against the real Arrow and Delta kernel.

Arrow counts the bytes of a text column and the items of a list with 32 bits. Every action has a
`check_fits` method that tells whether it stays within that, or is refused for another reason; the
functions that build batches require it.

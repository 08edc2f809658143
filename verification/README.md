# mail_common

The verified core of a mail client: the models of conversations, messages,
labels, drafts and attachments, the counters kept per label, the decisions
taken when mail is synced, labelled, read, deleted or snoozed, the eviction
order of the attachment cache, and the mapping of draft errors to what the
user is shown. The public functions in `src/` carry contracts that Verus
proves; the few calls into outside code stand behind trusted wrappers whose
contracts are believed, not proved.

Layout:

- `src/` — the library, one module per model (`conversation`, `message`,
  `labels`, `counters`, `draft`, `draft_errors`, `attachment`,
  `attachment_cache`, `mail_scroller`, …). The few calls into the standard
  library and the `regex` and `file-format` crates that Verus does not
  specify stand behind small wrappers whose contracts are documented where
  they are declared.
- `tests/` — tests of the library on concrete values.
- `app/` — what stays outside the verified library: reading files that
  become attachments, the serde forms of its types, the floating point score
  of cached attachments, and search results with their scores.

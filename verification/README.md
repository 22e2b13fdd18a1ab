# structural_tag

Decides whether a chat request gets a structural tag, a description of the text that guided
decoding lets through, and builds it. The library in `src/` is verified with Verus.

- `src/builder.rs` builds tags: one entry for each tool that the tool choice lets through, with
  the schema of its arguments, or a ban on the tokens that begin a call.
- `src/preprocessor.rs` is the policy: which requests get a tag, and which are refused.
- `src/laws.rs` proves what holds of the two together.
- `src/json.rs` declares the `serde_json` values that the library carries.

A finished tag becomes JSON in `app/`: the caller of `try_apply_structural_tag` hands in the
encoder, and a model family brings the layout of its own markup (`FamilyLayout`).

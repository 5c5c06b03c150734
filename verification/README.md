# greycat_zed

The verified core of the GreyCat (`.gcl`) language-server integration for the
Zed editor. The extension starts `greycat-analyzer` over LSP, finding it in
the user's settings, on `PATH`, or by downloading the latest release from
GitHub (re-checked at most once a day, with a cached fallback when offline),
and renders completion items as highlighted GreyCat fragments.

Layout:

- `src/` — the library, verified with Verus:
  - `settings.rs`: log level and the analyzer's environment;
  - `command.rs`: discovery order of the analyzer binary;
  - `label.rs`: completion labels, with byte-exact spans;
  - `platform.rs`: prebuilt archives per platform;
  - `sidecar.rs`: the `.last-check.json` record and its freshness;
  - `install.rs`: the managed install as a state machine (step by step);
  - `laws.rs`: properties of whole install runs;
  - `json.rs`, `text.rs`: `serde_json` access and text facts.
- `app/` — the Zed extension itself: it performs the host calls and file
  system work that the library's install machine asks for.
- `tests/` — tests of the library on concrete values.

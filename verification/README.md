# lib — a verified telnet toolkit

- `src/parser.rs`: the tokenizer. `step_spec`/`next_spec` describe one step and
  one token; `step_parser`/`next` are proved to follow them. Single-case laws
  (escaped IAC, commands, negotiations, line ends, a silent first chunk) are
  proved over them.
- `src/tokens.rs`: `tokens_of`, all the tokens of a chunk, tied to `next` by
  `lemma_next_yields_tokens`; the escape round-trip law for every byte string
  and the chunk-boundary law for every split, with adjacent text runs joined.
- `src/dispatch.rs`: which callback a token goes to (`delivery`) and `dispatch`.
- `src/demux.rs`: the channel demultiplexer; `decide_command` is the decision
  for each command, `TelnetDemux` performs it against a `ChannelHandler`.
- `src/analyzer.rs`: a demultiplexer that labels tokens with their channel.
- `src/registry.rs`: routes channel events to registered endpoints; what each
  receiver gets is stated through the handler traits' effect relations.
- `src/qstate.rs`, `src/iac.rs`, `src/carrier.rs`: option state, command bytes,
  and a borrowed parent/state pair.
- `app/main.rs`: a demo that feeds a sample stream through all of it.

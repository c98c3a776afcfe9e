# llm_factor_discovery

Tools for discovering alpha factors with language models, with the factor
language and its checks verified by Verus.

- `src/parser`: the factor expression language. `number` reads numeric
  literals (the grammar of `f64::from_str`; values are kept as exact decimals and
  are not rounded to doubles),
  `lexer` tokenizes, `expression` parses and displays expressions, and
  `validator` checks them against a configuration and scores their
  complexity.
- `src/discovery`: the prompts sent to a language model, the decisions of
  the chat client (endpoint URLs, status judgement, response assembly) and
  the extraction of JSON from replies.
- `src/evaluation`, `src/utils`: the IC calculator's forward periods,
  configuration defaults and format detection, and named counters.
- `src/text.rs`: character-level helpers shared by the modules above.
- `app/`: the HTTP client, configuration loading, the metrics recorder, and
  the floating-point evaluation and trading code.
- `tests/`: tests of the library.

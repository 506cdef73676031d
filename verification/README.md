# llama-cpp-4

Model parameters and multi-token-prediction draft sessions for llama.cpp,
written in Verus.

- `src/` is the verified library. It holds the rules: how loading strategies
  are named and encoded, how override arrays are laid out, which contexts can
  carry a session, and what a session allows in which state. It makes no native
  call itself: what a native query returned enters as a plain value, and a
  native action as a closure that is called only once the checks have passed.
- `app/` is the native side: the calls into llama.cpp through `llama_cpp_sys_4`,
  and the types that carry `Display`, `Error`, `Debug` and `Drop`. It expects
  `llama_cpp_sys_4` from the build that embeds it.
- `tests/` runs the library.

Floating-point numbers are carried by their bits (`F32Bits`, `F64Bits`); the
library copies and compares them and never computes with them.

Each promise that spans several functions is a public proof function whose name
starts with `law_`, beside the definitions it speaks of.

# Morty Steam Auth

A desktop authenticator for Steam: it shows the Guard codes of several accounts,
answers confirmations and sign-in requests, connects accounts to a mobile
authenticator, and keeps their secrets in an encrypted file.

`src/` is the library, written in Verus. It holds the rules of the application
and what it computes, each function with a contract that Verus proves.

| Part | Modules |
| --- | --- |
| Texts and JSON | `text`, `json`, `address` |
| Cryptography and the vault | `crypto`, `guard`, `vault`, `vault_save` |
| Accounts and their files | `account`, `mafile`, `import` |
| Talking to Steam | `request`, `mobile`, `confirmation`, `login`, `worker`, `list_load`, `login_load`, `enrollment` |
| Trades | `trade`, `trade_page`, `trade_extras`, `trade_load` |
| The window | `state`, `dialog`, `events`, `pages`, `cards`, `tray`, `steam` |

Work that takes several answers from the network or the file system is a state
machine: a step says what to ask next, the answer is handed back, and the next
step follows. Sign-ins, the three kinds of loading and the storing of the vault
are written this way.

Calls into other crates stand behind small functions marked
`#[verifier::external_body]`. The comment above each says what is believed of
the call.

`app/` is the ordinary Rust around the library: the window, the tray icon, the
files and the network. It embeds `logo.png`, which has to lie at the root of the
project when it is built.

`tests/` runs the library on concrete values, with the real crates linked.

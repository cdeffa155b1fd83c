# kayleeping

A small scheduled, one-way encrypted content drop: an image and a caption are
encrypted with a shared password, published, fetched, decrypted locally and
shown in a window.

- `src/` is the verified library:
  - `encryption` — the ciphertext format (16-byte salt, 12-byte nonce,
    AES-256-GCM ciphertext and tag; key from PBKDF2-HMAC-SHA256), decryption
    of a fetched image/caption pair, the save decision, and the PNG header
    reader that sizes the window;
  - `primitives` — the trusted calls into `aes-gcm`, `pbkdf2`/`sha2` and `rand`;
  - `error` — user messages, recovery suggestions and cause chains;
  - `app` — the GUI state, command-line routing, load-failure classification
    and the usage and error-screen texts;
  - `config`, `content`, `text` — paths, the content bundle, and text helpers.
- `app/` is the program: environment and `.env` loading, files, HTTP, and the
  iced window.
- `tests/` exercises the library on concrete values.

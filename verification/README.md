# ostree_repo_utils

Utilities for signing OSTree commits with ED25519 keys held in AWS KMS and
exporting the public key for offline verification with `ostree sign --verify`.

- `src/` is the verified library:
  - `keys` — extraction of the raw ED25519 key from a DER SPKI blob, and the
    name and contents of the `.pub` file in an ostree `--keys-dir`;
  - `metadata` — the `ostree.sign.ed25519` signature list, type `(aay)`, read
    and written as plain values;
  - `sign` — the `Signer` trait, the KMS `Sign` request (raw message,
    `ED25519_SHA_512`) and the checks around it;
  - `command` — the `sign` command as a state machine, with append-or-replace;
  - `encoding` — standard base64 (RFC 4648) as a specification, with the
    proof that decoding an encoding gives the bytes back;
  - `text` — decimal and `{:02x?}` rendering used in error messages.
- `app/` is the `ostree-repo-server` binary: command line, `ostree` repository
  and GLib variants, and the KMS service.
- `tests/` exercises the library on concrete values.

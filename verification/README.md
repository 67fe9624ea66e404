# pinpam

TPM-backed PIN authentication: the logic of a PAM module and of its command-line
utility `pinutil`, written in Rust and verified with Verus.

A PIN lives in an NV index of a TPM that counts failed attempts and refuses
everything once a limit is reached. The library decides what is asked of the TPM,
of PAM, of the file system and of the user, and what each answer leads to. It
performs none of that itself: every operation is a conversation that a driver holds
(`src/flow.rs`), and its contract is the tree of all its possible conversations.

- `src/` is the verified library.
  - `flow` defines conversations; `protocol` specifies those with the TPM, `model`
    is a TPM as the specifications see it, and `laws` holds what is true of the
    operations as a whole.
  - `pin`, `pinpolicy`, `pindata`, `pinindex`, `pinerror`, `tpm` and `pinmanager`
    are about PINs in the TPM.
  - `pam`, `authentication` and `authlaws` are the PAM module; `tokenauth` is the
    one that hands out tokens derived from the master key.
  - `dialogue`, `pinutil` and `utillaws` are the commands of the utility.
  - `sealing`, `secret`, `master_key`, `masterlaws` and `masterutil` are about the
    master key, its recovery phrase and its commands.
  - `text`, `util`, `tcti`, `pinconstants` and `pamlog` serve all of them.
- `tests/` runs the library against a simulated TPM and scripted partners.
- `app/` is the utility and the entry points of the PAM modules: argument
  handling, PAM, files, the terminal and the TPM driver.

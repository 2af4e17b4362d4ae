# ironfish_sapling

Sapling spend and output descriptions of Iron Fish transactions, verified
with Verus.

- `src/sapling.rs`: the v4 and v5 byte layouts of spend and output
  descriptions, their readers (which enforce canonical encodings and report
  the first failing part) and writers, compact outputs, and the change of
  authorization of a bundle.
- `src/roundtrip.rs`: what reading gives back of what was written, and which
  inputs the readers accept.
- `src/curve.rs`: Jubjub points and BLS12-381 scalars held as canonical
  encodings; the checks are made by `ironfish-jubjub` and `blstrs`.
- `src/redjubjub.rs`: public keys and signatures.
- `src/sprout.rs`: the bits hashed by the Sprout note commitment.
- `app/`: `std::io` adapters, conversions to the curve crates' types, and the
  note commitment gadget, which needs a `bellperson` constraint system.

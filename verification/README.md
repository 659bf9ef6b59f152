# non_zst

Values whose type is checked to take up space, in four forms:

- `const_generic::non_zst_only`, `trait_bound::non_zst_only` (and the sealed
  `NonZst` trait's `non_zst` method), `inline_const::non_zst_only`: identity
  functions that accept only types of non-zero size;
- `wrapper::NonZstVal<T>`: a newtype whose constructor `new` accepts only
  such types. Its equality, partial ordering, cloning, conversions and
  dereferencing are proved to go to the wrapped value. `From::from` and
  `Default::default` also build wrappers but, being std trait methods, take
  no precondition and do not check the size. `Ord`, `Hash` and `Debug` are
  derived; that they act on the wrapped value, and that the wrapper has the
  value's size and alignment, is checked by the tests only.

"Non-zero size" is a precondition, `vstd::layout::size_of::<T>() != 0`, that
Verus checks at every verified call. vstd knows the sizes of the primitive
types and of references only, so verified callers can meet it for those;
for other types (`String`, `Vec`, tuples, the wrapper itself) no size fact is
available, and only unverified callers, such as the tests, use them.

`driver` holds what the shared Windows driver entry point decides for each
driver model: the driver-type name that its initialisation event carries and
the order of its steps (register the event provider, log, then unregister
inline or install an unload callback).

Layout: `src/` is the verified library, `tests/` its tests, `app/` the
program and driver glue (native linking, the TraceLogging provider, the
`DriverEntry` symbol).

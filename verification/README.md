# assertr

A fluent assertion library whose checks, failure reports and failure handling are specified
and proved with Verus.

An assertion chain starts with `assert_that(value)` (or `value.must()`), runs checks such as
`is_equal_to`, `contains_exactly_in_any_order` or `is_in_range`, and keeps the failures they
record. In panic mode only the first failure is kept and `panic_message` gives its report; in
capture mode every failure is kept in order. Each check's contract states which failure it
records when it fails, and every chain counts the assertions it has made.

The verified checks never panic themselves: a panic-mode chain keeps its first failure and
goes on, and `enforce()` in `app/` (or reading `panic_message`) turns that failure into the
panic. A chain given a place with `with_location("file:line:column")` opens every report
with `Assertion failed at file:line:column`; the `assert_that!` macro in `app/` fills in the
caller's place and expression text.

For an iterator, an exact check first asks the iterator for its reported size: where that
size is exact and differs from the expected length, the check fails without drawing an
element (`contains_exactly_given_hint` states this for any given size).

When a check passes is stated exactly where the library can know it: for integers, `bool`,
the library's own types and the collections built from them. Three kinds of verdict are
left open, and the contracts say only what holds whatever the outcome:

- comparisons through `==` and `<` on `String`, `&str` and `char` (and on types whose
  `PartialEq` or `PartialOrd` carries no specification), since Verus has no specification of
  those operators for these types; a range with no edges still holds every value;
- identity checks, which rest on the addresses the machine gave the two values: a pass
  still means the two references are equal, and a failure shows both addresses;
- checks that go through a closure, a `RefCell`'s borrow state, an iterator's reported size,
  a `char`'s case properties or an HTTP header's bytes, which are stated as far as the
  called code documents them.

Types that implement `Render`, `HasLength` or `TypeLabel` in ordinary Rust, outside verified
code, get the traits' empty default specifications, so contracts about their rendering and
length say nothing.

## Layout

- `src/assert_that.rs`: the chain (`AssertThat`), its modes, and how a check's verdict and
  failure change it.
- `src/failure.rs`: structured failures and the text of their reports.
- `src/render.rs`, `src/text.rs`: how values are written in reports.
- `src/matching.rs`: the one-to-one matching behind the "in any order" checks.
- `src/assertions/`: the assertion families (booleans, characters, equality, ordering,
  ranges, strings, lengths, options, results, polls, iterators, collections, `RefCell`
  borrow state, numbers, HTTP header values, and the decisions of the panic checks).
- `src/laws.rs`: laws that relate several functions, proved over the same models.
- `app/`: what runs outside the verified library: the panic raised by a failed panic-mode
  chain, catching a called function's panic, floating-point checks, an entry macro that
  records the expression text and the caller's place, and the bridge from `std::task::Poll`.
- `tests/`: tests of the library on concrete values.

//! A line-oriented text filter built around an external pattern-matching
//! engine: it compiles one pattern, provisions the engine's scan workspace,
//! scans each input line for a boolean outcome, and releases every
//! engine-owned resource exactly once on every exit path.
//!
//! The engine itself (pattern compilation internals, automaton execution) is
//! an opaque external collaborator reached over a foreign-call boundary; the
//! unverified binary shell drives those calls and feeds their raw outcomes to
//! the functions here, which hold every decision the integration layer makes.

pub mod engine;
pub mod lifecycle;
pub mod pattern;
pub mod reporter;

//! A memory-compact, immutable representation of the file and directory
//! names inside a directory subtree.
//!
//! The subtree is stored as a flat buffer of path components of two kinds:
//! a `Name` component records an entry, and an `Up` marker closes the scope
//! that the preceding unmatched `Name` opened.  A builder appends components
//! under a caller-supplied inclusion and error policy, and a decoder replays
//! the buffer against a cursor seeded at the root, yielding every recorded
//! absolute path in discovery order without touching the filesystem again.

pub mod encoding;
pub mod errors;
pub mod visitor;
pub mod builder;
pub mod tree;

pub use encoding::Component;
pub use encoding::ComponentView;
pub use errors::ErrorKind;
pub use errors::TreeError;
pub use visitor::PathVisitor;
pub use visitor::DefaultVisitor;
pub use visitor::path_display;
pub use builder::TreeBuilder;
pub use builder::EntryKind;
pub use builder::ScreenOutcome;
pub use builder::RecordOutcome;
pub use builder::AnswerStep;
pub use builder::filter_step;
pub use builder::visit_step;
pub use builder::route_screen_verdict;
pub use builder::screen_entry;
pub use builder::screen_listing_error;
pub use tree::CompactPathTree;
pub use tree::CompactPathTreeIter;

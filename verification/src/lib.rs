//! A static leak-safety discipline: a marker capability for "this value's
//! destructor may be skipped", a wrapper that withholds that capability from
//! borrow-carrying contents, and guard shapes that compose the wrapper so a
//! scoped guard cannot be discarded while its borrow is still outstanding.

pub mod capability;
pub mod myosotis;

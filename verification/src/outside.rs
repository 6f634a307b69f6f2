//! Types of egui, winit and std that the library carries through without
//! looking inside them.

use vstd::prelude::*;

verus! {

/// A position in logical points (`egui::Pos2`), carried as an opaque value.
#[verifier::external_type_specification]
#[verifier::external_body]
pub struct ExPos2(egui::Pos2);

/// A vector in logical points (`egui::Vec2`), carried as an opaque value.
#[verifier::external_type_specification]
#[verifier::external_body]
pub struct ExVec2(egui::Vec2);

/// The egui context, queried for what egui wants to consume.
#[verifier::external_type_specification]
#[verifier::external_body]
pub struct ExContext(egui::Context);

/// The force of a touch as winit reports it.
#[verifier::external_type_specification]
#[verifier::external_body]
pub struct ExForce(winit::event::Force);

/// A file system path (hovered or dropped files).
#[verifier::external_type_specification]
#[verifier::external_body]
pub struct ExPathBuf(std::path::PathBuf);

} // verus!

verus! {

/// `PathBuf::clone`: std documents `Clone` for `PathBuf` as a copy of the
/// path, so the clone is the same path.
pub assume_specification [<std::path::PathBuf as Clone>::clone](p: &std::path::PathBuf) -> (r: std::path::PathBuf)
    ensures
        r == *p,
;

} // verus!

//! What the library takes from `egui`: the description of a desired window
//! and the diff between two such descriptions.
//!
//! A `ViewportBuilder` is opaque here. The library carries builders around,
//! asks `egui` to diff them, and reads and writes a single field of them:
//! the icon. Nothing in this file is proved; each contract says what the
//! `egui` source shows.

use std::sync::Arc;
use vstd::prelude::*;

verus! {

/// `egui::ViewportBuilder`: what a window should look like.
#[verifier::external_type_specification]
#[verifier::external_body]
pub struct ExViewportBuilder(egui::ViewportBuilder);

/// `egui::ViewportCommand`: one change to make to an open window. Carried
/// from the diff to the embedder and never looked into.
#[verifier::external_type_specification]
#[verifier::external_body]
pub struct ExViewportCommand(egui::ViewportCommand);

/// `egui::IconData`: the pixels of an icon. Never looked into.
#[verifier::external_type_specification]
#[verifier::external_body]
pub struct ExIconData(egui::IconData);

/// The flag that `egui::ViewportBuilder::patch` returns when the builder
/// `last` is patched with `new`: whether the window has to be made anew.
pub uninterp spec fn patch_recreates(last: egui::ViewportBuilder, new: egui::ViewportBuilder) -> bool;

/// The builder's `icon` field.
pub uninterp spec fn icon_of(builder: egui::ViewportBuilder) -> Option<Arc<egui::IconData>>;

/// `own` where it is set, else `other`.
pub open spec fn icon_or(
    own: Option<Arc<egui::IconData>>,
    other: Option<Arc<egui::IconData>>,
) -> Option<Arc<egui::IconData>> {
    if own is Some {
        own
    } else {
        other
    }
}

/// Calls `egui::ViewportBuilder::patch`, which brings `last` up to date with
/// `new` and returns the commands that do the same to a live window, and
/// whether the window must be made anew instead.
///
/// Claimed of it: the flag is a function of the two builders; patching copies
/// every field on which the flag depends, so that the patched builder, diffed
/// against the same `new`, asks for no new window; and the icon afterwards is
/// that of `new` where `new` has one, else the one that `last` had. Nothing
/// is claimed of the commands.
#[verifier::external_body]
pub(crate) fn patch_builder(last: &mut egui::ViewportBuilder, new: egui::ViewportBuilder) -> (r: (
    Vec<egui::ViewportCommand>,
    bool,
))
    ensures
        r.1 == patch_recreates(*old(last), new),
        !patch_recreates(*final(last), new),
        icon_of(*final(last)) == icon_or(icon_of(new), icon_of(*old(last))),
{
    last.patch(new)
}

/// Calls `Clone::clone` of `egui::ViewportBuilder`, which `egui` derives:
/// the copy equals the builder field by field.
#[verifier::external_body]
pub(crate) fn clone_builder(builder: &egui::ViewportBuilder) -> (copy: egui::ViewportBuilder)
    ensures
        copy == *builder,
{
    builder.clone()
}

/// Reads the public field `icon` of `egui::ViewportBuilder`.
#[verifier::external_body]
pub(crate) fn builder_icon(builder: &egui::ViewportBuilder) -> (icon: Option<Arc<egui::IconData>>)
    ensures
        icon == icon_of(*builder),
{
    builder.icon.clone()
}

/// Writes the public field `icon` of `egui::ViewportBuilder`.
#[verifier::external_body]
pub(crate) fn set_builder_icon(builder: &mut egui::ViewportBuilder, icon: Option<Arc<egui::IconData>>)
    ensures
        icon_of(*final(builder)) == icon,
{
    builder.icon = icon;
}

} // verus!
